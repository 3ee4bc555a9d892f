use vstd::prelude::*;

verus! {

/// GLSL source of the vertex shader.
pub const VERTEX_SHADER: &'static str = r#"
        #version 140

        in vec2 position;
        in vec2 texture_coordinates; // THIS!

        out vec2 my_attr; // out variables are communication channels from vertex to fragment shader programs!
        out vec2 v_tex_coords; // OUT TO THIS!

        uniform mat4 translation_matrix; // UNIFORM meaning: global variable whose value is set for a draw call. aka. draw-context const variable.
        uniform mat4 rotation_matrix;

        void main() {
            // Need to do this so that it can be "passed along" to the fragment shader so that the pixel-in-texture-position can be interpolated from the vertex pos.
            v_tex_coords = texture_coordinates;

            // NOTE: the interpolation happens because the default for variables like this is the "smooth" setting.
            my_attr = position; // this is only the vertex position, but when the fragment shader reads it it is an interpolated value corresponding automatically to the pixels relative position! :D <3 

            vec4 rot_pos = rotation_matrix * vec4(position, 0.0, 1.0); // order is important, remember 4x4 * 4x1 vs 4x1 * 4x4
            gl_Position = translation_matrix * rot_pos; // order is important, remember 4x4 * 4x1 vs 4x1 * 4x4
        }
    "#;

/// The vertex shader source.
pub fn vertex_shader_src() -> (r: &'static str)
    ensures
        r@ == VERTEX_SHADER@,
{
    VERTEX_SHADER
}

/// GLSL source of the fragment shader.
pub const FRAGMENT_SHADER: &'static str = r#"
        #version 140

        // like the rest: it just needs to be the same as in the vertex shader.
        in vec2 my_attr; // HERE IT IS :D the interpolated fragment position the vertex shader stored for us.

        in vec2 v_tex_coords; // THIS COMING IN RIGHT HERE!

        out vec4 color;

        uniform sampler2D tex;

        void main() {
            // getting the sampled interpolated pixel attached to the corresponding position within the texture (image)
            vec4 c_tex = texture(tex, v_tex_coords);

            // moving the color spectrum up above 0 to remove the black third for the attrib.
            vec2 c_attrib = (my_attr + 0.5001) * 0.45;

            vec2 c = c_tex.rg + (c_attrib * 0.1);
            // this just sets x to red and y to green, blue to 0.0 and opacity to 1.0
            color = vec4(c, 0.0, 1.0); // awesome
        }
    "#;

/// The fragment shader source.
pub fn fragment_shader_src() -> (r: &'static str)
    ensures
        r@ == FRAGMENT_SHADER@,
{
    FRAGMENT_SHADER
}

} // verus!
