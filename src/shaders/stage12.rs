use vstd::prelude::*;

verus! {

/// GLSL source of the vertex shader.
pub const VERTEX_SHADER: &'static str = r#"
        #version 150

        in vec3 position;
        in vec3 normal;

        out vec3 v_normal;

        uniform mat4 perspective;
        uniform mat4 view;
        uniform mat4 model;

        void main() {
            mat4 modelview = view * model;
            v_normal = transpose(inverse(mat3(modelview))) * normal;
            gl_Position = perspective * modelview * vec4(position, 1.0);
        }
    "#;

/// The vertex shader source.
pub fn vertex_shader_src() -> (r: &'static str)
    ensures
        r@ == VERTEX_SHADER@,
{
    VERTEX_SHADER
}

/// GLSL source of the fragment shader.
pub const FRAGMENT_SHADER: &'static str = r#"
        #version 140

        in vec3 v_normal;
        out vec4 color;

        uniform vec3 u_light;

        void main() {
            float brightness = dot(normalize(v_normal), normalize(u_light));
            vec3 dark_color = vec3(0.555, 0.007, 0.075);
            vec3 regular_color = vec3(1.0, 0.09, 0.045);
            // mix = lerp
            color = vec4(mix(dark_color, regular_color, brightness), 1.0);
        }
    "#;

/// The fragment shader source.
pub fn fragment_shader_src() -> (r: &'static str)
    ensures
        r@ == FRAGMENT_SHADER@,
{
    FRAGMENT_SHADER
}

} // verus!
