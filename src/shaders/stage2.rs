use vstd::prelude::*;

verus! {

/// GLSL source of the vertex shader.
pub const VERTEX_SHADER: &'static str = r#"
        #version 140

        in vec2 position; // vec2 = [f32; 2] in Rust, name only required to match struct data field, name in-and-of-itself doesn't matter.

        void main() {
            gl_Position = vec4(position, 0.0, 1.0); // coordinates are actually 4D, x/y/z/? is this for quarternion-ing?
        }
    "#;

/// The vertex shader source.
pub fn vertex_shader_src() -> (r: &'static str)
    ensures
        r@ == VERTEX_SHADER@,
{
    VERTEX_SHADER
}

/// GLSL source of the fragment shader.
pub const FRAGMENT_SHADER: &'static str = r#"
        #version 140

        out vec4 color;

        void main() {
            color = vec4(0.9, 0.15, 0.1, 1.0);
        }
    "#;

/// The fragment shader source.
pub fn fragment_shader_src() -> (r: &'static str)
    ensures
        r@ == FRAGMENT_SHADER@,
{
    FRAGMENT_SHADER
}

} // verus!
