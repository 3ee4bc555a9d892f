use vstd::prelude::*;

verus! {

/// GLSL source of the vertex shader.
pub const VERTEX_SHADER: &'static str = r#"
        #version 140

        in vec2 position;

        uniform float t; // UNIFORM meaning: global variable whose value is set for a draw call. aka. draw-context const variable.

        void main() {
            vec2 pos = position;
            pos.x += t;
            gl_Position = vec4(pos, 0.0, 1.0);
        }
    "#;

/// The vertex shader source.
pub fn vertex_shader_src() -> (r: &'static str)
    ensures
        r@ == VERTEX_SHADER@,
{
    VERTEX_SHADER
}

} // verus!
