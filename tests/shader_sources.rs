use gp_tuts::shaders::{stage10_w_11, stage12, stage14, stage2, stage3, stage4, stage6, stage7, stage8, stage9};

#[test]
fn shader_sources_declare_their_glsl_version() {
    let sources = [
        stage2::vertex_shader_src(),
        stage2::fragment_shader_src(),
        stage3::vertex_shader_src(),
        stage4::vertex_shader_src(),
        stage6::vertex_shader_src(),
        stage6::fragment_shader_src(),
        stage7::vertex_shader_src(),
        stage7::fragment_shader_src(),
        stage8::vertex_shader_src(),
        stage8::fragment_shader_src(),
        stage9::vertex_shader_src(),
        stage9::fragment_shader_src(),
        stage10_w_11::vertex_shader_src(),
        stage10_w_11::fragment_shader_src(),
        stage12::vertex_shader_src(),
        stage12::fragment_shader_src(),
        stage14::vertex_shader_src(),
        stage14::fragment_shader_src(),
    ];
    for source in sources {
        assert!(source.trim_start().starts_with("#version 1"));
        assert!(source.contains("void main()"));
    }
}

#[test]
fn vertex_shaders_read_the_uniforms_their_lessons_supply() {
    assert!(stage3::vertex_shader_src().contains("uniform float t;"));
    assert!(stage4::vertex_shader_src().contains("uniform mat4 translation_matrix;"));
    assert!(stage10_w_11::vertex_shader_src().contains("uniform mat4 perspective;"));
    assert!(stage12::vertex_shader_src().contains("uniform mat4 view;"));
    assert!(stage14::fragment_shader_src().contains("uniform sampler2D normal_tex;"));
    assert!(stage9::fragment_shader_src().contains("uniform vec3 u_light;"));
}
