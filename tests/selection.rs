use gp_tuts::lessons::{select_lesson, select_tutorial, tutorial_from_lowercase, Lesson, Tutorial, DEFAULT_STAGE};
use gp_tuts::pipeline::BlendMode;
use gp_tuts::shaders::{stage2, stage3, stage9};

#[test]
fn tutorial_names_match_in_any_letter_case() {
    assert_eq!(select_tutorial("glium"), Some(Tutorial::Glium));
    assert_eq!(select_tutorial("GLium"), Some(Tutorial::Glium));
    assert_eq!(select_tutorial("LWGPU"), Some(Tutorial::LearnWgpu));
    assert_eq!(select_tutorial("vulkan"), None);
    assert_eq!(select_tutorial(""), None);
}

#[test]
fn lowercase_lookup_compares_exactly() {
    assert_eq!(tutorial_from_lowercase("glium"), Some(Tutorial::Glium));
    assert_eq!(tutorial_from_lowercase("lwgpu"), Some(Tutorial::LearnWgpu));
    assert_eq!(tutorial_from_lowercase("Glium"), None);
    assert_eq!(tutorial_from_lowercase("glium "), None);
}

#[test]
fn no_stage_runs_the_default() {
    assert_eq!(DEFAULT_STAGE, 9);
    assert_eq!(select_lesson(None), Some(Lesson::DepthTestedMesh));
}

#[test]
fn each_stage_number_names_its_lesson() {
    assert_eq!(select_lesson(Some(1)), Some(Lesson::ClearWindow));
    assert_eq!(select_lesson(Some(2)), Some(Lesson::Triangle));
    assert_eq!(select_lesson(Some(3)), Some(Lesson::MovingTriangle));
    assert_eq!(select_lesson(Some(4)), Some(Lesson::RotatingTriangle));
    assert_eq!(select_lesson(Some(5)), Some(Lesson::TexturedTriangle));
    assert_eq!(select_lesson(Some(6)), Some(Lesson::TexturedTriangle));
    assert_eq!(select_lesson(Some(7)), Some(Lesson::Mesh));
    assert_eq!(select_lesson(Some(8)), Some(Lesson::ShadedMesh));
    assert_eq!(select_lesson(Some(9)), Some(Lesson::DepthTestedMesh));
}

#[test]
fn unknown_stage_numbers_have_no_lesson() {
    assert_eq!(select_lesson(Some(0)), None);
    for stage in 10..=15 {
        assert_eq!(select_lesson(Some(stage)), None);
    }
    assert_eq!(select_lesson(Some(usize::MAX)), None);
}

#[test]
fn lesson_configuration() {
    assert_eq!(Lesson::ClearWindow.mesh_count(), 0);
    assert_eq!(Lesson::Triangle.mesh_count(), 1);
    assert_eq!(Lesson::ClearWindow.shader_sources(), None);
    assert_eq!(
        Lesson::MovingTriangle.shader_sources(),
        Some((stage3::vertex_shader_src(), stage2::fragment_shader_src()))
    );
    let state = Lesson::DepthTestedMesh.draw_state();
    assert!(state.depth_test_enabled && state.depth_write_enabled);
    assert_eq!(state.blend_mode, BlendMode::Disabled);
    assert!(!Lesson::Mesh.draw_state().depth_test_enabled);
    assert_eq!(Lesson::DepthTestedMesh.shader_sources().unwrap().0, stage9::vertex_shader_src());
}
