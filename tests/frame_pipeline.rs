use gp_tuts::lessons::Lesson;
use gp_tuts::pipeline::{BlendMode, DepthComparison, DrawState, FrameAction, FrameEvent, FrameState, Phase};

fn flat() -> DrawState {
    DrawState { depth_test_enabled: false, depth_write_enabled: false, blend_mode: BlendMode::Disabled }
}

fn depth_tested() -> DrawState {
    DrawState { depth_test_enabled: true, depth_write_enabled: true, blend_mode: BlendMode::Disabled }
}

/// Runs one tick and records each action and the phase after it.
fn tick(state: &mut FrameState) -> (Vec<FrameAction>, Vec<Phase>) {
    let mut actions = vec![state.step(FrameEvent::Redraw)];
    let mut phases = vec![state.phase];
    while state.pending {
        actions.push(state.step(FrameEvent::Completed));
        phases.push(state.phase);
    }
    (actions, phases)
}

#[test]
fn tick_with_one_mesh_clears_draws_presents() {
    let mut state = FrameState::new(&depth_tested(), 1, 800, 600);
    let (actions, phases) = tick(&mut state);
    assert_eq!(
        actions,
        vec![
            FrameAction::Clear { depth: true },
            FrameAction::Draw { mesh: 0 },
            FrameAction::Present,
            FrameAction::Wait,
        ]
    );
    assert_eq!(phases, vec![Phase::Idle, Phase::Cleared, Phase::Drawn, Phase::Presented]);
    assert!(!state.pending);
    assert_eq!(state.drawn, 1);
}

#[test]
fn tick_with_zero_meshes_still_reaches_drawn_and_presented() {
    let mut state = FrameState::new(&flat(), 0, 640, 480);
    let (actions, phases) = tick(&mut state);
    assert_eq!(
        actions,
        vec![FrameAction::Clear { depth: false }, FrameAction::DrawNone, FrameAction::Present, FrameAction::Wait]
    );
    assert_eq!(phases, vec![Phase::Idle, Phase::Cleared, Phase::Drawn, Phase::Presented]);
    assert_eq!(state.drawn, 0);
}

#[test]
fn tick_with_three_meshes_draws_each_in_order() {
    let mut state = FrameState::new(&flat(), 3, 640, 480);
    let (actions, _) = tick(&mut state);
    assert_eq!(
        actions,
        vec![
            FrameAction::Clear { depth: false },
            FrameAction::Draw { mesh: 0 },
            FrameAction::Draw { mesh: 1 },
            FrameAction::Draw { mesh: 2 },
            FrameAction::Present,
            FrameAction::Wait,
        ]
    );
    assert_eq!(state.phase, Phase::Presented);
}

#[test]
fn second_tick_starts_again_from_idle() {
    let mut state = FrameState::new(&flat(), 1, 640, 480);
    tick(&mut state);
    assert_eq!(state.step(FrameEvent::Redraw), FrameAction::Clear { depth: false });
    assert_eq!(state.phase, Phase::Idle);
    assert!(state.pending);
    assert_eq!(state.drawn, 0);
}

#[test]
fn close_between_frames_exits_at_once() {
    let mut state = FrameState::new(&flat(), 1, 640, 480);
    assert_eq!(state.step(FrameEvent::CloseRequested), FrameAction::Exit);
    assert!(state.exited);
    assert_eq!(state.step(FrameEvent::Redraw), FrameAction::Exit);
}

#[test]
fn close_during_a_frame_exits_before_the_next_clear() {
    let mut state = FrameState::new(&flat(), 1, 640, 480);
    assert_eq!(state.step(FrameEvent::Redraw), FrameAction::Clear { depth: false });
    assert_eq!(state.step(FrameEvent::CloseRequested), FrameAction::Wait);
    assert!(!state.exited);
    assert_eq!(state.step(FrameEvent::Completed), FrameAction::Draw { mesh: 0 });
    assert_eq!(state.step(FrameEvent::Completed), FrameAction::Present);
    assert_eq!(state.step(FrameEvent::Completed), FrameAction::Wait);
    assert_eq!(state.step(FrameEvent::Redraw), FrameAction::Exit);
    assert!(state.exited);
}

#[test]
fn failed_submission_drops_the_frame_and_the_next_tick_retries() {
    let mut state = FrameState::new(&flat(), 2, 640, 480);
    state.step(FrameEvent::Redraw);
    assert_eq!(state.step(FrameEvent::Completed), FrameAction::Draw { mesh: 0 });
    assert_eq!(state.step(FrameEvent::SubmissionFailed), FrameAction::DropFrame);
    assert_eq!(state.phase, Phase::Idle);
    assert!(!state.pending);
    assert_eq!(state.step(FrameEvent::Redraw), FrameAction::Clear { depth: false });
    assert_eq!(state.step(FrameEvent::Completed), FrameAction::Draw { mesh: 0 });
}

#[test]
fn resize_updates_the_surface_and_keys_are_ignored() {
    let mut state = FrameState::new(&flat(), 1, 640, 480);
    let before = state;
    assert_eq!(state.step(FrameEvent::KeyPress { code: 27 }), FrameAction::Wait);
    assert_eq!(state, before);
    assert_eq!(state.step(FrameEvent::Resize { width: 1024, height: 768 }), FrameAction::Wait);
    assert_eq!((state.width, state.height), (1024, 768));
    assert_eq!(state.phase, Phase::Idle);
}

#[test]
fn events_out_of_turn_change_nothing() {
    let mut state = FrameState::new(&flat(), 1, 640, 480);
    let before = state;
    assert_eq!(state.step(FrameEvent::Completed), FrameAction::Wait);
    assert_eq!(state.step(FrameEvent::SubmissionFailed), FrameAction::Wait);
    assert_eq!(state, before);
    state.step(FrameEvent::Redraw);
    let during = state;
    assert_eq!(state.step(FrameEvent::Redraw), FrameAction::Wait);
    assert_eq!(state, during);
}

#[test]
fn depth_comparison_follows_the_depth_test_flag() {
    assert_eq!(depth_tested().depth_comparison(), DepthComparison::IfLess);
    assert_eq!(flat().depth_comparison(), DepthComparison::Always);
}

#[test]
fn lessons_from_the_depth_tested_mesh_on_clear_depth() {
    let state = FrameState::new(&Lesson::DepthTestedMesh.draw_state(), 1, 1, 1);
    assert!(state.clear_depth);
    let state = FrameState::new(&Lesson::ShadedMesh.draw_state(), 1, 1, 1);
    assert!(!state.clear_depth);
}
