use vstd::prelude::*;

verus! {

/// How an incoming fragment's depth is compared with the buffered depth.
#[derive(Clone, Copy, Debug, PartialEq, Eq, Structural)]
pub enum DepthComparison {
    /// Every fragment passes.
    Always,
    /// A fragment passes when its depth is less than the buffered depth.
    IfLess,
}

/// How a fragment's colour is combined with the colour already buffered.
#[derive(Clone, Copy, Debug, PartialEq, Eq, Structural)]
pub enum BlendMode {
    /// The fragment's colour replaces the buffered colour.
    Disabled,
    /// Straight alpha-over compositing.
    AlphaOver,
}

/// Rasterizer configuration for one draw call.
#[derive(Clone, Copy, Debug, PartialEq, Eq, Structural)]
pub struct DrawState {
    pub depth_test_enabled: bool,
    pub depth_write_enabled: bool,
    pub blend_mode: BlendMode,
}

impl DrawState {
    /// The comparison that the rasterizer applies to incoming fragments.
    pub fn depth_comparison(&self) -> (r: DepthComparison)
        ensures
            r == (if self.depth_test_enabled {
                DepthComparison::IfLess
            } else {
                DepthComparison::Always
            }),
    {
        if self.depth_test_enabled {
            DepthComparison::IfLess
        } else {
            DepthComparison::Always
        }
    }
}

/// The stage of the current frame that has been completed.
#[derive(Clone, Copy, Debug, PartialEq, Eq, Structural)]
pub enum Phase {
    Idle,
    Cleared,
    Drawn,
    Presented,
}

/// What the control loop reports to the frame state machine.
#[derive(Clone, Copy, Debug, PartialEq, Eq, Structural)]
pub enum FrameEvent {
    /// The windowing collaborator asks for a new frame.
    Redraw,
    /// The output surface changed size.
    Resize { width: u32, height: u32 },
    /// The window is to close: the loop ends at the top of the next frame.
    CloseRequested,
    /// A key was pressed; the core ignores it.
    KeyPress { code: u32 },
    /// The last action handed out was carried out.
    Completed,
    /// The last action handed out could not be submitted.
    SubmissionFailed,
}

/// The work that the control loop is asked to perform next.
#[derive(Clone, Copy, Debug, PartialEq, Eq, Structural)]
pub enum FrameAction {
    /// Clear the colour buffer, and the depth buffer to far when `depth` holds.
    Clear { depth: bool },
    /// Issue the draw call for the mesh with this index.
    Draw { mesh: usize },
    /// The draw step of a frame with no mesh: nothing to issue.
    DrawNone,
    /// Present the finished frame.
    Present,
    /// Give up the current frame after a failed submission.
    DropFrame,
    /// Nothing to do until the next event.
    Wait,
    /// Leave the control loop.
    Exit,
}

/// The frame state machine: Idle, Cleared, Drawn, Presented, and Idle again
/// on the next tick.
///
/// `pending` holds while an action of the current frame is outstanding, and
/// `drawn` counts the draw calls issued in the current frame.
#[derive(Clone, Copy, Debug, PartialEq, Eq, Structural)]
pub struct FrameState {
    pub phase: Phase,
    pub pending: bool,
    pub drawn: usize,
    pub mesh_count: usize,
    pub clear_depth: bool,
    pub stop_requested: bool,
    pub exited: bool,
    pub width: u32,
    pub height: u32,
}

impl FrameState {
    /// The states that the machine can reach.
    pub open spec fn wf(self) -> bool {
        &&& self.drawn <= self.mesh_count
        &&& self.phase is Cleared ==> self.pending
        &&& self.phase is Drawn ==> self.pending && self.drawn == self.mesh_count
        &&& self.phase is Presented ==> !self.pending
        &&& self.exited ==> !self.pending
    }

    /// Between frames: no action outstanding and the loop not left.
    pub open spec fn between_frames(self) -> bool {
        !self.pending && !self.exited
    }
}

/// The next state and action after `event` in state `s`.
pub open spec fn transition(s: FrameState, event: FrameEvent) -> (FrameState, FrameAction) {
    match event {
        FrameEvent::Resize { width, height } => (
            FrameState { width, height, ..s },
            if s.exited { FrameAction::Exit } else { FrameAction::Wait },
        ),
        FrameEvent::KeyPress { .. } => (
            s,
            if s.exited { FrameAction::Exit } else { FrameAction::Wait },
        ),
        FrameEvent::CloseRequested => if s.exited {
            (s, FrameAction::Exit)
        } else if !s.pending {
            (FrameState { stop_requested: true, exited: true, ..s }, FrameAction::Exit)
        } else {
            (FrameState { stop_requested: true, ..s }, FrameAction::Wait)
        },
        FrameEvent::Redraw => if s.exited {
            (s, FrameAction::Exit)
        } else if s.pending {
            (s, FrameAction::Wait)
        } else if s.stop_requested {
            (FrameState { exited: true, ..s }, FrameAction::Exit)
        } else {
            (
                FrameState { phase: Phase::Idle, pending: true, drawn: 0, ..s },
                FrameAction::Clear { depth: s.clear_depth },
            )
        },
        FrameEvent::Completed => if !s.pending {
            (s, if s.exited { FrameAction::Exit } else { FrameAction::Wait })
        } else {
            match s.phase {
                Phase::Idle => if s.mesh_count == 0 {
                    (FrameState { phase: Phase::Cleared, drawn: 0, ..s }, FrameAction::DrawNone)
                } else {
                    (
                        FrameState { phase: Phase::Cleared, drawn: 1, ..s },
                        FrameAction::Draw { mesh: 0 },
                    )
                },
                Phase::Cleared => if s.drawn < s.mesh_count {
                    (
                        FrameState { drawn: (s.drawn + 1) as usize, ..s },
                        FrameAction::Draw { mesh: s.drawn },
                    )
                } else {
                    (FrameState { phase: Phase::Drawn, ..s }, FrameAction::Present)
                },
                Phase::Drawn => (
                    FrameState { phase: Phase::Presented, pending: false, ..s },
                    FrameAction::Wait,
                ),
                Phase::Presented => (s, FrameAction::Wait),
            }
        },
        FrameEvent::SubmissionFailed => if !s.pending {
            (s, if s.exited { FrameAction::Exit } else { FrameAction::Wait })
        } else {
            (FrameState { phase: Phase::Idle, pending: false, ..s }, FrameAction::DropFrame)
        },
    }
}

/// The phases that `event` passes through in state `s`, in order.
pub open spec fn visited(s: FrameState, event: FrameEvent) -> Seq<Phase> {
    let next = transition(s, event).0;
    if next.phase == s.phase {
        Seq::empty()
    } else {
        seq![next.phase]
    }
}

/// The state reached from `s` after `events` in order, with the actions
/// handed out and the phases passed through.
pub open spec fn run(s: FrameState, events: Seq<FrameEvent>) -> (FrameState, Seq<FrameAction>, Seq<Phase>)
    decreases events.len(),
{
    if events.len() == 0 {
        (s, Seq::empty(), Seq::empty())
    } else {
        let (next, action) = transition(s, events[0]);
        let rest = run(next, events.drop_first());
        (rest.0, seq![action] + rest.1, visited(s, events[0]) + rest.2)
    }
}

/// `count` reports that the last action was carried out.
pub open spec fn completions(count: nat) -> Seq<FrameEvent> {
    Seq::new(count, |i: int| FrameEvent::Completed)
}

/// The draw step of a frame over `mesh_count` meshes: a draw call for each
/// mesh in index order, or the no-op draw step when there is none.
pub open spec fn draw_step(mesh_count: nat) -> Seq<FrameAction> {
    if mesh_count == 0 {
        seq![FrameAction::DrawNone]
    } else {
        draws(0, mesh_count)
    }
}

/// The events of one tick over `mesh_count` meshes: a redraw, then the
/// completion of the clear, of each action of the draw step and of the
/// present.
pub open spec fn tick_events(mesh_count: nat) -> Seq<FrameEvent> {
    seq![FrameEvent::Redraw] + completions(draw_step(mesh_count).len() + 2)
}

/// Draw calls for the meshes `first`, `first + 1`, ..., up to `end` excluded.
pub open spec fn draws(first: nat, end: nat) -> Seq<FrameAction> {
    Seq::new((end - first) as nat, |i: int| FrameAction::Draw { mesh: (first + i) as usize })
}

proof fn lemma_run_first(s: FrameState, events: Seq<FrameEvent>)
    requires
        events.len() > 0,
    ensures
        run(s, events) == ({
            let (next, action) = transition(s, events[0]);
            let rest = run(next, events.drop_first());
            (rest.0, seq![action] + rest.1, visited(s, events[0]) + rest.2)
        }),
{
}

proof fn lemma_draws_complete(c: FrameState)
    requires
        c.wf(),
        c.phase is Cleared,
        !c.exited,
    ensures
        run(c, completions((c.mesh_count - c.drawn + 2) as nat)) == (
            FrameState { phase: Phase::Presented, pending: false, drawn: c.mesh_count, ..c },
            draws(c.drawn as nat, c.mesh_count as nat) + seq![FrameAction::Present, FrameAction::Wait],
            seq![Phase::Drawn, Phase::Presented],
        ),
    decreases c.mesh_count - c.drawn,
{
    let k = (c.mesh_count - c.drawn + 2) as nat;
    let events = completions(k);
    assert(events[0] == FrameEvent::Completed);
    assert(events.drop_first() =~= completions((k - 1) as nat));
    let (next, action) = transition(c, FrameEvent::Completed);
    lemma_run_first(c, events);
    if c.drawn < c.mesh_count {
        lemma_draws_complete(next);
        assert(visited(c, FrameEvent::Completed) =~= Seq::empty());
        assert(draws(c.drawn as nat, c.mesh_count as nat) =~= seq![action] + draws(
            next.drawn as nat,
            c.mesh_count as nat,
        ));
        assert(run(c, events).1 =~= draws(c.drawn as nat, c.mesh_count as nat) + seq![
            FrameAction::Present,
            FrameAction::Wait,
        ]);
        assert(run(c, events).2 =~= seq![Phase::Drawn, Phase::Presented]);
    } else {
        let d = completions((k - 1) as nat);
        assert(d[0] == FrameEvent::Completed);
        assert(d.drop_first() =~= completions((k - 2) as nat));
        assert(completions((k - 2) as nat) =~= Seq::empty());
        lemma_run_first(next, d);
        let (after, last) = transition(next, FrameEvent::Completed);
        assert(run(after, completions((k - 2) as nat)) == (after, Seq::<FrameAction>::empty(), Seq::<Phase>::empty()));
        assert(visited(c, FrameEvent::Completed) =~= seq![Phase::Drawn]);
        assert(visited(next, FrameEvent::Completed) =~= seq![Phase::Presented]);
        assert(draws(c.drawn as nat, c.mesh_count as nat) =~= Seq::empty());
        assert(run(c, events).1 =~= draws(c.drawn as nat, c.mesh_count as nat) + seq![
            FrameAction::Present,
            FrameAction::Wait,
        ]);
        assert(run(c, events).2 =~= seq![Phase::Drawn, Phase::Presented]);
    }
}

/// One tick visits Cleared, Drawn and Presented exactly once each, in that
/// order, whatever the number of meshes, zero included. Starting between
/// frames with no stop requested, a redraw followed by the completion of
/// each action handed out clears (the depth buffer too when depth testing),
/// draws every mesh once in index order (or takes the no-op draw step when
/// there is none), presents, and then waits with nothing outstanding; the
/// next redraw returns to Idle.
pub proof fn lemma_tick_visits_each_phase_once(s: FrameState)
    requires
        s.wf(),
        s.between_frames(),
        !s.stop_requested,
    ensures
        run(s, tick_events(s.mesh_count as nat)) == (
            FrameState { phase: Phase::Presented, pending: false, drawn: s.mesh_count, ..s },
            seq![FrameAction::Clear { depth: s.clear_depth }] + draw_step(s.mesh_count as nat) + seq![
                FrameAction::Present,
                FrameAction::Wait,
            ],
            (if s.phase is Idle { Seq::empty() } else { seq![Phase::Idle] }) + seq![
                Phase::Cleared,
                Phase::Drawn,
                Phase::Presented,
            ],
        ),
        visited(run(s, tick_events(s.mesh_count as nat)).0, FrameEvent::Redraw) == seq![Phase::Idle],
{
    let n = s.mesh_count as nat;
    let events = tick_events(n);
    let k = draw_step(n).len() + 2;
    let (started, clear) = transition(s, FrameEvent::Redraw);
    let ck = completions(k);
    assert(events[0] == FrameEvent::Redraw);
    assert(events.drop_first() =~= ck);
    assert(ck[0] == FrameEvent::Completed);
    lemma_run_first(s, events);
    lemma_run_first(started, ck);
    let (cleared, first) = transition(started, FrameEvent::Completed);
    let head: Seq<Phase> = if s.phase is Idle { Seq::empty() } else { seq![Phase::Idle] };
    assert(visited(s, FrameEvent::Redraw) =~= head);
    assert(visited(started, FrameEvent::Completed) =~= seq![Phase::Cleared]);
    lemma_draws_complete(cleared);
    assert(ck.drop_first() =~= completions((cleared.mesh_count - cleared.drawn + 2) as nat));
    if n == 0 {
        assert(draws(0, n) =~= Seq::empty());
        assert(draw_step(n) =~= seq![first]);
    } else {
        assert(draws(0, n) =~= seq![first] + draws(1, n));
    }
    assert(run(s, events).1 =~= seq![clear] + draw_step(n) + seq![FrameAction::Present, FrameAction::Wait]);
    assert(run(s, events).2 =~= head + seq![Phase::Cleared, Phase::Drawn, Phase::Presented]);
}

/// A failed submission drops the frame without retrying it: nothing is
/// outstanding afterwards, and the next redraw starts a new frame with a
/// clear unless the loop is to stop.
pub proof fn lemma_failed_frame_is_dropped(s: FrameState)
    requires
        s.wf(),
        s.pending,
    ensures
        transition(s, FrameEvent::SubmissionFailed).1 == FrameAction::DropFrame,
        transition(s, FrameEvent::SubmissionFailed).0.phase == Phase::Idle,
        transition(s, FrameEvent::SubmissionFailed).0.between_frames(),
        !s.stop_requested ==> transition(transition(s, FrameEvent::SubmissionFailed).0, FrameEvent::Redraw).1
            == (FrameAction::Clear { depth: s.clear_depth }),
{
}

/// A close request takes effect at the top of a frame: between frames the
/// loop exits at once; during a frame the frame runs on, and the next redraw
/// exits instead of clearing.
pub proof fn lemma_close_exits_before_the_next_clear(s: FrameState)
    requires
        s.wf(),
        !s.exited,
    ensures
        !s.pending ==> transition(s, FrameEvent::CloseRequested) == (
            FrameState { stop_requested: true, exited: true, ..s },
            FrameAction::Exit,
        ),
        s.pending ==> transition(s, FrameEvent::CloseRequested) == (
            FrameState { stop_requested: true, ..s },
            FrameAction::Wait,
        ),
        forall|t: FrameState|
            t.stop_requested && !t.pending ==> (#[trigger] transition(t, FrameEvent::Redraw)).1 == FrameAction::Exit,
{
}

impl FrameState {
    /// A state between frames, before the first tick.
    pub fn new(draw_state: &DrawState, mesh_count: usize, width: u32, height: u32) -> (r: FrameState)
        ensures
            r.wf(),
            r.phase == Phase::Idle,
            !r.pending,
            r.drawn == 0,
            r.mesh_count == mesh_count,
            r.clear_depth == draw_state.depth_test_enabled,
            !r.stop_requested,
            !r.exited,
            r.width == width,
            r.height == height,
    {
        FrameState {
            phase: Phase::Idle,
            pending: false,
            drawn: 0,
            mesh_count,
            clear_depth: draw_state.depth_test_enabled,
            stop_requested: false,
            exited: false,
            width,
            height,
        }
    }

    /// Takes one event and returns the action that the control loop performs next.
    pub fn step(&mut self, event: FrameEvent) -> (r: FrameAction)
        requires
            old(self).wf(),
        ensures
            (*final(self), r) == transition(*old(self), event),
            final(self).wf(),
    {
        let s = *self;
        match event {
            FrameEvent::Resize { width, height } => {
                self.width = width;
                self.height = height;
                if s.exited { FrameAction::Exit } else { FrameAction::Wait }
            },
            FrameEvent::KeyPress { .. } => {
                if s.exited { FrameAction::Exit } else { FrameAction::Wait }
            },
            FrameEvent::CloseRequested => {
                if s.exited {
                    FrameAction::Exit
                } else if !s.pending {
                    self.stop_requested = true;
                    self.exited = true;
                    FrameAction::Exit
                } else {
                    self.stop_requested = true;
                    FrameAction::Wait
                }
            },
            FrameEvent::Redraw => {
                if s.exited {
                    FrameAction::Exit
                } else if s.pending {
                    FrameAction::Wait
                } else if s.stop_requested {
                    self.exited = true;
                    FrameAction::Exit
                } else {
                    self.phase = Phase::Idle;
                    self.pending = true;
                    self.drawn = 0;
                    FrameAction::Clear { depth: s.clear_depth }
                }
            },
            FrameEvent::Completed => {
                if !s.pending {
                    if s.exited { FrameAction::Exit } else { FrameAction::Wait }
                } else {
                    match s.phase {
                        Phase::Idle => {
                            if s.mesh_count == 0 {
                                self.phase = Phase::Cleared;
                                self.drawn = 0;
                                FrameAction::DrawNone
                            } else {
                                self.phase = Phase::Cleared;
                                self.drawn = 1;
                                FrameAction::Draw { mesh: 0 }
                            }
                        },
                        Phase::Cleared => {
                            if s.drawn < s.mesh_count {
                                self.drawn = s.drawn + 1;
                                FrameAction::Draw { mesh: s.drawn }
                            } else {
                                self.phase = Phase::Drawn;
                                FrameAction::Present
                            }
                        },
                        Phase::Drawn => {
                            self.phase = Phase::Presented;
                            self.pending = false;
                            FrameAction::Wait
                        },
                        Phase::Presented => FrameAction::Wait,
                    }
                }
            },
            FrameEvent::SubmissionFailed => {
                if !s.pending {
                    if s.exited { FrameAction::Exit } else { FrameAction::Wait }
                } else {
                    self.phase = Phase::Idle;
                    self.pending = false;
                    FrameAction::DropFrame
                }
            },
        }
    }
}

} // verus!
