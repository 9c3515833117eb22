//! What each event of the render loop has to do.
//!
//! The loop itself, the window and the device are the caller's. For every
//! event the caller asks [`FrameState::handle`], which advances the frame
//! counter and the pause switch and answers with a [`FramePlan`]: whether to
//! draw, whether to rebuild or rearrange geometry afterwards, whether to
//! adopt a new window size.

use vstd::prelude::*;
use crate::mesh::MeshSize;
use vstd::arithmetic::div_mod::{lemma_fundamental_div_mod, lemma_fundamental_div_mod_converse};

verus! {

/// What is drawn and how often it changes. A period of 0 switches the
/// change off.
#[derive(Clone, Copy, Debug, PartialEq, Eq)]
pub struct Policy {
    /// The size of the mesh.
    pub mesh: MeshSize,
    /// Rebuild the vertex list on every frame whose number is a multiple of
    /// this.
    pub regenerate_every: u64,
    /// Rearrange the line list on every frame whose number is a multiple of
    /// this.
    pub shuffle_every: u64,
}

/// An event of the render loop, as far as the core cares.
#[derive(Clone, Copy, Debug, PartialEq, Eq, Structural)]
pub enum FrameEvent {
    /// A frame is to be drawn.
    Render,
    /// The window has a new size, in pixels.
    Resize { width: u32, height: u32 },
    /// The pause key was pressed.
    PauseKey,
    /// Anything else.
    Other,
}

/// What the caller has to do for one event.
#[derive(Clone, Copy, Debug, PartialEq, Eq)]
pub struct FramePlan {
    /// Clear the frame and issue the draw passes, in the order of
    /// `draw_order`.
    pub draw: bool,
    /// After drawing: build a fresh vertex list and hand it to its
    /// synchronizer.
    pub regenerate: bool,
    /// After drawing: rearrange the line list and flush it.
    pub shuffle: bool,
    /// Recompute the projection for this window size.
    pub resize_to: Option<(u32, u32)>,
}

/// The state that lives from one event to the next.
#[derive(Clone, Copy, Debug, PartialEq, Eq, Structural)]
pub struct FrameState {
    /// The number of frames drawn so far.
    pub frame_count: u64,
    /// While set, frames are drawn but geometry does not change.
    pub paused: bool,
}

/// One of the two batches that share the vertex list.
#[derive(Clone, Copy, Debug, PartialEq, Eq, Structural)]
pub enum Batch {
    /// The line list, drawn as separate segments.
    Lines,
    /// The triangle list, drawn as filled faces.
    Triangles,
}

/// Whether a change with period `every` falls on frame number `frame`.
pub open spec fn is_due(frame: nat, every: nat) -> bool {
    every != 0 && frame % every == 0
}

/// The plan that changes nothing.
pub open spec fn idle_plan() -> FramePlan {
    FramePlan { draw: false, regenerate: false, shuffle: false, resize_to: None }
}

impl Batch {
    /// The opacity of the batch, in per cent.
    pub open spec fn opacity_percent_spec(self) -> u8 {
        match self {
            Batch::Lines => 100,
            Batch::Triangles => 30,
        }
    }

    /// The opacity of the batch, in per cent: lines are opaque, faces let
    /// most of the light through.
    #[verifier::when_used_as_spec(opacity_percent_spec)]
    pub fn opacity_percent(self) -> (percent: u8)
        ensures
            percent == self.opacity_percent_spec(),
    {
        match self {
            Batch::Lines => 100,
            Batch::Triangles => 30,
        }
    }
}

/// The draw passes of one frame, in order: the lines, then the faces.
pub fn draw_order() -> (order: [Batch; 2])
    ensures
        order@ == seq![Batch::Lines, Batch::Triangles],
{
    let order = [Batch::Lines, Batch::Triangles];
    assert(order@ =~= seq![Batch::Lines, Batch::Triangles]);
    order
}

impl Policy {
    /// Whether to rebuild the vertex list after frame number `frame`.
    pub open spec fn regenerates_at(self, frame: nat) -> bool {
        is_due(frame, self.regenerate_every as nat)
    }

    /// Whether to rearrange the line list after frame number `frame`.
    pub open spec fn shuffles_at(self, frame: nat) -> bool {
        is_due(frame, self.shuffle_every as nat)
    }
}

impl FrameState {
    /// The state after `event`.
    pub open spec fn after(self, event: FrameEvent) -> FrameState {
        match event {
            FrameEvent::Render => FrameState {
                frame_count: (self.frame_count + 1) as u64,
                paused: self.paused,
            },
            FrameEvent::PauseKey => FrameState {
                frame_count: self.frame_count,
                paused: !self.paused,
            },
            _ => self,
        }
    }

    /// The plan for `event`. A frame is drawn whether paused or not; geometry
    /// changes only while running, and by the number that the frame has
    /// once it is counted.
    pub open spec fn plan(self, policy: Policy, event: FrameEvent) -> FramePlan {
        match event {
            FrameEvent::Render => FramePlan {
                draw: true,
                regenerate: !self.paused && policy.regenerates_at((self.frame_count + 1) as nat),
                shuffle: !self.paused && policy.shuffles_at((self.frame_count + 1) as nat),
                resize_to: None,
            },
            FrameEvent::Resize { width, height } => FramePlan {
                draw: false,
                regenerate: false,
                shuffle: false,
                resize_to: Some((width, height)),
            },
            _ => idle_plan(),
        }
    }

    /// The state before the first frame.
    pub fn new(paused: bool) -> (state: FrameState)
        ensures
            state == (FrameState { frame_count: 0, paused }),
    {
        FrameState { frame_count: 0, paused }
    }

    /// Takes one event: moves to `old(self).after(event)` and returns
    /// `old(self).plan(policy, event)`.
    ///
    /// The frame counter does not wrap: a render event needs room for one
    /// more frame.
    pub fn handle(&mut self, policy: &Policy, event: FrameEvent) -> (plan: FramePlan)
        requires
            event == FrameEvent::Render ==> old(self).frame_count < u64::MAX,
        ensures
            *final(self) == old(self).after(event),
            plan == old(self).plan(*policy, event),
    {
        match event {
            FrameEvent::Render => {
                self.frame_count = self.frame_count + 1;
                let running = !self.paused;
                FramePlan {
                    draw: true,
                    regenerate: running && falls_on(self.frame_count, policy.regenerate_every),
                    shuffle: running && falls_on(self.frame_count, policy.shuffle_every),
                    resize_to: None,
                }
            },
            FrameEvent::Resize { width, height } => FramePlan {
                draw: false,
                regenerate: false,
                shuffle: false,
                resize_to: Some((width, height)),
            },
            FrameEvent::PauseKey => {
                self.paused = !self.paused;
                FramePlan { draw: false, regenerate: false, shuffle: false, resize_to: None }
            },
            FrameEvent::Other => FramePlan {
                draw: false,
                regenerate: false,
                shuffle: false,
                resize_to: None,
            },
        }
    }
}

/// Whether a change with period `every` falls on frame number `frame`.
fn falls_on(frame: u64, every: u64) -> (due: bool)
    ensures
        due == is_due(frame as nat, every as nat),
{
    every != 0 && frame % every == 0
}

/// While paused, nothing but the frame counter moves: every render event is
/// drawn, and none asks for new or rearranged geometry.
pub proof fn lemma_paused_only_draws(state: FrameState, policy: Policy)
    requires
        state.paused,
    ensures
        state.plan(policy, FrameEvent::Render) == (FramePlan {
            draw: true,
            regenerate: false,
            shuffle: false,
            resize_to: None,
        }),
        state.after(FrameEvent::Render).paused,
{
}

/// The pause key is a switch: pressed twice, it leaves the state as it was.
pub proof fn lemma_pause_key_twice(state: FrameState)
    ensures
        state.after(FrameEvent::PauseKey).after(FrameEvent::PauseKey) == state,
        state.after(FrameEvent::PauseKey).paused != state.paused,
{
}

/// Only render events count frames, and only the pause key moves the switch:
/// resizing and other input leave the state alone and ask for no drawing.
pub proof fn lemma_other_events_keep_state(state: FrameState, policy: Policy, event: FrameEvent)
    requires
        event != FrameEvent::Render,
    ensures
        state.after(event).frame_count == state.frame_count,
        event != FrameEvent::PauseKey ==> state.after(event) == state,
        !state.plan(policy, event).draw,
        !state.plan(policy, event).regenerate,
        !state.plan(policy, event).shuffle,
{
}

/// While running, geometry is rebuilt once in every period: between one
/// rebuilding frame and the next lie exactly `regenerate_every` frames.
pub proof fn lemma_regeneration_is_periodic(policy: Policy, frame: nat, gap: nat)
    requires
        policy.regenerates_at(frame),
        0 < gap < policy.regenerate_every,
    ensures
        !policy.regenerates_at(frame + gap),
        policy.regenerates_at(frame + policy.regenerate_every as nat),
{
    let r = policy.regenerate_every as int;
    let f = frame as int;
    let g = gap as int;
    let q = f / r;
    lemma_fundamental_div_mod(f, r);
    assert(f == q * r) by (nonlinear_arith)
        requires
            f == r * q + 0,
    ;
    lemma_fundamental_div_mod_converse(f + g, r, q, g);
    assert(f + r == (q + 1) * r + 0) by (nonlinear_arith)
        requires
            f == q * r,
    ;
    lemma_fundamental_div_mod_converse(f + r, r, q + 1, 0);
}

} // verus!
