//! The render loop's state machine and per-frame plan.
//!
//! The loop has two states, `Running` and `Closing`, and the only transition
//! is from `Running` to `Closing`; nothing ever reopens a closing loop. Each
//! iteration the application drains the window's pending events, hands them in
//! as plain [`Event`] values, performs the [`Effect`]s handed back (the only
//! one is a viewport update), and then renders one frame following
//! [`frame_steps`]. The application owns the floating-point parts of a frame —
//! the background color and the time-based green channel — and performs them
//! when it reaches the corresponding step.

use vstd::prelude::*;

verus! {

/// Initial window width in pixels.
pub const SCREEN_WIDTH: u32 = 800;

/// Initial window height in pixels.
pub const SCREEN_HEIGHT: u32 = 600;

/// The keys the loop distinguishes: escape closes it, every other key is
/// ignored.
#[derive(Clone, Copy, PartialEq, Eq, Structural, Debug)]
pub enum Key {
    Escape,
    Other,
}

/// What happened to a key.
#[derive(Clone, Copy, PartialEq, Eq, Structural, Debug)]
pub enum KeyAction {
    Press,
    Release,
    Repeat,
}

/// One structured notification from the windowing collaborator.
#[derive(Clone, Copy, PartialEq, Eq, Structural, Debug)]
pub enum Event {
    /// The framebuffer is now `width` by `height` pixels.
    FramebufferResize { width: i32, height: i32 },
    /// A key changed state.
    Key { key: Key, action: KeyAction },
    /// Any notification the loop does not react to.
    Other,
}

/// An action the loop asks the application to perform on the GPU.
#[derive(Clone, Copy, PartialEq, Eq, Structural, Debug)]
pub enum Effect {
    /// Set the viewport to the rectangle with corner (`x`, `y`) and the given
    /// size.
    SetViewport { x: i32, y: i32, width: i32, height: i32 },
}

/// Whether the render loop keeps iterating.
#[derive(Clone, Copy, PartialEq, Eq, Structural, Debug)]
pub enum LoopState {
    Running,
    Closing,
}

/// The events that request the loop to close: pressing escape.
pub open spec fn spec_is_close_request(e: Event) -> bool {
    e == (Event::Key { key: Key::Escape, action: KeyAction::Press })
}

/// The loop's next state after one event: a close request moves it to
/// `Closing`, nothing else changes the state, and `Closing` is final.
pub open spec fn spec_next_state(s: LoopState, e: Event) -> LoopState {
    if s is Closing || spec_is_close_request(e) {
        LoopState::Closing
    } else {
        LoopState::Running
    }
}

/// The GPU action one event asks for: a resize asks for the viewport to be
/// set to exactly its new size, anchored at the origin; no other event asks
/// for anything.
pub open spec fn spec_event_effect(e: Event) -> Option<Effect> {
    match e {
        Event::FramebufferResize { width, height } => Some(
            Effect::SetViewport { x: 0, y: 0, width, height },
        ),
        _ => None,
    }
}

/// The loop's state after a whole batch of events, in order.
pub open spec fn spec_state_after(s: LoopState, events: Seq<Event>) -> LoopState
    decreases events.len(),
{
    if events.len() == 0 {
        s
    } else {
        spec_state_after(spec_next_state(s, events[0]), events.skip(1))
    }
}

/// The GPU actions a whole batch of events asks for, in order.
pub open spec fn spec_effects_of(events: Seq<Event>) -> Seq<Effect>
    decreases events.len(),
{
    if events.len() == 0 {
        Seq::empty()
    } else {
        match spec_event_effect(events[0]) {
            Some(eff) => seq![eff] + spec_effects_of(events.skip(1)),
            None => spec_effects_of(events.skip(1)),
        }
    }
}

/// The render loop's only mutable state: whether it keeps iterating.
#[derive(Clone, Copy, PartialEq, Eq, Structural, Debug)]
pub struct FrameLoop {
    pub state: LoopState,
}

impl FrameLoop {
    /// A fresh loop, running.
    pub fn new() -> (r: FrameLoop)
        ensures
            r.state is Running,
    {
        FrameLoop { state: LoopState::Running }
    }

    /// Whether the loop should iterate once more.
    pub fn is_running(&self) -> (r: bool)
        ensures
            r == (self.state is Running),
    {
        match self.state {
            LoopState::Running => true,
            LoopState::Closing => false,
        }
    }

    /// An external close request (for example the window's own close button):
    /// moves the loop to `Closing` unconditionally.
    pub fn request_close(&mut self)
        ensures
            final(self).state is Closing,
    {
        self.state = LoopState::Closing;
    }

    /// React to one event: the state advances by [`spec_next_state`] and the
    /// returned action is exactly [`spec_event_effect`]. In particular a
    /// resize to `width` by `height` hands back a viewport update to exactly
    /// (0, 0, `width`, `height`), and an escape press closes the loop.
    pub fn handle_event(&mut self, e: Event) -> (r: Option<Effect>)
        ensures
            final(self).state == spec_next_state(old(self).state, e),
            r == spec_event_effect(e),
    {
        match e {
            Event::FramebufferResize { width, height } => Some(
                Effect::SetViewport { x: 0, y: 0, width, height },
            ),
            Event::Key { key: Key::Escape, action: KeyAction::Press } => {
                self.state = LoopState::Closing;
                None
            },
            _ => None,
        }
    }

    /// Drain one batch of pending events: the state advances over the whole
    /// batch and the returned actions are exactly those the batch asks for,
    /// in order.
    pub fn process_events(&mut self, events: &Vec<Event>) -> (r: Vec<Effect>)
        ensures
            final(self).state == spec_state_after(old(self).state, events@),
            r@ == spec_effects_of(events@),
    {
        let ghost start = self.state;
        let mut effects: Vec<Effect> = Vec::new();
        let mut i: usize = 0;
        while i < events.len()
            invariant
                i <= events.len(),
                self.state == spec_state_after(start, events@.take(i as int)),
                effects@ == spec_effects_of(events@.take(i as int)),
            decreases events.len() - i,
        {
            let e = events[i];
            proof {
                assert(events@.take(i + 1) =~= events@.take(i as int).push(e));
                lemma_state_after_snoc(start, events@.take(i as int), e);
                lemma_effects_of_snoc(events@.take(i as int), e);
            }
            match self.handle_event(e) {
                Some(eff) => effects.push(eff),
                None => (),
            }
            i = i + 1;
        }
        proof {
            assert(events@.take(events@.len() as int) =~= events@);
        }
        effects
    }
}

/// Appending one event to a batch advances the state of the batch by that
/// event.
proof fn lemma_state_after_snoc(s: LoopState, events: Seq<Event>, e: Event)
    ensures
        spec_state_after(s, events.push(e)) == spec_next_state(spec_state_after(s, events), e),
    decreases events.len(),
{
    let p = events.push(e);
    if events.len() == 0 {
        assert(p[0] == e);
        assert(p.skip(1) =~= Seq::<Event>::empty());
        assert(spec_state_after(s, p) == spec_state_after(spec_next_state(s, e), p.skip(1)));
        assert(spec_state_after(spec_next_state(s, e), p.skip(1)) == spec_next_state(s, e));
        assert(spec_state_after(s, events) == s);
    } else {
        assert(p[0] == events[0]);
        assert(p.skip(1) =~= events.skip(1).push(e));
        lemma_state_after_snoc(spec_next_state(s, events[0]), events.skip(1), e);
        assert(spec_state_after(s, p) == spec_state_after(
            spec_next_state(s, events[0]),
            p.skip(1),
        ));
        assert(spec_state_after(s, events) == spec_state_after(
            spec_next_state(s, events[0]),
            events.skip(1),
        ));
    }
}

/// Appending one event to a batch appends that event's action, if any, to the
/// actions of the batch.
proof fn lemma_effects_of_snoc(events: Seq<Event>, e: Event)
    ensures
        spec_effects_of(events.push(e)) == match spec_event_effect(e) {
            Some(eff) => spec_effects_of(events).push(eff),
            None => spec_effects_of(events),
        },
    decreases events.len(),
{
    let p = events.push(e);
    if events.len() == 0 {
        assert(p[0] == e);
        assert(p.skip(1) =~= Seq::<Event>::empty());
        assert(spec_effects_of(p.skip(1)) == Seq::<Effect>::empty());
        assert(spec_effects_of(events) == Seq::<Effect>::empty());
        match spec_event_effect(e) {
            Some(eff) => {
                assert(spec_effects_of(p) == seq![eff] + spec_effects_of(p.skip(1)));
                assert(spec_effects_of(p) =~= spec_effects_of(events).push(eff));
            },
            None => {
                assert(spec_effects_of(p) == spec_effects_of(p.skip(1)));
            },
        }
    } else {
        assert(p[0] == events[0]);
        assert(p.skip(1) =~= events.skip(1).push(e));
        lemma_effects_of_snoc(events.skip(1), e);
        match spec_event_effect(events[0]) {
            Some(eff0) => {
                assert(spec_effects_of(p) == seq![eff0] + spec_effects_of(p.skip(1)));
                assert(spec_effects_of(events) == seq![eff0] + spec_effects_of(events.skip(1)));
                match spec_event_effect(e) {
                    Some(eff) => {
                        assert(spec_effects_of(p) =~= spec_effects_of(events).push(eff));
                    },
                    None => (),
                }
            },
            None => {
                assert(spec_effects_of(p) == spec_effects_of(p.skip(1)));
                assert(spec_effects_of(events) == spec_effects_of(events.skip(1)));
            },
        }
    }
}

/// One step of rendering a single frame, in the order the application must
/// perform them. The program must be active before the uniform is uploaded.
#[derive(Clone, Copy, PartialEq, Eq, Structural, Debug)]
pub enum FrameStep {
    /// Clear the color buffer to the fixed background color.
    ClearBackground,
    /// Activate the linked shader program.
    UseProgram,
    /// Bind the vertex array object that describes the triangle's geometry.
    BindVertexArray,
    /// Read the elapsed time, compute the tint from it, look the tint uniform
    /// up by name on the active program, and upload it. An upload to location
    /// -1 (name not found or optimized out) is silently ignored.
    UploadTimeUniform,
    /// Draw `count` vertices as triangles, starting at vertex `first`.
    DrawTriangles { first: i32, count: i32 },
}

/// The steps of one frame that draws `vertex_count` vertices.
pub open spec fn spec_frame_steps(vertex_count: i32) -> Seq<FrameStep> {
    seq![
        FrameStep::ClearBackground,
        FrameStep::UseProgram,
        FrameStep::BindVertexArray,
        FrameStep::UploadTimeUniform,
        FrameStep::DrawTriangles { first: 0, count: vertex_count },
    ]
}

/// The name under which the fragment shader exposes the animated tint.
pub fn tint_uniform_name() -> (r: &'static str)
    ensures
        r@ == "ourColor"@,
{
    "ourColor"
}

/// The steps of one frame: clear, activate the program, bind the geometry,
/// upload the time-based tint, then draw `vertex_count` vertices as triangles
/// from the start of the buffer.
pub fn frame_steps(vertex_count: i32) -> (r: Vec<FrameStep>)
    ensures
        r@ == spec_frame_steps(vertex_count),
{
    let mut steps: Vec<FrameStep> = Vec::new();
    steps.push(FrameStep::ClearBackground);
    steps.push(FrameStep::UseProgram);
    steps.push(FrameStep::BindVertexArray);
    steps.push(FrameStep::UploadTimeUniform);
    steps.push(FrameStep::DrawTriangles { first: 0, count: vertex_count });
    proof {
        assert(steps@ =~= spec_frame_steps(vertex_count));
    }
    steps
}

/// Law: once the loop is closing, no batch of events, of any length, brings
/// it back to running.
pub proof fn lemma_closing_is_final(events: Seq<Event>)
    ensures
        spec_state_after(LoopState::Closing, events) == LoopState::Closing,
    decreases events.len(),
{
    if events.len() > 0 {
        lemma_closing_is_final(events.skip(1));
    }
}

/// Law: a batch of events leaves the loop closing exactly when it was already
/// closing or some event in the batch is an escape press.
pub proof fn lemma_close_iff_escape(s: LoopState, events: Seq<Event>)
    ensures
        spec_state_after(s, events) is Closing <==> (s is Closing || exists|i: int|
            0 <= i < events.len() && spec_is_close_request(events[i])),
    decreases events.len(),
{
    if events.len() == 0 {
    } else {
        let s1 = spec_next_state(s, events[0]);
        lemma_close_iff_escape(s1, events.skip(1));
        if s1 is Closing && !(s is Closing) {
            assert(spec_is_close_request(events[0]));
        }
        if exists|j: int| 0 <= j < events.skip(1).len() && spec_is_close_request(
            events.skip(1)[j],
        ) {
            let j = choose|j: int|
                0 <= j < events.skip(1).len() && spec_is_close_request(events.skip(1)[j]);
            assert(events.skip(1)[j] == events[j + 1]);
            assert(spec_is_close_request(events[j + 1]));
        }
        if exists|i: int| 0 <= i < events.len() && spec_is_close_request(events[i]) {
            let i = choose|i: int| 0 <= i < events.len() && spec_is_close_request(events[i]);
            if i == 0 {
                assert(s1 is Closing);
            } else {
                assert(events.skip(1)[i - 1] == events[i]);
                assert(exists|j: int|
                    0 <= j < events.skip(1).len() && spec_is_close_request(events.skip(1)[j]));
            }
        }
    }
}

} // verus!
