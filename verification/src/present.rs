//! The present loop as a state machine.
//!
//! The loop waits for one window event at a time. An expose event while idle
//! asks for one render of the scene; a quit request or the escape key ends
//! the loop from any state; every other event changes nothing. The caller
//! owns the window: it performs the action that a step hands back and reports
//! the end of a render with `render_finished`.

use vstd::prelude::*;

verus! {

/// Where the present loop stands.
#[derive(Clone, Copy, Debug, PartialEq, Eq, Structural)]
pub enum State {
    /// Waiting for the next window event.
    Idle,
    /// A render was handed out and has not been reported as finished.
    Rendering,
    /// The loop has ended; nothing more is drawn.
    Terminated,
}

/// A window event, reduced to what the loop distinguishes.
#[derive(Clone, Copy, Debug, PartialEq, Eq, Structural)]
pub enum Event {
    /// The window system asks the program to end.
    Quit,
    /// The escape key went down.
    EscapeKey,
    /// The window's contents must be redrawn.
    Exposed,
    /// Any other event.
    Other,
}

/// What the caller has to do after a step.
#[derive(Clone, Copy, Debug, PartialEq, Eq, Structural)]
pub enum Action {
    /// Nothing: wait for the next event.
    Wait,
    /// Render the scene, swap it to the screen, then call `render_finished`.
    Render,
    /// Leave the loop.
    Exit,
}

/// Whether the event ends the loop.
pub open spec fn ends_loop(event: Event) -> bool {
    event == Event::Quit || event == Event::EscapeKey
}

/// The state after `event` arrives in `state`.
pub open spec fn next_state(state: State, event: Event) -> State {
    if state == State::Terminated || ends_loop(event) {
        State::Terminated
    } else if state == State::Idle && event == Event::Exposed {
        State::Rendering
    } else {
        state
    }
}

/// The action that `event` calls for when it arrives in `state`.
pub open spec fn next_action(state: State, event: Event) -> Action {
    if state == State::Terminated || ends_loop(event) {
        Action::Exit
    } else if state == State::Idle && event == Event::Exposed {
        Action::Render
    } else {
        Action::Wait
    }
}

/// The state after the events of `events` arrived one after another, each
/// render being finished before the next event is taken.
pub open spec fn state_after(state: State, events: Seq<Event>) -> State
    decreases events.len(),
{
    if events.len() == 0 {
        state
    } else {
        settled(next_state(state_after(state, events.drop_last()), events.last()))
    }
}

/// The number of renders handed out while the events of `events` arrived one
/// after another, each render being finished before the next event is taken.
pub open spec fn renders_during(state: State, events: Seq<Event>) -> nat
    decreases events.len(),
{
    if events.len() == 0 {
        0
    } else {
        let before = state_after(state, events.drop_last());
        let earlier = renders_during(state, events.drop_last());
        if next_action(before, events.last()) == Action::Render {
            earlier + 1
        } else {
            earlier
        }
    }
}

/// The state once a render that may be under way has finished.
pub open spec fn settled(state: State) -> State {
    if state == State::Rendering {
        State::Idle
    } else {
        state
    }
}

impl State {
    /// The state in which the loop starts.
    pub fn initial() -> (state: State)
        ensures
            state == State::Idle,
    {
        State::Idle
    }

    /// Whether the loop has ended.
    pub fn is_terminated(&self) -> (ended: bool)
        ensures
            ended == (*self == State::Terminated),
    {
        match self {
            State::Terminated => true,
            _ => false,
        }
    }

    /// Takes one event: the state that follows and what the caller must do.
    pub fn step(self, event: Event) -> (out: (State, Action))
        ensures
            out.0 == next_state(self, event),
            out.1 == next_action(self, event),
            (out.1 == Action::Render) == (out.0 == State::Rendering && self == State::Idle),
            (out.1 == Action::Exit) == (out.0 == State::Terminated),
    {
        match (self, event) {
            (State::Terminated, _) => (State::Terminated, Action::Exit),
            (_, Event::Quit) => (State::Terminated, Action::Exit),
            (_, Event::EscapeKey) => (State::Terminated, Action::Exit),
            (State::Idle, Event::Exposed) => (State::Rendering, Action::Render),
            (state, _) => (state, Action::Wait),
        }
    }

    /// Reports that the render handed out by the last step is on screen.
    pub fn render_finished(self) -> (state: State)
        ensures
            state == settled(self),
    {
        match self {
            State::Rendering => State::Idle,
            state => state,
        }
    }
}

/// Runs the loop over a recorded sequence of events, starting idle and
/// finishing each render at once. Returns the final state and the number of
/// renders that were handed out.
pub fn replay(events: &Vec<Event>) -> (out: (State, usize))
    ensures
        out.0 == state_after(State::Idle, events@),
        out.1 == renders_during(State::Idle, events@),
{
    let mut state = State::Idle;
    let mut renders: usize = 0;
    let mut i: usize = 0;
    while i < events.len()
        invariant
            i <= events.len(),
            renders <= i,
            state == state_after(State::Idle, events@.take(i as int)),
            renders == renders_during(State::Idle, events@.take(i as int)),
        decreases events.len() - i,
    {
        proof {
            assert(events@.take(i + 1).drop_last() =~= events@.take(i as int));
        }
        let (next, action) = state.step(events[i]);
        match action {
            Action::Render => {
                renders = renders + 1;
            },
            _ => {},
        }
        state = next.render_finished();
        i = i + 1;
    }
    proof {
        assert(events@.take(i as int) =~= events@);
    }
    (state, renders)
}

/// A quit request or the escape key that arrives while the loop is idle ends
/// it in that very step, and the step hands out no render.
pub proof fn quit_while_idle_terminates(event: Event)
    requires
        ends_loop(event),
    ensures
        next_state(State::Idle, event) == State::Terminated,
        next_action(State::Idle, event) == Action::Exit,
        next_action(State::Idle, event) != Action::Render,
{
}

/// Whatever events came before, a quit request or the escape key leaves the
/// loop ended and adds no render to those handed out before it.
pub proof fn quit_after_any_history(events: Seq<Event>, event: Event)
    requires
        ends_loop(event),
    ensures
        state_after(State::Idle, events.push(event)) == State::Terminated,
        renders_during(State::Idle, events.push(event)) == renders_during(State::Idle, events),
{
    assert(events.push(event).drop_last() =~= events);
}

/// A quit request or the escape key ends the loop from every state.
pub proof fn quit_terminates_everywhere(state: State, event: Event)
    requires
        ends_loop(event),
    ensures
        next_state(state, event) == State::Terminated,
        next_action(state, event) == Action::Exit,
{
}

/// Once the loop has ended no event revives it and no render is handed out.
pub proof fn terminated_is_final(events: Seq<Event>)
    ensures
        state_after(State::Terminated, events) == State::Terminated,
        renders_during(State::Terminated, events) == 0,
    decreases events.len(),
{
    if events.len() > 0 {
        terminated_is_final(events.drop_last());
    }
}

/// An event that neither ends the loop nor exposes the window changes
/// nothing, and an expose event changes nothing unless the loop is idle.
pub proof fn other_events_are_ignored(state: State, event: Event)
    requires
        !ends_loop(event),
        event != Event::Exposed || state != State::Idle,
    ensures
        next_state(state, event) == state,
        next_action(state, event) != Action::Render,
{
}

/// A recorded run hands out exactly one render for each expose event that
/// arrives before the first event that ends the loop.
pub proof fn renders_count_exposures(events: Seq<Event>)
    ensures
        renders_during(State::Idle, events) == exposures_before_end(events),
        state_after(State::Idle, events) == (if has_ending(events) {
            State::Terminated
        } else {
            State::Idle
        }),
    decreases events.len(),
{
    if events.len() > 0 {
        renders_count_exposures(events.drop_last());
    }
}

/// Whether some event of `events` ends the loop.
pub open spec fn has_ending(events: Seq<Event>) -> bool
    decreases events.len(),
{
    events.len() > 0 && (has_ending(events.drop_last()) || ends_loop(events.last()))
}

/// The number of expose events of `events` that come before the first event
/// that ends the loop.
pub open spec fn exposures_before_end(events: Seq<Event>) -> nat
    decreases events.len(),
{
    if events.len() == 0 {
        0
    } else {
        let earlier = exposures_before_end(events.drop_last());
        if !has_ending(events.drop_last()) && events.last() == Event::Exposed {
            earlier + 1
        } else {
            earlier
        }
    }
}

} // verus!
