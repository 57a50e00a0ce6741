//! The render/input loop's decisions: which polled event quits, and how
//! many frames a run draws.
//!
//! Each iteration draws one frame and then polls once. A poll yields either
//! a decoded key press, some other event, or nothing (a timeout); the loop
//! stops exactly when a `q` key press is observed.

use vstd::prelude::*;

verus! {

/// One poll's outcome, decoded to what the loop's decision depends on.
#[derive(Clone, Copy, PartialEq, Eq, Structural, Debug)]
pub enum InputEvent {
    /// A key was pressed and decoded to this character.
    KeyPress(char),
    /// Any other event: a release or repeat, a resize, a mouse event.
    Other,
}

/// The loop's two states.
#[derive(Clone, Copy, PartialEq, Eq, Structural, Debug)]
pub enum LoopState {
    Running,
    Stopped,
}

/// The polled outcome that quits: a pressed `q` key. `None` is a timeout.
pub open spec fn is_quit_event(ev: Option<InputEvent>) -> bool {
    ev matches Some(InputEvent::KeyPress(c)) && c == 'q'
}

/// Decide whether one polled outcome ends the loop.
pub fn handle_event(ev: Option<InputEvent>) -> (quit: bool)
    ensures
        quit == is_quit_event(ev),
{
    match ev {
        Some(InputEvent::KeyPress(c)) => c == 'q',
        _ => false,
    }
}

/// The state after one iteration: once stopped the loop stays stopped, and
/// a running loop stops exactly on a quit event.
pub open spec fn spec_step(state: LoopState, ev: Option<InputEvent>) -> LoopState {
    match state {
        LoopState::Stopped => LoopState::Stopped,
        LoopState::Running => if is_quit_event(ev) {
            LoopState::Stopped
        } else {
            LoopState::Running
        },
    }
}

/// Advance the loop's state by one polled outcome.
pub fn step(state: LoopState, ev: Option<InputEvent>) -> (next: LoopState)
    ensures
        next == spec_step(state, ev),
{
    match state {
        LoopState::Stopped => LoopState::Stopped,
        LoopState::Running => {
            if handle_event(ev) {
                LoopState::Stopped
            } else {
                LoopState::Running
            }
        },
    }
}

/// The position of the first quit event in the stream: the number of
/// outcomes processed before the loop's terminating iteration.
pub open spec fn first_quit(evs: Seq<Option<InputEvent>>) -> int
    decreases evs.len(),
{
    if evs.len() == 0 {
        0
    } else if is_quit_event(evs[0]) {
        0
    } else {
        1 + first_quit(evs.drop_first())
    }
}

/// Some outcome in the stream quits.
pub open spec fn has_quit(evs: Seq<Option<InputEvent>>) -> bool {
    exists|k: int| 0 <= k < evs.len() && is_quit_event(evs[k])
}

/// If position `i` quits and no earlier position does, the first quit is at
/// `i`.
proof fn lemma_first_quit_at(evs: Seq<Option<InputEvent>>, i: int)
    requires
        0 <= i < evs.len(),
        is_quit_event(evs[i]),
        forall|k: int| 0 <= k < i ==> !is_quit_event(evs[k]),
    ensures
        first_quit(evs) == i,
    decreases i,
{
    if i > 0 {
        lemma_first_quit_at(evs.drop_first(), i - 1);
    }
}

/// Run the loop against a fixed stream of polled outcomes: draw one frame,
/// take the next outcome, stop on a quit. The loop draws once per iteration
/// up to and including the terminating one, so a stream whose first quit is
/// at position `n` yields exactly `n + 1` draws and leaves the rest of the
/// stream unprocessed.
pub fn run_loop(events: &Vec<Option<InputEvent>>) -> (draws: usize)
    requires
        has_quit(events@),
    ensures
        draws == first_quit(events@) + 1,
{
    let mut draws: usize = 0;
    let mut i: usize = 0;
    while i < events.len()
        invariant
            has_quit(events@),
            i <= events@.len(),
            draws == i,
            forall|k: int| 0 <= k < i ==> !is_quit_event(events@[k]),
        decreases events@.len() - i,
    {
        draws = draws + 1;
        if handle_event(events[i]) {
            proof {
                lemma_first_quit_at(events@, i as int);
            }
            return draws;
        }
        i = i + 1;
    }
    proof {
        let k = choose|k: int| 0 <= k < events@.len() && is_quit_event(events@[k]);
        assert(!is_quit_event(events@[k]));
    }
    draws
}

} // verus!
