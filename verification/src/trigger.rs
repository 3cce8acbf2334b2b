//! Reaction to mouse events in the two run modes.
//!
//! The global input listener hands the program mouse events; these
//! functions decide what each event means. They are pure functions of
//! the event alone, so the decision cannot depend on how many samples
//! were taken before. One-shot mode samples once per left press and
//! exits on a right press. Live mode exits on a right press and
//! otherwise free-runs: it samples, clears the console and samples
//! again without waiting for further clicks.

use vstd::prelude::*;

verus! {

/// A mouse event as the global listener reports it.
#[derive(Clone, Copy, Debug, PartialEq, Eq, Structural)]
pub enum MouseEvent {
    /// The left button was pressed.
    LeftPress,
    /// The right button was pressed.
    RightPress,
    /// Any other input event.
    Other,
}

/// What one-shot mode does with one event.
#[derive(Clone, Copy, Debug, PartialEq, Eq, Structural)]
pub enum TriggerAction {
    /// Sample the pixel beneath the cursor once and print it.
    Sample,
    /// End the process with a success status.
    Exit,
    /// Do nothing and keep listening.
    Ignore,
}

/// What live mode does, over and over, for the event that reached it.
#[derive(Clone, Copy, Debug, PartialEq, Eq, Structural)]
pub enum LiveAction {
    /// Sample, print, clear the console, and go round again.
    SampleAndClear,
    /// End the process with a success status.
    Exit,
}

/// One-shot mode's reaction to an event.
pub open spec fn one_shot_spec(event: MouseEvent) -> TriggerAction {
    match event {
        MouseEvent::LeftPress => TriggerAction::Sample,
        MouseEvent::RightPress => TriggerAction::Exit,
        MouseEvent::Other => TriggerAction::Ignore,
    }
}

/// Live mode's reaction to an event.
pub open spec fn live_spec(event: MouseEvent) -> LiveAction {
    match event {
        MouseEvent::RightPress => LiveAction::Exit,
        _ => LiveAction::SampleAndClear,
    }
}

/// Decides what one-shot mode does with one event: a left press takes
/// one sample, a right press ends the process, anything else is
/// ignored and the listener keeps running.
pub fn one_shot_action(event: &MouseEvent) -> (action: TriggerAction)
    ensures
        action == one_shot_spec(*event),
        action is Exit <==> *event is RightPress,
{
    match event {
        MouseEvent::LeftPress => TriggerAction::Sample,
        MouseEvent::RightPress => TriggerAction::Exit,
        MouseEvent::Other => TriggerAction::Ignore,
    }
}

/// Decides what live mode does with the event that reached it: a right
/// press ends the process, anything else lets the loop free-run,
/// sampling and clearing the console on every pass.
pub fn live_action(event: &MouseEvent) -> (action: LiveAction)
    ensures
        action == live_spec(*event),
        action is Exit <==> *event is RightPress,
{
    match event {
        MouseEvent::RightPress => LiveAction::Exit,
        _ => LiveAction::SampleAndClear,
    }
}

/// Law: in either mode, a right press — and only a right press — ends
/// the process. Both decisions are functions of the one event alone,
/// so no number of earlier samples changes them.
pub proof fn lemma_right_press_exits(event: MouseEvent)
    ensures
        one_shot_spec(event) is Exit <==> event is RightPress,
        live_spec(event) is Exit <==> event is RightPress,
{
}

/// Law: live mode never waits for another click — every event other
/// than a right press keeps it sampling and clearing.
pub proof fn lemma_live_free_runs(event: MouseEvent)
    ensures
        !(event is RightPress) ==> live_spec(event) == LiveAction::SampleAndClear,
{
}

} // verus!
