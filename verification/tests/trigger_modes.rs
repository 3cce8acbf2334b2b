use pixel_sampler::trigger::{
    live_action, one_shot_action, LiveAction, MouseEvent, TriggerAction,
};

#[test]
fn right_press_exits_one_shot_mode() {
    assert_eq!(
        one_shot_action(&MouseEvent::RightPress),
        TriggerAction::Exit
    );
}

#[test]
fn right_press_exits_live_mode() {
    assert_eq!(live_action(&MouseEvent::RightPress), LiveAction::Exit);
}

#[test]
fn right_press_exits_after_many_samples() {
    // The decision is a pure function of the event: however many left
    // presses were handled before, a right press still exits.
    for _ in 0..100 {
        assert_eq!(one_shot_action(&MouseEvent::LeftPress), TriggerAction::Sample);
    }
    assert_eq!(
        one_shot_action(&MouseEvent::RightPress),
        TriggerAction::Exit
    );
}

#[test]
fn left_press_samples_once_in_one_shot_mode() {
    assert_eq!(one_shot_action(&MouseEvent::LeftPress), TriggerAction::Sample);
}

#[test]
fn other_events_are_ignored_in_one_shot_mode() {
    assert_eq!(one_shot_action(&MouseEvent::Other), TriggerAction::Ignore);
}

#[test]
fn live_mode_free_runs_without_further_clicks() {
    assert_eq!(
        live_action(&MouseEvent::LeftPress),
        LiveAction::SampleAndClear
    );
    assert_eq!(live_action(&MouseEvent::Other), LiveAction::SampleAndClear);
}
