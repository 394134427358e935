use g815_driver::macros::{
    macro_task_step, Action, ActivationType, Macro, MacroSignal, MacroTaskStatus,
};
use g815_driver::media::{MediaState, PlayerStatus};

#[test]
fn from_action_builds_a_single_step_run_once_macro() {
    let built = Macro::from_action(Action::KeyPress("a".to_string()));
    assert_eq!(built.activation_type, ActivationType::Singular);
    assert!(built.theme.is_none());
    assert_eq!(built.steps.len(), 1);
    assert_eq!(built.steps[0].duration, 5);
    assert_eq!(built.steps[0].action, Action::KeyPress("a".to_string()));
}

#[test]
fn execution_count_follows_the_activation_kind() {
    let mut one = Macro::from_action(Action::Delay);
    assert_eq!(one.execution_count(), Some(1));
    one.activation_type = ActivationType::Repeat(4);
    assert_eq!(one.execution_count(), Some(4));
    one.activation_type = ActivationType::HoldToRepeat;
    assert_eq!(one.execution_count(), None);
    one.activation_type = ActivationType::Toggle;
    assert_eq!(one.execution_count(), None);
}

#[test]
fn a_task_stops_on_signal_or_disconnect() {
    assert_eq!(
        macro_task_step(None, Some(MacroSignal::Stop), false, None),
        MacroTaskStatus::Finished
    );
    assert_eq!(macro_task_step(Some(5), None, true, Some(5)), MacroTaskStatus::Finished);
}

#[test]
fn a_reset_restores_the_full_count() {
    assert_eq!(
        macro_task_step(Some(1), Some(MacroSignal::ResetCount), false, Some(4)),
        MacroTaskStatus::Continue(Some(4))
    );
}

#[test]
fn counted_tasks_finish_when_iterations_run_out() {
    assert_eq!(macro_task_step(Some(3), None, false, Some(3)), MacroTaskStatus::Continue(Some(2)));
    assert_eq!(macro_task_step(Some(2), None, false, Some(3)), MacroTaskStatus::Continue(Some(1)));
    assert_eq!(macro_task_step(Some(1), None, false, Some(3)), MacroTaskStatus::Finished);
    assert_eq!(macro_task_step(None, None, false, None), MacroTaskStatus::Continue(None));
}

#[test]
fn player_status_parses_the_three_known_strings() {
    assert_eq!(PlayerStatus::try_from("Playing".to_string()), Ok(PlayerStatus::Playing));
    assert_eq!(PlayerStatus::try_from("Paused".to_string()), Ok(PlayerStatus::Paused));
    assert_eq!(PlayerStatus::try_from("Stopped".to_string()), Ok(PlayerStatus::NoMedia));
}

#[test]
fn player_status_reports_the_unknown_string() {
    assert_eq!(
        PlayerStatus::try_from("Buffering".to_string()),
        Err("Buffering".to_string())
    );
}

#[test]
fn media_state_defaults_to_silent() {
    let state = MediaState::default();
    assert!(!state.muted);
    assert_eq!(state.player_status, PlayerStatus::NoMedia);
}
