use prompt_mixer::error::{ErrorKind, MixError};
use prompt_mixer::session::{
    begin_update_weights, cancel_session, finish_update_weights, set_speed, toggle_pause,
    MixingSession, SessionState,
};

fn started(prompt: &str) -> SessionState {
    let mut state = SessionState::new();
    let id = state.install(MixingSession::new(prompt.to_string()));
    assert_eq!(id, 1);
    state
}

#[test]
fn new_slot_is_empty() {
    let state = SessionState::new();
    assert!(state.session().is_none());
    assert_eq!(state.generation(), 0);
    assert!(state.has_room());
    let by_default = SessionState::default();
    assert!(by_default.session().is_none());
    assert_eq!(by_default.generation(), 0);
}

#[test]
fn fresh_session_runs_slowly_with_nothing_generated() {
    let session = MixingSession::new("be kind".to_string());
    assert!(session.is_active);
    assert!(!session.is_paused);
    assert!(!session.is_mixing);
    assert!(!session.cancel_token);
    assert_eq!(session.midtoken_sleep_ms, 500);
    assert_eq!(session.current_promx, "be kind");
    assert_eq!(session.generated_text, "");
}

#[test]
fn install_replaces_and_counts() {
    let mut state = started("one");
    state.append_generated(1, "abc");
    let id = state.install(MixingSession::new("two".to_string()));
    assert_eq!(id, 2);
    assert_eq!(state.generation(), 2);
    let session = state.session().unwrap();
    assert_eq!(session.current_promx, "two");
    assert_eq!(session.generated_text, "");
}

#[test]
fn commands_without_a_session_fail() {
    let mut state = SessionState::new();
    assert_eq!(toggle_pause(&mut state), Err(MixError::NoSession));
    assert_eq!(set_speed(&mut state, "slow"), Err(MixError::NoSession));
    assert_eq!(set_speed(&mut state, "warp"), Err(MixError::NoSession));
    assert_eq!(cancel_session(&mut state), Err(MixError::NoSession));
    assert_eq!(begin_update_weights(&mut state), Err(MixError::NoSession));
    assert_eq!(MixError::NoSession.kind(), ErrorKind::State);
    assert!(state.session().is_none());
    assert_eq!(state.generation(), 0);
}

#[test]
fn toggle_pause_flips_and_reports() {
    let mut state = started("p");
    assert_eq!(toggle_pause(&mut state), Ok(true));
    assert!(state.session().unwrap().is_paused);
    assert_eq!(toggle_pause(&mut state), Ok(false));
    assert!(!state.session().unwrap().is_paused);
}

#[test]
fn speed_names_set_the_pause() {
    let mut state = started("p");
    assert_eq!(set_speed(&mut state, "fast"), Ok(()));
    assert_eq!(state.session().unwrap().midtoken_sleep_ms, 0);
    assert_eq!(set_speed(&mut state, "slow"), Ok(()));
    assert_eq!(state.session().unwrap().midtoken_sleep_ms, 500);
}

#[test]
fn unknown_speed_leaves_the_pause() {
    let mut state = started("p");
    assert_eq!(set_speed(&mut state, "fast"), Ok(()));
    let before = state.session().unwrap().clone();
    for name in ["medium", "", "Slow", "fast ", "slowfast"] {
        let outcome = set_speed(&mut state, name);
        assert_eq!(outcome, Err(MixError::UnknownSpeed(name.to_string())));
        assert_eq!(outcome.unwrap_err().kind(), ErrorKind::Configuration);
        assert_eq!(state.session().unwrap(), &before);
    }
    assert_eq!(state.session().unwrap().midtoken_sleep_ms, 0);
}

#[test]
fn cancel_sets_the_signal_only() {
    let mut state = started("p");
    let mut expected = state.session().unwrap().clone();
    assert_eq!(cancel_session(&mut state), Ok(()));
    expected.cancel_token = true;
    assert_eq!(state.session().unwrap(), &expected);
    assert_eq!(cancel_session(&mut state), Ok(()));
    assert_eq!(state.session().unwrap(), &expected);
}

#[test]
fn update_weights_replaces_the_prompt_and_keeps_the_text() {
    let mut state = started("old");
    state.append_generated(1, "so far <think>");
    assert_eq!(begin_update_weights(&mut state), Ok("Mixing".to_string()));
    assert!(state.session().unwrap().is_mixing);
    assert_eq!(state.session().unwrap().current_promx, "old");
    assert_eq!(finish_update_weights(&mut state, Ok(" new \n".to_string())), Ok(String::new()));
    let session = state.session().unwrap();
    assert!(!session.is_mixing);
    assert_eq!(session.current_promx, " new \n");
    assert_eq!(session.generated_text, "so far <think>");
    assert!(session.is_active);
}

#[test]
fn failed_update_rolls_back_the_flag_only() {
    let mut state = started("old");
    state.append_generated(1, "text");
    let mut expected = state.session().unwrap().clone();
    begin_update_weights(&mut state).unwrap();
    assert_eq!(
        finish_update_weights(&mut state, Err(MixError::NoActiveAnchors)),
        Err(MixError::NoActiveAnchors)
    );
    assert_eq!(state.session().unwrap(), &expected);
    begin_update_weights(&mut state).unwrap();
    let failure = MixError::Transport("timed out".to_string());
    assert_eq!(finish_update_weights(&mut state, Err(failure.clone())), Err(failure));
    expected.is_mixing = false;
    assert_eq!(state.session().unwrap(), &expected);
}

#[test]
fn later_update_wins() {
    let mut state = started("old");
    begin_update_weights(&mut state).unwrap();
    begin_update_weights(&mut state).unwrap();
    finish_update_weights(&mut state, Ok("first".to_string())).unwrap();
    finish_update_weights(&mut state, Ok("second".to_string())).unwrap();
    assert_eq!(state.session().unwrap().current_promx, "second");
    assert!(!state.session().unwrap().is_mixing);
}

#[test]
fn loop_side_changes_need_the_right_identity() {
    let mut state = started("one");
    state.append_generated(7, "stray");
    state.end_session(7);
    assert_eq!(state.session().unwrap().generated_text, "");
    assert!(state.session().unwrap().is_active);
    state.append_generated(1, "ab");
    state.append_generated(1, "cd");
    assert_eq!(state.session().unwrap().generated_text, "abcd");
    state.end_session(1);
    assert!(!state.session().unwrap().is_active);
    let mut empty = SessionState::new();
    empty.append_generated(0, "x");
    empty.end_session(0);
    assert!(empty.session().is_none());
}
