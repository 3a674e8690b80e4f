use recent_msgs::auth::{auth_init, auth_step, expects_event, AuthAction, AuthError, AuthEvent, AuthState};

#[test]
fn init_queries_status() {
    let (state, action) = auth_init();
    assert!(matches!(state, AuthState::Start));
    assert!(matches!(action, AuthAction::QueryStatus));
}

#[test]
fn already_authorized_finishes_without_prompts() {
    let (state, _) = auth_init();
    let event = AuthEvent::StatusKnown { authorized: true };
    assert!(expects_event(&state, &event));
    let (state, action) = auth_step(state, event);
    assert!(matches!(action, AuthAction::Finish { fresh: false }));
    assert!(matches!(state, AuthState::Done { fresh: false }));
    // The run is over: no further event is accepted, so nothing can prompt
    // or save afterwards.
    assert!(!expects_event(&state, &AuthEvent::PhoneEntered { phone: String::from("+1555") }));
    assert!(!expects_event(&state, &AuthEvent::SessionSaved));
    assert!(!expects_event(&state, &AuthEvent::StepFailed { err: AuthError::Connection }));
}

#[test]
fn fresh_login_without_second_factor_saves_once_after_sign_in() {
    let (state, _) = auth_init();
    let mut actions: Vec<AuthAction> = Vec::new();
    let events = vec![
        AuthEvent::StatusKnown { authorized: false },
        AuthEvent::PhoneEntered { phone: String::from("+15550123") },
        AuthEvent::LoginCodeSent,
        AuthEvent::CodeEntered { code: String::from("12345") },
        AuthEvent::SignInOk,
        AuthEvent::SessionSaved,
    ];
    let mut state = state;
    for event in events {
        assert!(expects_event(&state, &event));
        let (next, action) = auth_step(state, event);
        state = next;
        actions.push(action);
    }
    assert!(matches!(state, AuthState::Done { fresh: true }));
    assert!(matches!(actions[0], AuthAction::PromptPhone));
    match &actions[1] {
        AuthAction::RequestLoginCode { phone } => assert_eq!(phone, "+15550123"),
        other => panic!("unexpected action {:?}", other),
    }
    assert!(matches!(actions[2], AuthAction::PromptCode));
    match &actions[3] {
        AuthAction::SubmitCode { code } => assert_eq!(code, "12345"),
        other => panic!("unexpected action {:?}", other),
    }
    // The save is requested exactly once, directly after sign-in succeeded.
    let saves: Vec<usize> = actions
        .iter()
        .enumerate()
        .filter(|(_, a)| matches!(a, AuthAction::SaveSession))
        .map(|(i, _)| i)
        .collect();
    assert_eq!(saves, vec![4]);
    assert!(matches!(actions[5], AuthAction::Finish { fresh: true }));
}

#[test]
fn second_factor_shows_hint_and_trims_password() {
    let state = AuthState::CodeSubmitted;
    let event = AuthEvent::SignInPasswordRequired { hint: Some(String::from("pet name")) };
    assert!(expects_event(&state, &event));
    let (state, action) = auth_step(state, event);
    match &action {
        AuthAction::PromptPassword { hint } => assert_eq!(hint, "pet name"),
        other => panic!("unexpected action {:?}", other),
    }
    let event = AuthEvent::PasswordEntered { password: String::from("  s3cret\n") };
    assert!(expects_event(&state, &event));
    let (state, action) = auth_step(state, event);
    match &action {
        AuthAction::SubmitPassword { password } => assert_eq!(password, "s3cret"),
        other => panic!("unexpected action {:?}", other),
    }
    assert!(matches!(state, AuthState::PasswordSubmitted));
    let (state, action) = auth_step(state, AuthEvent::PasswordAccepted);
    assert!(matches!(action, AuthAction::SaveSession));
    let (state, action) = auth_step(state, AuthEvent::SessionSaved);
    assert!(matches!(state, AuthState::Done { fresh: true }));
    assert!(matches!(action, AuthAction::Finish { fresh: true }));
}

#[test]
fn second_factor_without_hint_shows_empty_string() {
    let state = AuthState::CodeSubmitted;
    let (_, action) = auth_step(state, AuthEvent::SignInPasswordRequired { hint: None });
    match &action {
        AuthAction::PromptPassword { hint } => assert_eq!(hint, ""),
        other => panic!("unexpected action {:?}", other),
    }
}

#[test]
fn every_failure_kind_aborts_with_its_error() {
    let cases = vec![
        (AuthState::Start, AuthError::Connection),
        (AuthState::CodeSubmitted, AuthError::AuthRejected),
        (AuthState::Saving, AuthError::Persistence),
        (AuthState::AwaitingPhone, AuthError::PromptIo),
    ];
    for (state, err) in cases {
        let event = AuthEvent::StepFailed { err };
        assert!(expects_event(&state, &event));
        let (state, action) = auth_step(state, event);
        match action {
            AuthAction::Abort { err: got } => assert_eq!(got, err),
            other => panic!("unexpected action {:?}", other),
        }
        match state {
            AuthState::Failed { err: got } => assert_eq!(got, err),
            other => panic!("unexpected state {:?}", other),
        }
    }
}

#[test]
fn mismatched_events_are_rejected_by_the_protocol() {
    assert!(!expects_event(&AuthState::Start, &AuthEvent::SignInOk));
    assert!(!expects_event(&AuthState::AwaitingPhone, &AuthEvent::CodeEntered {
        code: String::from("1"),
    }));
    assert!(!expects_event(&AuthState::Saving, &AuthEvent::StatusKnown { authorized: true }));
    assert!(!expects_event(
        &AuthState::Failed { err: AuthError::Connection },
        &AuthEvent::StepFailed { err: AuthError::Connection },
    ));
}
