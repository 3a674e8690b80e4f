//! The login state machine.
//!
//! Authentication is a fixed sequence of credential exchanges: query the
//! authorization status, and if a fresh login is needed, submit a phone
//! number, then the login code received out of band, then — only when the
//! service demands a second factor — a password, and finally persist the
//! session. The machine itself performs no I/O: each step consumes the
//! outcome of the previous action as an [`AuthEvent`] and decides the next
//! [`AuthState`] and [`AuthAction`]. A driver performs the requested action
//! (remote call, prompt, session save) and feeds the outcome back.
//!
//! Every remote failure is fatal: the machine aborts and the run ends. The
//! one designed alternate path is the second-factor challenge, which is a
//! transition of its own, not an error.

use vstd::prelude::*;

use crate::text::trim;
use crate::text::trim_spec;

verus! {

/// Why an authentication run aborted.
#[derive(Clone, Copy, Debug, PartialEq, Eq, Structural)]
pub enum AuthError {
    /// The remote service could not be reached or answered malformed data.
    Connection,
    /// The remote service rejected a submitted code or password.
    AuthRejected,
    /// The session could not be written to its configured location.
    Persistence,
    /// The interactive terminal could not be read or written.
    PromptIo,
}

/// Where one authentication run stands.
#[derive(Debug)]
pub enum AuthState {
    /// Connected; authorization status not yet known.
    Start,
    /// Not authorized; the user is being asked for a phone number.
    AwaitingPhone,
    /// A login code was requested for the submitted phone number.
    CodeRequested,
    /// The user is being asked for the code received out of band.
    AwaitingCode,
    /// The (token, code) pair was submitted for sign-in.
    CodeSubmitted,
    /// The service demands a second factor; the retained hint is shown while
    /// the user is asked for the password.
    AwaitingPassword { hint: String },
    /// The trimmed password was submitted.
    PasswordSubmitted,
    /// Sign-in succeeded; the session is being persisted.
    Saving,
    /// Terminal success. `fresh` says whether a login was performed this run
    /// (and the session therefore saved) or the session was already
    /// authorized.
    Done { fresh: bool },
    /// Terminal failure.
    Failed { err: AuthError },
}

/// The outcome of an action, handed back to the machine by the driver.
#[derive(Debug)]
pub enum AuthEvent {
    /// Answer to `QueryStatus`.
    StatusKnown { authorized: bool },
    /// Answer to `PromptPhone`: the line the user entered.
    PhoneEntered { phone: String },
    /// Answer to `RequestLoginCode`: the service issued a login token.
    LoginCodeSent,
    /// Answer to `PromptCode`: the line the user entered.
    CodeEntered { code: String },
    /// Answer to `SubmitCode`: sign-in succeeded outright.
    SignInOk,
    /// Answer to `SubmitCode`: the service demands a password, with an
    /// optional human-readable hint.
    SignInPasswordRequired { hint: Option<String> },
    /// Answer to `PromptPassword`: the line the user entered, untrimmed.
    PasswordEntered { password: String },
    /// Answer to `SubmitPassword`: the password was accepted.
    PasswordAccepted,
    /// Answer to `SaveSession`: the session was persisted.
    SessionSaved,
    /// Answer to any action that failed; fatal.
    StepFailed { err: AuthError },
}

/// What the driver must do next.
#[derive(Debug)]
pub enum AuthAction {
    /// Ask the remote service whether the session is already authorized.
    QueryStatus,
    /// Ask the user for a phone number in international format.
    PromptPhone,
    /// Submit the phone number and request a login code.
    RequestLoginCode { phone: String },
    /// Ask the user for the login code.
    PromptCode,
    /// Submit the login code for sign-in.
    SubmitCode { code: String },
    /// Show the hint (empty when the service gave none) and ask the user for
    /// the password.
    PromptPassword { hint: String },
    /// Submit the password, already trimmed of surrounding whitespace.
    SubmitPassword { password: String },
    /// Persist the session to its configured location.
    SaveSession,
    /// Terminal: authentication succeeded.
    Finish { fresh: bool },
    /// Terminal: authentication failed.
    Abort { err: AuthError },
}

/// Terminal states accept no further event.
pub open spec fn is_terminal(s: AuthState) -> bool {
    s is Done || s is Failed
}

/// Which event may answer the action issued from state `s`: each event is the
/// outcome of exactly one action, and a failure may answer any of them.
pub open spec fn expects(s: AuthState, e: AuthEvent) -> bool {
    match e {
        AuthEvent::StatusKnown { .. } => s is Start,
        AuthEvent::PhoneEntered { .. } => s is AwaitingPhone,
        AuthEvent::LoginCodeSent => s is CodeRequested,
        AuthEvent::CodeEntered { .. } => s is AwaitingCode,
        AuthEvent::SignInOk => s is CodeSubmitted,
        AuthEvent::SignInPasswordRequired { .. } => s is CodeSubmitted,
        AuthEvent::PasswordEntered { .. } => s is AwaitingPassword,
        AuthEvent::PasswordAccepted => s is PasswordSubmitted,
        AuthEvent::SessionSaved => s is Saving,
        AuthEvent::StepFailed { .. } => !is_terminal(s),
    }
}

/// The hint text shown with the password prompt: the service's hint when it
/// gave one, the empty string otherwise.
pub open spec fn display_hint_spec(hint: Option<String>) -> Seq<char> {
    match hint {
        Some(h) => h@,
        None => Seq::<char>::empty(),
    }
}

/// The transition relation: from state `s`, event `e` leads to state `s2`
/// with action `a`.
pub open spec fn step_rel(s: AuthState, e: AuthEvent, s2: AuthState, a: AuthAction) -> bool {
    match e {
        AuthEvent::StatusKnown { authorized } => if authorized {
            s2 == (AuthState::Done { fresh: false }) && a == (AuthAction::Finish { fresh: false })
        } else {
            s2 is AwaitingPhone && a is PromptPhone
        },
        AuthEvent::PhoneEntered { phone } => s2 is CodeRequested && (a matches
        AuthAction::RequestLoginCode { phone: p } && p@ == phone@),
        AuthEvent::LoginCodeSent => s2 is AwaitingCode && a is PromptCode,
        AuthEvent::CodeEntered { code } => s2 is CodeSubmitted && (a matches
        AuthAction::SubmitCode { code: c } && c@ == code@),
        AuthEvent::SignInOk => s2 is Saving && a is SaveSession,
        AuthEvent::SignInPasswordRequired { hint } => (s2 matches AuthState::AwaitingPassword {
            hint: h,
        } && h@ == display_hint_spec(hint)) && (a matches AuthAction::PromptPassword { hint: h2 }
            && h2@ == display_hint_spec(hint)),
        AuthEvent::PasswordEntered { password } => s2 is PasswordSubmitted && (a matches
        AuthAction::SubmitPassword { password: p } && p@ == trim_spec(password@)),
        AuthEvent::PasswordAccepted => s2 is Saving && a is SaveSession,
        AuthEvent::SessionSaved => s2 == (AuthState::Done { fresh: true }) && a == (
        AuthAction::Finish { fresh: true }),
        AuthEvent::StepFailed { err } => s2 == (AuthState::Failed { err }) && a == (
        AuthAction::Abort { err }),
    }
}

/// Begin one authentication run: the status is unknown and must be queried
/// first.
pub fn auth_init() -> (r: (AuthState, AuthAction))
    ensures
        r.0 is Start,
        r.1 is QueryStatus,
{
    (AuthState::Start, AuthAction::QueryStatus)
}

/// One step of the login state machine.
pub fn auth_step(state: AuthState, event: AuthEvent) -> (r: (AuthState, AuthAction))
    requires
        expects(state, event),
    ensures
        step_rel(state, event, r.0, r.1),
{
    match event {
        AuthEvent::StatusKnown { authorized } => {
            if authorized {
                (AuthState::Done { fresh: false }, AuthAction::Finish { fresh: false })
            } else {
                (AuthState::AwaitingPhone, AuthAction::PromptPhone)
            }
        },
        AuthEvent::PhoneEntered { phone } => (
            AuthState::CodeRequested,
            AuthAction::RequestLoginCode { phone },
        ),
        AuthEvent::LoginCodeSent => (AuthState::AwaitingCode, AuthAction::PromptCode),
        AuthEvent::CodeEntered { code } => (
            AuthState::CodeSubmitted,
            AuthAction::SubmitCode { code },
        ),
        AuthEvent::SignInOk => (AuthState::Saving, AuthAction::SaveSession),
        AuthEvent::SignInPasswordRequired { hint } => {
            let h = match hint {
                Some(h) => h,
                None => String::new(),
            };
            let shown = h.clone();
            (AuthState::AwaitingPassword { hint: h }, AuthAction::PromptPassword { hint: shown })
        },
        AuthEvent::PasswordEntered { password } => {
            let trimmed = trim(password.as_str());
            (AuthState::PasswordSubmitted, AuthAction::SubmitPassword { password: trimmed })
        },
        AuthEvent::PasswordAccepted => (AuthState::Saving, AuthAction::SaveSession),
        AuthEvent::SessionSaved => (
            AuthState::Done { fresh: true },
            AuthAction::Finish { fresh: true },
        ),
        AuthEvent::StepFailed { err } => (
            AuthState::Failed { err },
            AuthAction::Abort { err },
        ),
    }
}

/// Whether `event` is a protocol-conforming answer to the action issued from
/// `state`; a driver checks this before stepping the machine.
pub fn expects_event(state: &AuthState, event: &AuthEvent) -> (b: bool)
    ensures
        b == expects(*state, *event),
{
    match event {
        AuthEvent::StatusKnown { .. } => matches!(state, AuthState::Start),
        AuthEvent::PhoneEntered { .. } => matches!(state, AuthState::AwaitingPhone),
        AuthEvent::LoginCodeSent => matches!(state, AuthState::CodeRequested),
        AuthEvent::CodeEntered { .. } => matches!(state, AuthState::AwaitingCode),
        AuthEvent::SignInOk => matches!(state, AuthState::CodeSubmitted),
        AuthEvent::SignInPasswordRequired { .. } => matches!(state, AuthState::CodeSubmitted),
        AuthEvent::PasswordEntered { .. } => matches!(state, AuthState::AwaitingPassword { .. }),
        AuthEvent::PasswordAccepted => matches!(state, AuthState::PasswordSubmitted),
        AuthEvent::SessionSaved => matches!(state, AuthState::Saving),
        AuthEvent::StepFailed { .. } => !matches!(
            state,
            AuthState::Done { .. } | AuthState::Failed { .. },
        ),
    }
}

/// A complete or partial authentication run: `states` begins at `Start`, and
/// each event both answers the pending action and drives one transition that
/// emitted the recorded action.
pub open spec fn valid_run(
    states: Seq<AuthState>,
    events: Seq<AuthEvent>,
    actions: Seq<AuthAction>,
) -> bool {
    &&& states.len() == events.len() + 1
    &&& actions.len() == events.len()
    &&& states[0] is Start
    &&& forall|i: int|
        #![trigger events[i]]
        0 <= i < events.len() ==> expects(states[i], events[i]) && step_rel(
            states[i],
            events[i],
            states[i + 1],
            actions[i],
        )
}

/// How far through the login sequence a state is; every transition moves
/// strictly forward, so no exchange is ever repeated.
pub open spec fn phase(s: AuthState) -> int {
    match s {
        AuthState::Start => 0,
        AuthState::AwaitingPhone => 1,
        AuthState::CodeRequested => 2,
        AuthState::AwaitingCode => 3,
        AuthState::CodeSubmitted => 4,
        AuthState::AwaitingPassword { .. } => 5,
        AuthState::PasswordSubmitted => 6,
        AuthState::Saving => 7,
        AuthState::Done { .. } => 8,
        AuthState::Failed { .. } => 9,
    }
}

/// Every accepted transition strictly advances the login sequence.
pub proof fn lemma_step_advances(s: AuthState, e: AuthEvent, s2: AuthState, a: AuthAction)
    requires
        expects(s, e),
        step_rel(s, e, s2, a),
    ensures
        phase(s) < phase(s2),
{
}

/// Along any run, the login sequence never moves backwards.
pub proof fn lemma_phase_monotone(
    states: Seq<AuthState>,
    events: Seq<AuthEvent>,
    actions: Seq<AuthAction>,
    i: int,
    j: int,
)
    requires
        valid_run(states, events, actions),
        0 <= i <= j < states.len(),
    ensures
        phase(states[i]) <= phase(states[j]),
    decreases j - i,
{
    if i < j {
        lemma_phase_monotone(states, events, actions, i, j - 1);
        lemma_step_advances(states[j - 1], events[j - 1], states[j], actions[j - 1]);
    }
}

/// An already-authorized session finishes at once: the run holds exactly one
/// step, whose action is the successful finish — so no phone, code or
/// password prompt is ever issued and the session file is never written.
pub proof fn lemma_already_authorized_no_prompts(
    states: Seq<AuthState>,
    events: Seq<AuthEvent>,
    actions: Seq<AuthAction>,
)
    requires
        valid_run(states, events, actions),
        events.len() >= 1,
        events[0] == (AuthEvent::StatusKnown { authorized: true }),
    ensures
        events.len() == 1,
        actions =~= seq![AuthAction::Finish { fresh: false }],
        forall|i: int|
            0 <= i < actions.len() ==> !(#[trigger] actions[i] is PromptPhone)
                && !(actions[i] is PromptCode) && !(actions[i] is PromptPassword) && !(actions[i]
                is SaveSession),
{
    assert(expects(states[0], events[0]));
    assert(states[1] == (AuthState::Done { fresh: false }));
    if events.len() >= 2 {
        assert(expects(states[1], events[1]));
        assert(false);
    }
}

/// The session is saved only in direct answer to a successful sign-in: the
/// code was accepted outright, or the password of the second factor was.
pub proof fn lemma_save_only_after_sign_in(
    states: Seq<AuthState>,
    events: Seq<AuthEvent>,
    actions: Seq<AuthAction>,
    i: int,
)
    requires
        valid_run(states, events, actions),
        0 <= i < actions.len(),
        actions[i] is SaveSession,
    ensures
        events[i] is SignInOk || events[i] is PasswordAccepted,
        states[i + 1] is Saving,
{
    assert(expects(states[i], events[i]));
    assert(step_rel(states[i], events[i], states[i + 1], actions[i]));
}

/// No run saves the session twice.
pub proof fn lemma_save_at_most_once(
    states: Seq<AuthState>,
    events: Seq<AuthEvent>,
    actions: Seq<AuthAction>,
    i: int,
    j: int,
)
    requires
        valid_run(states, events, actions),
        0 <= i < j < actions.len(),
        actions[i] is SaveSession,
    ensures
        !(actions[j] is SaveSession),
{
    lemma_save_only_after_sign_in(states, events, actions, i);
    if actions[j] is SaveSession {
        lemma_save_only_after_sign_in(states, events, actions, j);
        assert(expects(states[j], events[j]));
        assert(phase(states[j]) <= 6);
        lemma_phase_monotone(states, events, actions, i + 1, j);
    }
}

/// A run that completes a fresh login saves the session exactly once, and
/// that save happens after sign-in succeeded — never before, and never on the
/// already-authorized path.
pub proof fn lemma_fresh_login_saves_exactly_once(
    states: Seq<AuthState>,
    events: Seq<AuthEvent>,
    actions: Seq<AuthAction>,
)
    requires
        valid_run(states, events, actions),
        states.last() == (AuthState::Done { fresh: true }),
    ensures
        exists|i: int|
            0 <= i < actions.len() && (#[trigger] actions[i] is SaveSession) && (events[i]
                is SignInOk || events[i] is PasswordAccepted),
        forall|i: int, j: int|
            0 <= i < actions.len() && 0 <= j < actions.len() && (#[trigger] actions[i]
                is SaveSession) && (#[trigger] actions[j] is SaveSession) ==> i == j,
{
    let n = events.len() as int;
    assert(n >= 1);
    assert(expects(states[n - 1], events[n - 1]));
    assert(step_rel(states[n - 1], events[n - 1], states[n], actions[n - 1]));
    assert(events[n - 1] is SessionSaved);
    assert(states[n - 1] is Saving);
    assert(n >= 2);
    assert(expects(states[n - 2], events[n - 2]));
    assert(step_rel(states[n - 2], events[n - 2], states[n - 1], actions[n - 2]));
    assert(actions[n - 2] is SaveSession);
    lemma_save_only_after_sign_in(states, events, actions, n - 2);
    assert forall|i: int, j: int|
        0 <= i < actions.len() && 0 <= j < actions.len() && (#[trigger] actions[i]
            is SaveSession) && (#[trigger] actions[j] is SaveSession) implies i == j by {
        if i < j {
            lemma_save_at_most_once(states, events, actions, i, j);
        }
        if j < i {
            lemma_save_at_most_once(states, events, actions, j, i);
        }
    }
}

/// A second-factor challenge is answered by a password prompt showing exactly
/// the service's hint (the empty string when none was given), and the entered
/// password is submitted with surrounding whitespace trimmed.
pub proof fn lemma_second_factor_prompt_and_trim(
    states: Seq<AuthState>,
    events: Seq<AuthEvent>,
    actions: Seq<AuthAction>,
    i: int,
)
    requires
        valid_run(states, events, actions),
        0 <= i < events.len(),
    ensures
        events[i] matches AuthEvent::SignInPasswordRequired { hint } ==> actions[i] matches
            AuthAction::PromptPassword { hint: shown } && shown@ == display_hint_spec(hint),
        events[i] matches AuthEvent::PasswordEntered { password } ==> actions[i] matches
            AuthAction::SubmitPassword { password: submitted } && submitted@ == trim_spec(
            password@,
        ),
{
    assert(step_rel(states[i], events[i], states[i + 1], actions[i]));
}

} // verus!
