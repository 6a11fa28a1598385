use ssh_connect::auth::{
    password_prompt, AuthAction, AuthEvent, AuthPhase, Authenticator, MAX_ROUNDS,
};
use ssh_connect::error::ConnectError;

fn status(authenticated: bool) -> AuthEvent {
    AuthEvent::Status { authenticated }
}

fn methods(list: &str) -> AuthEvent {
    AuthEvent::Methods(list.to_string())
}

fn secret(password: &str) -> AuthEvent {
    AuthEvent::Secret(password.to_string())
}

fn give_up() -> AuthAction {
    AuthAction::Fail(ConnectError::AuthenticationFailed)
}

/// Feeds the events to a fresh authenticator and returns every action it
/// asked for, the first one included.
fn run(events: Vec<AuthEvent>) -> (Authenticator, Vec<AuthAction>) {
    let (mut state, action) = Authenticator::start();
    let mut actions = vec![action];
    for event in events {
        let (next, action) = state.step(event);
        state = next;
        actions.push(action);
    }
    (state, actions)
}

#[test]
fn starts_by_asking_the_session() {
    let (state, action) = Authenticator::start();
    assert_eq!(action, AuthAction::Probe);
    assert_eq!(
        state,
        Authenticator { rounds_done: 0, phase: AuthPhase::Probing, password_offered: false }
    );
    assert!(!state.is_finished());
}

#[test]
fn three_rounds_at_most() {
    assert_eq!(MAX_ROUNDS, 3);
}

#[test]
fn an_authenticated_session_succeeds_at_once() {
    let (state, actions) = run(vec![status(true)]);
    assert_eq!(actions, vec![AuthAction::Probe, AuthAction::Succeed]);
    assert!(state.is_finished());
    assert_eq!(state.phase, AuthPhase::Succeeded);
}

#[test]
fn agent_success_needs_no_password() {
    let (state, actions) = run(vec![
        status(false),
        methods("publickey,password"),
        AuthEvent::Attempted,
        status(true),
    ]);
    assert_eq!(
        actions,
        vec![
            AuthAction::Probe,
            AuthAction::ListMethods,
            AuthAction::TryAgent,
            AuthAction::Probe,
            AuthAction::Succeed,
        ]
    );
    assert!(state.is_finished());
}

#[test]
fn agent_failure_leads_to_the_password() {
    let (state, actions) = run(vec![
        status(false),
        methods("publickey,password"),
        AuthEvent::Attempted,
        status(false),
        secret("hunter2"),
        AuthEvent::Attempted,
        status(true),
    ]);
    assert_eq!(
        actions,
        vec![
            AuthAction::Probe,
            AuthAction::ListMethods,
            AuthAction::TryAgent,
            AuthAction::Probe,
            AuthAction::AskPassword,
            AuthAction::TryPassword("hunter2".to_string()),
            AuthAction::Probe,
            AuthAction::Succeed,
        ]
    );
    assert_eq!(state.phase, AuthPhase::Succeeded);
}

#[test]
fn password_alone_is_asked_for_directly() {
    let (_, actions) = run(vec![status(false), methods("password"), secret(""), AuthEvent::Attempted]);
    assert_eq!(
        actions,
        vec![
            AuthAction::Probe,
            AuthAction::ListMethods,
            AuthAction::AskPassword,
            AuthAction::TryPassword(String::new()),
            AuthAction::Probe,
        ]
    );
}

#[test]
fn no_password_without_the_offer_even_if_the_agent_fails() {
    let mut events = Vec::new();
    for _ in 0..3 {
        events.push(status(false));
        events.push(methods("publickey,keyboard-interactive"));
        events.push(AuthEvent::Attempted);
    }
    events.push(status(false));
    let (state, actions) = run(events);
    assert!(!actions.contains(&AuthAction::AskPassword));
    assert!(!actions.iter().any(|a| matches!(a, AuthAction::TryPassword(_))));
    assert_eq!(actions.iter().filter(|a| **a == AuthAction::TryAgent).count(), 3);
    assert_eq!(actions.last(), Some(&give_up()));
    assert_eq!(state.phase, AuthPhase::Failed);
}

#[test]
fn a_method_that_is_never_implemented_exhausts_the_rounds() {
    let mut events = Vec::new();
    for _ in 0..3 {
        events.push(status(false));
        events.push(methods("keyboard-interactive"));
    }
    events.push(status(false));
    let (state, actions) = run(events);
    assert_eq!(
        actions,
        vec![
            AuthAction::Probe,
            AuthAction::ListMethods,
            AuthAction::Probe,
            AuthAction::ListMethods,
            AuthAction::Probe,
            AuthAction::ListMethods,
            AuthAction::Probe,
            give_up(),
        ]
    );
    assert_eq!(state.rounds_done, 3);
    assert!(state.is_finished());
}

#[test]
fn wrong_passwords_exhaust_the_rounds() {
    let mut events = Vec::new();
    for _ in 0..3 {
        events.push(status(false));
        events.push(methods("publickey,password"));
        events.push(AuthEvent::Attempted);
        events.push(status(false));
        events.push(secret("wrong"));
        events.push(AuthEvent::Attempted);
    }
    events.push(status(false));
    let (state, actions) = run(events);
    assert_eq!(actions.len(), 20);
    assert_eq!(actions.iter().filter(|a| **a == AuthAction::ListMethods).count(), 3);
    assert_eq!(actions.iter().filter(|a| **a == AuthAction::TryAgent).count(), 3);
    assert_eq!(actions.iter().filter(|a| **a == AuthAction::AskPassword).count(), 3);
    assert_eq!(actions.last(), Some(&give_up()));
    assert_eq!(state.phase, AuthPhase::Failed);
    assert_eq!(state.rounds_done, 3);
}

#[test]
fn success_in_the_last_round_still_counts() {
    let mut events = Vec::new();
    for _ in 0..3 {
        events.push(status(false));
        events.push(methods("password"));
        events.push(secret("guess"));
        events.push(AuthEvent::Attempted);
    }
    events.push(status(true));
    let (state, actions) = run(events);
    assert_eq!(actions.last(), Some(&AuthAction::Succeed));
    assert_eq!(state.phase, AuthPhase::Succeeded);
}

#[test]
fn the_offer_is_read_anew_in_every_round() {
    let (_, actions) = run(vec![
        status(false),
        methods("password"),
        secret("one"),
        AuthEvent::Attempted,
        status(false),
        methods("publickey"),
        AuthEvent::Attempted,
        status(false),
        methods(""),
        status(false),
    ]);
    assert_eq!(
        actions,
        vec![
            AuthAction::Probe,
            AuthAction::ListMethods,
            AuthAction::AskPassword,
            AuthAction::TryPassword("one".to_string()),
            AuthAction::Probe,
            AuthAction::ListMethods,
            AuthAction::TryAgent,
            AuthAction::Probe,
            AuthAction::ListMethods,
            AuthAction::Probe,
            give_up(),
        ]
    );
}

#[test]
fn failing_to_list_the_methods_gives_up() {
    let (state, actions) = run(vec![status(false), AuthEvent::MethodsUnavailable]);
    assert_eq!(actions, vec![AuthAction::Probe, AuthAction::ListMethods, give_up()]);
    assert!(state.is_finished());
}

#[test]
fn failing_to_ask_the_operator_gives_up() {
    let (state, actions) =
        run(vec![status(false), methods("password"), AuthEvent::SecretUnavailable]);
    assert_eq!(actions.last(), Some(&give_up()));
    assert!(state.is_finished());
}

#[test]
fn an_event_out_of_turn_gives_up() {
    let (state, actions) = run(vec![secret("early")]);
    assert_eq!(actions, vec![AuthAction::Probe, give_up()]);
    assert_eq!(state.phase, AuthPhase::Failed);
    let (_, actions) = run(vec![status(false), status(true)]);
    assert_eq!(actions.last(), Some(&give_up()));
}

#[test]
fn a_finished_run_repeats_its_verdict() {
    let (state, _) = run(vec![status(true)]);
    let (state, action) = state.step(status(false));
    assert_eq!(action, AuthAction::Succeed);
    assert_eq!(state.phase, AuthPhase::Succeeded);
    let (state, _) = run(vec![AuthEvent::Attempted]);
    let (state, action) = state.step(status(true));
    assert_eq!(action, give_up());
    assert_eq!(state.phase, AuthPhase::Failed);
}

#[test]
fn every_run_of_nineteen_events_is_finished_within_three_rounds() {
    let choices = [
        status(false),
        methods("publickey,password"),
        methods("publickey"),
        AuthEvent::Attempted,
        secret("x"),
    ];
    let mut picks = [0usize; 19];
    let mut seed: u64 = 0x2545_F491_4F6C_DD1D;
    for _ in 0..20000 {
        for pick in picks.iter_mut() {
            seed ^= seed << 13;
            seed ^= seed >> 7;
            seed ^= seed << 17;
            *pick = (seed % 5) as usize;
        }
        let events: Vec<AuthEvent> = picks.iter().map(|i| choices[*i].clone()).collect();
        let (state, actions) = run(events);
        assert!(state.is_finished());
        assert_eq!(state.phase, AuthPhase::Failed);
        assert!(actions.iter().filter(|a| **a == AuthAction::ListMethods).count() <= 3);
        assert!(!actions.contains(&AuthAction::Succeed));
    }
}

#[test]
fn the_prompt_asks_for_a_password() {
    assert_eq!(password_prompt(), "\u{1F510} Password: ");
}
