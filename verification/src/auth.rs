//! The authenticator: the decisions that lead a trust-verified session to an
//! authenticated one, or give up.
//!
//! The authenticator does no input or output of its own. It names the next
//! thing to do with the session or the console, and is told what came of it.
//! It works in rounds, at most three. A round asks the remote host which
//! methods it accepts, tries the key agent if `publickey` is among them, and,
//! if the session is still not authenticated, asks the operator for a
//! password if `password` is among them. What a single attempt answered is
//! never looked at: only the session's own word on being authenticated counts.

use vstd::prelude::*;
use crate::error::ConnectError;
use crate::methods::{method_offered, offers};

verus! {

/// The number of rounds after which the authenticator gives up.
pub const MAX_ROUNDS: u8 = 3;

/// What the authenticator is waiting for.
#[derive(Clone, Copy, Debug, PartialEq, Eq, Structural)]
pub enum AuthPhase {
    /// The session's word on being authenticated, before a round.
    Probing,
    /// The list of methods that the remote host accepts.
    Listing,
    /// The end of the attempt with the key agent.
    AgentRunning,
    /// The session's word on being authenticated, after the agent was tried.
    AgentProbing,
    /// The operator's password.
    Asking,
    /// The end of the attempt with the password.
    PasswordRunning,
    /// Nothing: the session is authenticated.
    Succeeded,
    /// Nothing: authentication was given up.
    Failed,
}

/// The state of an authentication in progress.
#[derive(Clone, Copy, Debug, PartialEq, Eq, Structural)]
pub struct Authenticator {
    /// The number of rounds that are over.
    pub rounds_done: u8,
    /// What is being waited for.
    pub phase: AuthPhase,
    /// Whether the list of methods received in this round names `password`.
    pub password_offered: bool,
}

/// What the caller reports back to the authenticator.
#[derive(Clone, Debug, PartialEq, Eq)]
pub enum AuthEvent {
    /// The session's word on whether it is authenticated.
    Status { authenticated: bool },
    /// The comma-separated list of methods that the remote host accepts.
    Methods(String),
    /// The remote host could not be asked for its methods.
    MethodsUnavailable,
    /// An attempt with the agent or with a password is over, whatever it
    /// answered.
    Attempted,
    /// The password that the operator typed.
    Secret(String),
    /// The operator could not be asked for a password.
    SecretUnavailable,
}

/// What the authenticator wants done next.
#[derive(Clone, Debug, PartialEq, Eq)]
pub enum AuthAction {
    /// Ask the session whether it is authenticated; report `Status`.
    Probe,
    /// Ask the remote host for the methods it accepts; report `Methods` or
    /// `MethodsUnavailable`.
    ListMethods,
    /// Try to authenticate with the key agent; report `Attempted`.
    TryAgent,
    /// Ask the operator for a password without echoing it; report `Secret` or
    /// `SecretUnavailable`.
    AskPassword,
    /// Try to authenticate with this password; report `Attempted`.
    TryPassword(String),
    /// Hand the authenticated session to the caller.
    Succeed,
    /// Give up with this error.
    Fail(ConnectError),
}

/// The name under which a remote host offers authentication by key.
pub open spec fn publickey_name() -> Seq<char> {
    "publickey"@
}

/// The name under which a remote host offers authentication by password.
pub open spec fn password_name() -> Seq<char> {
    "password"@
}

/// The prompt shown to the operator when a password is asked for.
pub open spec fn password_prompt_text() -> Seq<char> {
    "\u{1F510} Password: "@
}

impl Authenticator {
    /// The authenticator before anything has happened.
    pub open spec fn initial() -> Authenticator {
        Authenticator { rounds_done: 0, phase: AuthPhase::Probing, password_offered: false }
    }

    /// Whether nothing more is waited for.
    pub open spec fn finished(self) -> bool {
        self.phase == AuthPhase::Succeeded || self.phase == AuthPhase::Failed
    }

    /// Whether the authenticator is in the middle of a round.
    pub open spec fn in_round(self) -> bool {
        self.phase != AuthPhase::Probing && !self.finished()
    }

    /// The authenticator when it has given up.
    pub open spec fn given_up(self) -> (Authenticator, AuthAction) {
        (
            Authenticator { phase: AuthPhase::Failed, ..self },
            AuthAction::Fail(ConnectError::AuthenticationFailed),
        )
    }

    /// What follows when the session says that it is not authenticated and
    /// `rounds` rounds are over: another round, if one is left.
    pub open spec fn unauthenticated(self, rounds: u8) -> (Authenticator, AuthAction) {
        if rounds < MAX_ROUNDS {
            (
                Authenticator {
                    rounds_done: rounds,
                    phase: AuthPhase::Listing,
                    password_offered: false,
                },
                AuthAction::ListMethods,
            )
        } else {
            Authenticator { rounds_done: rounds, ..self }.given_up()
        }
    }

    /// The number of rounds that are over once the current one ends.
    pub open spec fn rounds_after(self) -> u8 {
        if self.rounds_done < MAX_ROUNDS {
            (self.rounds_done + 1) as u8
        } else {
            MAX_ROUNDS
        }
    }

    /// What follows when the current round ends without the session's word:
    /// the session is asked.
    pub open spec fn round_over(self) -> (Authenticator, AuthAction) {
        (
            Authenticator {
                rounds_done: self.rounds_after(),
                phase: AuthPhase::Probing,
                password_offered: false,
            },
            AuthAction::Probe,
        )
    }

    /// What follows in a round once the agent is out of the way: the password,
    /// if the remote host offers it.
    pub open spec fn after_agent(self) -> (Authenticator, AuthAction) {
        if self.password_offered {
            (Authenticator { phase: AuthPhase::Asking, ..self }, AuthAction::AskPassword)
        } else {
            self.round_over()
        }
    }

    /// The state that follows `self` on `event`, and what is to be done next.
    /// An event that does not answer what was waited for makes the
    /// authenticator give up; a finished authenticator repeats its verdict.
    pub open spec fn next(self, event: AuthEvent) -> (Authenticator, AuthAction) {
        match (self.phase, event) {
            (AuthPhase::Succeeded, _) => (self, AuthAction::Succeed),
            (AuthPhase::Failed, _) => self.given_up(),
            (AuthPhase::Probing, AuthEvent::Status { authenticated }) => if authenticated {
                (Authenticator { phase: AuthPhase::Succeeded, ..self }, AuthAction::Succeed)
            } else {
                self.unauthenticated(self.rounds_done)
            },
            (AuthPhase::Listing, AuthEvent::Methods(list)) => {
                let listed = Authenticator {
                    password_offered: method_offered(list@, password_name()),
                    ..self
                };
                if method_offered(list@, publickey_name()) {
                    (
                        Authenticator { phase: AuthPhase::AgentRunning, ..listed },
                        AuthAction::TryAgent,
                    )
                } else {
                    listed.after_agent()
                }
            },
            (AuthPhase::AgentRunning, AuthEvent::Attempted) => (
                Authenticator { phase: AuthPhase::AgentProbing, ..self },
                AuthAction::Probe,
            ),
            (AuthPhase::AgentProbing, AuthEvent::Status { authenticated }) => if authenticated {
                (Authenticator { phase: AuthPhase::Succeeded, ..self }, AuthAction::Succeed)
            } else if self.password_offered {
                (Authenticator { phase: AuthPhase::Asking, ..self }, AuthAction::AskPassword)
            } else {
                self.unauthenticated(self.rounds_after())
            },
            (AuthPhase::Asking, AuthEvent::Secret(password)) => (
                Authenticator { phase: AuthPhase::PasswordRunning, ..self },
                AuthAction::TryPassword(password),
            ),
            (AuthPhase::PasswordRunning, AuthEvent::Attempted) => self.round_over(),
            _ => self.given_up(),
        }
    }

    /// Starts an authentication: the state to keep and the first thing to do.
    pub fn start() -> (r: (Authenticator, AuthAction))
        ensures
            r == (Authenticator::initial(), AuthAction::Probe),
    {
        (
            Authenticator { rounds_done: 0, phase: AuthPhase::Probing, password_offered: false },
            AuthAction::Probe,
        )
    }

    /// Whether the authentication is over, so that no further event is
    /// expected.
    pub fn is_finished(&self) -> (b: bool)
        ensures
            b == self.finished(),
    {
        match self.phase {
            AuthPhase::Succeeded | AuthPhase::Failed => true,
            _ => false,
        }
    }

    fn give_up(self) -> (r: (Authenticator, AuthAction))
        ensures
            r == self.given_up(),
    {
        (
            Authenticator { phase: AuthPhase::Failed, ..self },
            AuthAction::Fail(ConnectError::AuthenticationFailed),
        )
    }

    fn on_unauthenticated(self, rounds: u8) -> (r: (Authenticator, AuthAction))
        ensures
            r == self.unauthenticated(rounds),
    {
        if rounds < MAX_ROUNDS {
            (
                Authenticator {
                    rounds_done: rounds,
                    phase: AuthPhase::Listing,
                    password_offered: false,
                },
                AuthAction::ListMethods,
            )
        } else {
            Authenticator { rounds_done: rounds, ..self }.give_up()
        }
    }

    fn rounds_when_over(&self) -> (rounds: u8)
        ensures
            rounds == self.rounds_after(),
    {
        if self.rounds_done < MAX_ROUNDS {
            self.rounds_done + 1
        } else {
            MAX_ROUNDS
        }
    }

    fn on_round_over(self) -> (r: (Authenticator, AuthAction))
        ensures
            r == self.round_over(),
    {
        (
            Authenticator {
                rounds_done: self.rounds_when_over(),
                phase: AuthPhase::Probing,
                password_offered: false,
            },
            AuthAction::Probe,
        )
    }

    fn on_agent_done(self) -> (r: (Authenticator, AuthAction))
        ensures
            r == self.after_agent(),
    {
        if self.password_offered {
            (Authenticator { phase: AuthPhase::Asking, ..self }, AuthAction::AskPassword)
        } else {
            self.on_round_over()
        }
    }

    /// Takes in what came of the last action and says what to do next.
    pub fn step(self, event: AuthEvent) -> (r: (Authenticator, AuthAction))
        ensures
            r == self.next(event),
    {
        match (self.phase, event) {
            (AuthPhase::Succeeded, _) => (self, AuthAction::Succeed),
            (AuthPhase::Failed, _) => self.give_up(),
            (AuthPhase::Probing, AuthEvent::Status { authenticated }) => if authenticated {
                (Authenticator { phase: AuthPhase::Succeeded, ..self }, AuthAction::Succeed)
            } else {
                self.on_unauthenticated(self.rounds_done)
            },
            (AuthPhase::Listing, AuthEvent::Methods(list)) => {
                let listed = Authenticator {
                    password_offered: offers(list.as_str(), "password"),
                    ..self
                };
                if offers(list.as_str(), "publickey") {
                    (
                        Authenticator { phase: AuthPhase::AgentRunning, ..listed },
                        AuthAction::TryAgent,
                    )
                } else {
                    listed.on_agent_done()
                }
            },
            (AuthPhase::AgentRunning, AuthEvent::Attempted) => (
                Authenticator { phase: AuthPhase::AgentProbing, ..self },
                AuthAction::Probe,
            ),
            (AuthPhase::AgentProbing, AuthEvent::Status { authenticated }) => if authenticated {
                (Authenticator { phase: AuthPhase::Succeeded, ..self }, AuthAction::Succeed)
            } else if self.password_offered {
                (Authenticator { phase: AuthPhase::Asking, ..self }, AuthAction::AskPassword)
            } else {
                self.on_unauthenticated(self.rounds_when_over())
            },
            (AuthPhase::Asking, AuthEvent::Secret(password)) => (
                Authenticator { phase: AuthPhase::PasswordRunning, ..self },
                AuthAction::TryPassword(password),
            ),
            (AuthPhase::PasswordRunning, AuthEvent::Attempted) => self.on_round_over(),
            _ => self.give_up(),
        }
    }
}

/// The prompt to show when the operator is asked for a password.
pub fn password_prompt() -> (prompt: &'static str)
    ensures
        prompt@ == password_prompt_text(),
{
    "\u{1F510} Password: "
}

} // verus!
