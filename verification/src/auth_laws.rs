//! What holds of every run of the authenticator, whatever the session, the
//! remote host and the operator answer.

use vstd::prelude::*;
use crate::auth::{
    password_name,
    publickey_name,
    AuthAction,
    AuthEvent,
    AuthPhase,
    Authenticator,
    MAX_ROUNDS,
};
use crate::error::ConnectError;
use crate::methods::method_offered;

verus! {

/// The state of an authenticator that was started and then told `events`, in
/// this order.
pub open spec fn state_after(events: Seq<AuthEvent>) -> Authenticator
    decreases events.len(),
{
    if events.len() == 0 {
        Authenticator::initial()
    } else {
        state_after(events.drop_last()).next(events.last()).0
    }
}

/// What an authenticator that was started and then told `events` wants done
/// next.
pub open spec fn action_after(events: Seq<AuthEvent>) -> AuthAction
    decreases events.len(),
{
    if events.len() == 0 {
        AuthAction::Probe
    } else {
        state_after(events.drop_last()).next(events.last()).1
    }
}

/// The list of methods that was reported last among `events`, if any was.
pub open spec fn last_listing(events: Seq<AuthEvent>) -> Option<Seq<char>>
    decreases events.len(),
{
    if events.len() == 0 {
        None
    } else {
        match events.last() {
            AuthEvent::Methods(list) => Some(list@),
            _ => last_listing(events.drop_last()),
        }
    }
}

/// How often the remote host was asked for its methods in the run that was
/// told `events`: the number of rounds begun.
pub open spec fn listings(events: Seq<AuthEvent>) -> nat
    decreases events.len(),
{
    if events.len() == 0 {
        0
    } else {
        listings(events.drop_last()) + if action_after(events) is ListMethods {
            1nat
        } else {
            0nat
        }
    }
}

/// How often the key agent was tried in the run that was told `events`.
pub open spec fn agent_attempts(events: Seq<AuthEvent>) -> nat
    decreases events.len(),
{
    if events.len() == 0 {
        0
    } else {
        agent_attempts(events.drop_last()) + if action_after(events) is TryAgent {
            1nat
        } else {
            0nat
        }
    }
}

/// How often the operator was asked for a password in the run that was told
/// `events`.
pub open spec fn password_prompts(events: Seq<AuthEvent>) -> nat
    decreases events.len(),
{
    if events.len() == 0 {
        0
    } else {
        password_prompts(events.drop_last()) + if action_after(events) is AskPassword {
            1nat
        } else {
            0nat
        }
    }
}

/// How often a password was tried in the run that was told `events`.
pub open spec fn password_attempts(events: Seq<AuthEvent>) -> nat
    decreases events.len(),
{
    if events.len() == 0 {
        0
    } else {
        password_attempts(events.drop_last()) + if action_after(events) is TryPassword {
            1nat
        } else {
            0nat
        }
    }
}

/// One if `b` holds, else zero.
pub open spec fn one_if(b: bool) -> nat {
    if b {
        1
    } else {
        0
    }
}

/// Whether the session never said that it is authenticated.
pub open spec fn never_authenticated(events: Seq<AuthEvent>) -> bool {
    forall|i: int|
        0 <= i < events.len() ==> #[trigger] events[i] != (AuthEvent::Status {
            authenticated: true,
        })
}

/// The states that a run can be in: no more than three rounds are over, and
/// a round is under way only while fewer than three are over.
pub open spec fn sound(state: Authenticator) -> bool {
    &&& state.rounds_done <= MAX_ROUNDS
    &&& state.in_round() ==> state.rounds_done < MAX_ROUNDS
}

/// An upper bound on the number of events that `state` can still take in
/// before it is finished.
pub open spec fn budget(state: Authenticator) -> nat {
    let rounds_left = (MAX_ROUNDS - state.rounds_done) as nat;
    match state.phase {
        AuthPhase::Probing => 6 * rounds_left + 1,
        AuthPhase::Listing => 6 * rounds_left,
        AuthPhase::AgentRunning => (6 * rounds_left - 1) as nat,
        AuthPhase::AgentProbing => (6 * rounds_left - 2) as nat,
        AuthPhase::Asking => (6 * rounds_left - 3) as nat,
        AuthPhase::PasswordRunning => (6 * rounds_left - 4) as nat,
        AuthPhase::Succeeded => 0,
        AuthPhase::Failed => 0,
    }
}

/// What the state of a run knows about the events that led to it.
spec fn accounted(events: Seq<AuthEvent>) -> bool {
    let state = state_after(events);
    &&& sound(state)
    &&& !state.finished() ==> budget(state) + events.len() <= budget(Authenticator::initial())
    &&& state.in_round() && state.phase != AuthPhase::Listing ==> (last_listing(events) matches Some(
        list,
    ) && state.password_offered == method_offered(list, password_name()))
    &&& state.phase == AuthPhase::AgentRunning ==> (last_listing(events) matches Some(list)
        && method_offered(list, publickey_name()))
    &&& state.phase == AuthPhase::Asking || state.phase == AuthPhase::PasswordRunning
        ==> state.password_offered
    &&& !state.finished() ==> listings(events) <= state.rounds_done + if state.in_round() {
        1nat
    } else {
        0nat
    }
    &&& listings(events) <= MAX_ROUNDS
    &&& !state.finished() ==> agent_attempts(events) <= state.rounds_done + one_if(
        state.in_round() && state.phase != AuthPhase::Listing,
    )
    &&& agent_attempts(events) <= MAX_ROUNDS
    &&& !state.finished() ==> password_prompts(events) <= state.rounds_done + one_if(
        state.phase == AuthPhase::Asking || state.phase == AuthPhase::PasswordRunning,
    )
    &&& password_prompts(events) <= MAX_ROUNDS
    &&& !state.finished() ==> password_attempts(events) <= state.rounds_done + one_if(
        state.phase == AuthPhase::PasswordRunning,
    )
    &&& password_attempts(events) <= MAX_ROUNDS
    &&& never_authenticated(events) ==> state.phase != AuthPhase::Succeeded
}

proof fn lemma_accounted(events: Seq<AuthEvent>)
    ensures
        accounted(events),
    decreases events.len(),
{
    if events.len() > 0 {
        let before = events.drop_last();
        lemma_accounted(before);
        law_step_verdict(state_after(before), events.last());
        if never_authenticated(events) {
            assert forall|i: int| 0 <= i < before.len() implies #[trigger] before[i] != (
            AuthEvent::Status { authenticated: true }) by {
                assert(before[i] == events[i]);
            }
            assert(events[events.len() - 1] == events.last());
        }
    }
}

/// One step: the action and the state that come out of it agree on the
/// verdict, giving up always carries `AuthenticationFailed`, and success is
/// only ever declared on the session's own word.
pub proof fn law_step_verdict(state: Authenticator, event: AuthEvent)
    ensures
        ({
            let (after, action) = state.next(event);
            &&& action is Succeed <==> after.phase == AuthPhase::Succeeded
            &&& action is Fail <==> after.phase == AuthPhase::Failed
            &&& action is Fail ==> action == AuthAction::Fail(ConnectError::AuthenticationFailed)
            &&& after.phase == AuthPhase::Succeeded && state.phase != AuthPhase::Succeeded ==> event
                == (AuthEvent::Status { authenticated: true })
            &&& state.finished() ==> after == state
        }),
{
}

/// One step of a run that is not finished uses up some of its budget, and
/// leaves a state that a run can be in.
pub proof fn law_step_progress(state: Authenticator, event: AuthEvent)
    requires
        sound(state),
        !state.finished(),
    ensures
        sound(state.next(event).0),
        budget(state.next(event).0) < budget(state),
{
}

/// The authenticator asks for a password, or tries one, only if the list of
/// methods that the remote host sent last names `password`. Nothing else
/// leads there: how the attempt with the agent ended is not even reported.
pub proof fn law_password_only_if_offered(events: Seq<AuthEvent>)
    requires
        action_after(events) is AskPassword || action_after(events) is TryPassword,
    ensures
        last_listing(events) matches Some(list) && method_offered(list, password_name()),
{
    lemma_accounted(events);
}

/// The authenticator tries the key agent only if the list of methods that the
/// remote host sent last names `publickey`.
pub proof fn law_agent_only_if_offered(events: Seq<AuthEvent>)
    requires
        action_after(events) is TryAgent,
    ensures
        last_listing(events) matches Some(list) && method_offered(list, publickey_name()),
{
    lemma_accounted(events);
}

/// No run begins more than three rounds.
pub proof fn law_at_most_three_rounds(events: Seq<AuthEvent>)
    ensures
        listings(events) <= 3,
        state_after(events).rounds_done <= 3,
{
    lemma_accounted(events);
}

/// No run tries the key agent more than three times, asks the operator for a
/// password more than three times, or tries more than three passwords.
pub proof fn law_at_most_three_attempts(events: Seq<AuthEvent>)
    ensures
        agent_attempts(events) <= 3,
        password_prompts(events) <= 3,
        password_attempts(events) <= 3,
{
    lemma_accounted(events);
}

/// Every run is finished after nineteen events at the latest.
pub proof fn law_run_ends(events: Seq<AuthEvent>)
    requires
        events.len() >= 19,
    ensures
        state_after(events).finished(),
{
    lemma_accounted(events);
}

/// A run in which the session never says that it is authenticated does not
/// succeed, and once it is finished it has failed with
/// `AuthenticationFailed`.
pub proof fn law_exhaustion_fails(events: Seq<AuthEvent>)
    requires
        never_authenticated(events),
    ensures
        !(action_after(events) is Succeed),
        state_after(events).finished() ==> state_after(events).phase == AuthPhase::Failed,
        events.len() >= 19 ==> state_after(events).phase == AuthPhase::Failed,
        action_after(events) is Fail ==> action_after(events) == AuthAction::Fail(
            ConnectError::AuthenticationFailed,
        ),
{
    lemma_accounted(events);
    if events.len() > 0 {
        law_step_verdict(state_after(events.drop_last()), events.last());
    }
}

} // verus!
