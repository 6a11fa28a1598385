//! The host trust verifier: trust on first use.
//!
//! A host starts out unverified. It becomes verified when the store holds the
//! key it presents, or when the operator agrees to record that key on first
//! contact. It is rejected when the store holds another key for it, when the
//! operator declines, or when the store or the session cannot be consulted;
//! a rejection is final. A host whose key has changed is never put before the
//! operator.

use vstd::prelude::*;
use vstd::string::StringExecFns;
use crate::consent::{affirmative, is_affirmative};
use crate::error::{ConnectError, ProtocolFault, StoreFault};
use crate::fingerprint::{host_fingerprint, is_fingerprint, session_fingerprint, text_view};
use crate::store::{
    askable,
    check_host,
    holds_other_key,
    host_check,
    known_hosts_entries,
    lemma_recorded_is_held,
    lookup_answer,
    may_concern,
    may_hold_key,
    names_host,
    pattern_fits,
    plain_entry,
    recorded,
    trust_host,
    HostCheck,
    HostKey,
    HostKeyKind,
    KnownEntry,
};

verus! {

/// A host that the store does not know, waiting for the operator's word.
#[derive(Clone, Debug, PartialEq, Eq)]
pub struct UnknownHost {
    /// The key that the host presented.
    pub key: HostKey,
    /// The fingerprint to show to the operator.
    pub fingerprint: String,
}

/// Where the verification of a host stands after the store was consulted.
#[derive(Clone, Debug, PartialEq, Eq)]
pub enum HostStep {
    /// The store confirms the host: the session may proceed.
    Verified,
    /// The store does not know the host: the operator has to decide.
    Consult(UnknownHost),
    /// The host is turned away with this error.
    Rejected(ConnectError),
}

/// What follows from the store's answer about a host that presented `key`.
/// The fingerprint is looked at for an unknown host only.
pub open spec fn host_decision(check: HostCheck, key: HostKey, fingerprint: Option<String>)
    -> HostStep {
    match check {
        HostCheck::Match => HostStep::Verified,
        HostCheck::Mismatch => HostStep::Rejected(ConnectError::IdentityMismatch),
        HostCheck::Failure => HostStep::Rejected(ConnectError::TrustStore(StoreFault::Check)),
        HostCheck::NotFound => match fingerprint {
            Some(text) => HostStep::Consult(UnknownHost { key, fingerprint: text }),
            None => HostStep::Rejected(ConnectError::Protocol(ProtocolFault::NoFingerprint)),
        },
    }
}

/// Whether `step` can come out of examining a host against a store with these
/// entries, when the session reported `key` and, if it was asked, the
/// fingerprint `fingerprint`, and the store answered `check`.
pub open spec fn examined(
    entries: Seq<KnownEntry>,
    destination: Seq<char>,
    port: u16,
    key: Option<HostKey>,
    check: HostCheck,
    fingerprint: Option<String>,
    step: HostStep,
) -> bool {
    match key {
        None => step == HostStep::Rejected(ConnectError::Protocol(ProtocolFault::NoHostKey)),
        Some(key) => {
            &&& lookup_answer(entries, destination, port, key.bytes@, check)
            &&& fingerprint matches Some(text) ==> is_fingerprint(text@)
            &&& step == host_decision(check, key, fingerprint)
        },
    }
}

/// The key that the remote host presented in the handshake, with its kind,
/// if the session has one: what `ssh2::Session::host_key` reports.
pub uninterp spec fn session_reported_key(session: ssh2::Session) -> Option<HostKey>;

/// Whether `step` is what examining the host behind `session` comes to, when
/// the store answered `check` and, for an unknown host, the fingerprint
/// `fingerprint` was obtained: the key examined is the session's, and the
/// fingerprint to show is the session's too.
pub open spec fn examined_by(
    session: ssh2::Session,
    entries: Seq<KnownEntry>,
    destination: Seq<char>,
    port: u16,
    check: HostCheck,
    fingerprint: Option<String>,
    step: HostStep,
) -> bool {
    &&& examined(
        entries,
        destination,
        port,
        session_reported_key(session),
        check,
        fingerprint,
        step,
    )
    &&& check == HostCheck::NotFound ==> text_view(fingerprint) == session_fingerprint(session)
}

/// `ssh2::Session::host_key`: the key that the remote host presented in the
/// handshake, with its kind, if the session has one. It is read off the
/// session and nothing else.
#[verifier::external_body]
fn session_host_key(session: &ssh2::Session) -> (r: Option<HostKey>)
    ensures
        r == session_reported_key(*session),
{
    let (bytes, kind) = session.host_key()?;
    let kind = match kind {
        ssh2::HostKeyType::Unknown => HostKeyKind::Unknown,
        ssh2::HostKeyType::Rsa => HostKeyKind::Rsa,
        ssh2::HostKeyType::Dss => HostKeyKind::Dss,
        ssh2::HostKeyType::Ecdsa256 => HostKeyKind::Ecdsa256,
        ssh2::HostKeyType::Ecdsa384 => HostKeyKind::Ecdsa384,
        ssh2::HostKeyType::Ecdsa521 => HostKeyKind::Ecdsa521,
        ssh2::HostKeyType::Ed25519 => HostKeyKind::Ed25519,
    };
    Some(HostKey { bytes: bytes.to_vec(), kind })
}

/// Draws the consequence of the store's answer: a match verifies the host, a
/// mismatch and a failed lookup reject it, and an unknown host goes before the
/// operator with its fingerprint, or is rejected if there is none to show.
pub fn decide_host(check: HostCheck, key: HostKey, fingerprint: Option<String>) -> (step: HostStep)
    ensures
        step == host_decision(check, key, fingerprint),
{
    match check {
        HostCheck::Match => HostStep::Verified,
        HostCheck::Mismatch => HostStep::Rejected(ConnectError::IdentityMismatch),
        HostCheck::Failure => HostStep::Rejected(ConnectError::TrustStore(StoreFault::Check)),
        HostCheck::NotFound => match fingerprint {
            Some(text) => HostStep::Consult(UnknownHost { key, fingerprint: text }),
            None => HostStep::Rejected(ConnectError::Protocol(ProtocolFault::NoFingerprint)),
        },
    }
}

/// Examines the host behind a handshaken `session` against the store: reads
/// the session's host key, looks it up for `destination` on `port`, and, for
/// an unknown host only, obtains the session's fingerprint to show. Neither
/// the store nor the operator's console is touched.
pub fn examine_host(
    session: &ssh2::Session,
    store: &ssh2::KnownHosts,
    destination: &str,
    port: u16,
) -> (step: HostStep)
    ensures
        exists|check: HostCheck, fingerprint: Option<String>| #[trigger]
            examined_by(
                *session,
                known_hosts_entries(*store),
                destination@,
                port,
                check,
                fingerprint,
                step,
            ),
{
    let key = match session_host_key(session) {
        Some(key) => key,
        None => {
            let step = HostStep::Rejected(ConnectError::Protocol(ProtocolFault::NoHostKey));
            assert(examined_by(
                *session,
                known_hosts_entries(*store),
                destination@,
                port,
                HostCheck::Failure,
                None,
                step,
            ));
            return step;
        },
    };
    let check = check_host(store, destination, port, &key);
    let fingerprint = match check {
        HostCheck::NotFound => host_fingerprint(session),
        _ => None,
    };
    let ghost shown = fingerprint;
    let step = decide_host(check, key, fingerprint);
    assert(examined_by(
        *session,
        known_hosts_entries(*store),
        destination@,
        port,
        check,
        shown,
        step,
    ));
    step
}

/// The lines that announce a changed host key.
pub open spec fn mismatch_banner() -> Seq<Seq<char>> {
    seq![
        "####################################################"@,
        "# WARNING: REMOTE HOST IDENTIFICATION HAS CHANGED! #"@,
        "####################################################"@,
    ]
}

/// The warning that goes with a rejection: the banner for a changed host key,
/// and nothing for any other error.
pub open spec fn warning_text(error: ConnectError) -> Seq<Seq<char>> {
    if error == ConnectError::IdentityMismatch {
        mismatch_banner()
    } else {
        Seq::empty()
    }
}

/// The characters of each of `lines`.
pub open spec fn lines_view(lines: Seq<String>) -> Seq<Seq<char>> {
    Seq::new(lines.len(), |i: int| lines[i]@)
}

/// The lines to put before the operator, on the error stream, when a host is
/// rejected with `error`. A changed host key is announced so that it cannot be
/// overlooked; the other errors speak for themselves.
pub fn warning_lines(error: ConnectError) -> (lines: Vec<String>)
    ensures
        lines_view(lines@) == warning_text(error),
{
    let mut lines: Vec<String> = Vec::new();
    match error {
        ConnectError::IdentityMismatch => {
            lines.push(String::from_str("####################################################"));
            lines.push(String::from_str("# WARNING: REMOTE HOST IDENTIFICATION HAS CHANGED! #"));
            lines.push(String::from_str("####################################################"));
        },
        _ => {},
    }
    assert(lines_view(lines@) =~= warning_text(error));
    lines
}

/// Whether the operator said yes: an answer was obtained, and it is
/// affirmative.
pub open spec fn consented(answer: Option<&str>) -> bool {
    answer matches Some(line) && affirmative(line@)
}

/// Acts on the operator's answer about an unknown host, if one could be
/// obtained. A yes records the host's key in the store, which the caller then
/// has to write out; this succeeds for every host name free of NUL characters
/// and every key of at least one byte. Anything else rejects the host and
/// leaves the store as it was.
pub fn admit_host(
    store: &mut ssh2::KnownHosts,
    destination: &str,
    unknown: &UnknownHost,
    answer: Option<&str>,
) -> (r: Result<(), ConnectError>)
    ensures
        !consented(answer) ==> r == Err::<(), ConnectError>(ConnectError::UntrustedHost)
            && known_hosts_entries(*final(store)) == known_hosts_entries(*old(store)),
        consented(answer) ==> recorded(
            known_hosts_entries(*old(store)),
            known_hosts_entries(*final(store)),
            destination@,
            unknown.key,
            r,
        ),
{
    let yes = match answer {
        Some(line) => is_affirmative(line),
        None => false,
    };
    if yes {
        trust_host(store, destination, &unknown.key)
    } else {
        Err(ConnectError::UntrustedHost)
    }
}

/// A host that presents another key than the one the store holds for it is
/// rejected with `IdentityMismatch`, whichever key it presents and whether or
/// not a fingerprint is at hand. The operator is not asked, so that no answer
/// can change the outcome.
pub proof fn law_changed_key_is_rejected(key: HostKey, fingerprint: Option<String>)
    ensures
        host_decision(HostCheck::Mismatch, key, fingerprint) == HostStep::Rejected(
            ConnectError::IdentityMismatch,
        ),
{
}

/// A host whose key the store holds is verified at once, with nothing shown
/// to the operator and nothing asked.
pub proof fn law_known_key_is_verified(key: HostKey, fingerprint: Option<String>)
    ensures
        host_decision(HostCheck::Match, key, fingerprint) == HostStep::Verified,
{
}

/// The operator is consulted about a host only when the store does not know
/// it, and then about the very key that the host presented.
pub proof fn law_only_unknown_hosts_are_put_to_the_operator(
    check: HostCheck,
    key: HostKey,
    fingerprint: Option<String>,
)
    ensures
        host_decision(check, key, fingerprint) matches HostStep::Consult(unknown) ==> check
            == HostCheck::NotFound && unknown.key == key && fingerprint == Some(
            unknown.fingerprint,
        ),
{
}

/// What an examination that ended in `step` tells about the store: a host is
/// verified only on a match, consulted about only when it is not found and a
/// fingerprint can be shown, and a mismatch always ends in `IdentityMismatch`.
pub proof fn law_examination(
    entries: Seq<KnownEntry>,
    destination: Seq<char>,
    port: u16,
    key: Option<HostKey>,
    check: HostCheck,
    fingerprint: Option<String>,
    step: HostStep,
)
    requires
        examined(entries, destination, port, key, check, fingerprint, step),
    ensures
        step is Verified ==> key is Some && check == HostCheck::Match,
        step matches HostStep::Consult(unknown) ==> key == Some(unknown.key) && check
            == HostCheck::NotFound && is_fingerprint(unknown.fingerprint@),
        key is Some && check == HostCheck::Mismatch ==> step == HostStep::Rejected(
            ConnectError::IdentityMismatch,
        ),
        key is Some ==> check == host_check(entries, destination, port, key->0.bytes@),
{
}

/// Once a host's key has been recorded, a later lookup of the same host with
/// the same key, on whatever port, neither misses the entry nor reports a
/// changed key. Where the host's name is short enough for the store to look
/// up, the lookup is a match and the host is verified with nothing asked; a
/// longer name fails the lookup.
pub proof fn law_recorded_host_is_recognised(
    before: Seq<KnownEntry>,
    after: Seq<KnownEntry>,
    destination: Seq<char>,
    port: u16,
    key: HostKey,
    answer: HostCheck,
    fingerprint: Option<String>,
)
    requires
        recorded(before, after, destination, key, Ok(())),
        lookup_answer(after, destination, port, key.bytes@, answer),
    ensures
        answer == HostCheck::Match || answer == HostCheck::Failure,
        pattern_fits(destination, port) ==> answer == HostCheck::Match && host_decision(
            answer,
            key,
            fingerprint,
        ) == HostStep::Verified,
        !pattern_fits(destination, port) ==> host_decision(answer, key, fingerprint)
            == HostStep::Rejected(ConnectError::TrustStore(StoreFault::Check)),
{
    lemma_recorded_is_held(before, after, destination, port, key);
}

/// A host for which the store holds a key, and which presents another key
/// that the store holds under no entry that may be for it, is neither verified
/// nor put before the operator. Where the question can be put to the store, the host is rejected
/// with `IdentityMismatch`; otherwise the lookup fails.
pub proof fn law_unknown_key_of_known_host_is_rejected(
    entries: Seq<KnownEntry>,
    destination: Seq<char>,
    port: u16,
    key: HostKey,
    answer: HostCheck,
    fingerprint: Option<String>,
)
    requires
        holds_other_key(entries, destination, port, key.bytes@),
        !may_hold_key(entries, destination, port, key.bytes@),
        lookup_answer(entries, destination, port, key.bytes@, answer),
    ensures
        answer == HostCheck::Mismatch || answer == HostCheck::Failure,
        askable(destination, key.bytes@) && pattern_fits(destination, port) ==> host_decision(
            answer,
            key,
            fingerprint,
        ) == HostStep::Rejected(ConnectError::IdentityMismatch),
        !(askable(destination, key.bytes@) && pattern_fits(destination, port)) ==> host_decision(
            answer,
            key,
            fingerprint,
        ) == HostStep::Rejected(ConnectError::TrustStore(StoreFault::Check)),
{
}

/// Trust on first use: once a key has been recorded for a host, the host is
/// held to it. If it later presents another key, one that the store did not
/// hold for it before either, it is rejected on whatever port it is reached: with
/// `IdentityMismatch` where the question can be put to the store.
pub proof fn law_recorded_key_is_enforced(
    before: Seq<KnownEntry>,
    after: Seq<KnownEntry>,
    destination: Seq<char>,
    port: u16,
    recorded_key: HostKey,
    presented: HostKey,
    answer: HostCheck,
    fingerprint: Option<String>,
)
    requires
        recorded(before, after, destination, recorded_key, Ok(())),
        presented.bytes@ != recorded_key.bytes@,
        !may_hold_key(before, destination, port, presented.bytes@),
        lookup_answer(after, destination, port, presented.bytes@, answer),
    ensures
        answer == HostCheck::Mismatch || answer == HostCheck::Failure,
        host_decision(answer, presented, fingerprint) is Rejected,
        presented.bytes@.len() > 0 && pattern_fits(destination, port) ==> host_decision(
            answer,
            presented,
            fingerprint,
        ) == HostStep::Rejected(ConnectError::IdentityMismatch),
{
    lemma_recorded_is_held(before, after, destination, port, recorded_key);
    let last = after.len() - 1;
    assert(names_host(after[last], destination, port) && after[last].key != presented.bytes@);
    law_unknown_key_of_known_host_is_rejected(
        after,
        destination,
        port,
        presented,
        answer,
        fingerprint,
    );
}

/// First contact: a host that no entry of the store names, in a store without
/// hashed entries, is not found, whichever key it presents. Where a
/// fingerprint can be shown, the host goes before the operator with the key
/// it presented; it is neither verified nor taken for a host whose key has
/// changed.
pub proof fn law_first_contact_is_put_to_the_operator(
    entries: Seq<KnownEntry>,
    destination: Seq<char>,
    port: u16,
    key: HostKey,
    answer: HostCheck,
    text: String,
)
    requires
        !may_concern(entries, destination, port),
        askable(destination, key.bytes@),
        pattern_fits(destination, port),
        lookup_answer(entries, destination, port, key.bytes@, answer),
    ensures
        answer == HostCheck::NotFound,
        host_decision(answer, key, Some(text)) == HostStep::Consult(
            UnknownHost { key, fingerprint: text },
        ),
{
}

/// A yes on first contact records the host: for a host name free of NUL
/// characters and a key of at least one byte, recording succeeds, and the
/// store gains exactly one entry, after those it held, for the host's bare
/// name with the key presented and its kind.
pub proof fn law_consent_records_the_host(
    before: Seq<KnownEntry>,
    after: Seq<KnownEntry>,
    destination: Seq<char>,
    key: HostKey,
    r: Result<(), ConnectError>,
)
    requires
        recorded(before, after, destination, key, r),
        askable(destination, key.bytes@),
    ensures
        r is Ok,
        after.len() == before.len() + 1,
        after.last() == plain_entry(destination, key.bytes@, key.kind, Seq::<char>::empty()),
        forall|i: int| 0 <= i < before.len() ==> after[i] == before[i],
{
}

} // verus!
