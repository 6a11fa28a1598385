//! The known-hosts store: the collection of host keys that the operator has
//! accepted before, kept by `ssh2::KnownHosts`.
//!
//! The collection itself lives in the outside crate. This module gives its
//! contents a mathematical model, states what a lookup and an insertion do to
//! that model, and builds the crate's own total operations on top.

use vstd::prelude::*;
use vstd::utf8::encode_utf8;
use crate::error::{ConnectError, StoreFault};
use crate::text::has_char;

verus! {

/// The algorithm family of a host key, as the handshake reports it.
#[derive(Clone, Copy, Debug, PartialEq, Eq, Structural)]
pub enum HostKeyKind {
    Unknown,
    Rsa,
    Dss,
    Ecdsa256,
    Ecdsa384,
    Ecdsa521,
    Ed25519,
}

/// The public key that a host presented during the handshake.
#[derive(Clone, Debug, PartialEq, Eq)]
pub struct HostKey {
    /// The raw key blob.
    pub bytes: Vec<u8>,
    /// The key's algorithm family.
    pub kind: HostKeyKind,
}

/// What the store says about a host and the key it presents.
#[derive(Clone, Copy, Debug, PartialEq, Eq, Structural)]
pub enum HostCheck {
    /// The store holds this very key for the host.
    Match,
    /// The store holds nothing for the host.
    NotFound,
    /// The store holds the host, but with another key.
    Mismatch,
    /// The store could not carry out the lookup.
    Failure,
}

/// One entry of the store, as far as lookups and insertions are concerned.
pub struct KnownEntry {
    /// Whether the entry keeps its host name as a salted hash rather than in
    /// the clear.
    pub hashed: bool,
    /// The host pattern as the entry spells it: a bare name, or a bracketed
    /// name with a port.
    pub host: Seq<char>,
    /// The raw key blob: the bytes whose encoding the entry stores. It is
    /// empty where the entry stores text that encodes no key.
    pub key: Seq<u8>,
    /// The key's algorithm family.
    pub kind: HostKeyKind,
    /// The free-text comment that follows the key.
    pub comment: Seq<char>,
}

/// The entries that a store holds, oldest first.
pub uninterp spec fn known_hosts_entries(store: ssh2::KnownHosts) -> Seq<KnownEntry>;

/// The answer of a store with these entries to a lookup of `host`, reached on
/// `port`, presenting `key`.
pub uninterp spec fn known_host_verdict(
    entries: Seq<KnownEntry>,
    host: Seq<char>,
    port: u16,
    key: Seq<u8>,
) -> HostCheck;

/// The entry that records `key` for `host` in the clear.
pub open spec fn plain_entry(
    host: Seq<char>,
    key: Seq<u8>,
    kind: HostKeyKind,
    comment: Seq<char>,
) -> KnownEntry {
    KnownEntry { hashed: false, host, key, kind, comment }
}

/// The digits of `n` in base ten, without leading zeros.
pub open spec fn decimal_digits(n: nat) -> Seq<char>
    decreases n,
{
    let last = ((n % 10) as u8 + 0x30) as char;
    if n < 10 {
        seq![last]
    } else {
        decimal_digits(n / 10).push(last)
    }
}

/// The pattern under which an entry names a host at one particular port: the
/// host in square brackets, a colon, and the port in decimal.
pub open spec fn bracketed(host: Seq<char>, port: u16) -> Seq<char> {
    seq!['['] + host + seq![']', ':'] + decimal_digits(port as nat)
}

/// Whether `entry` names, in the clear, the host `host` as reached on `port`:
/// by the bracketed pattern for that port, or by the bare name, which stands
/// for the host on any port.
pub open spec fn names_host(entry: KnownEntry, host: Seq<char>, port: u16) -> bool {
    !entry.hashed && (entry.host == host || entry.host == bracketed(host, port))
}

/// Whether some entry that names the host in the clear records exactly `key`.
pub open spec fn holds_key(entries: Seq<KnownEntry>, host: Seq<char>, port: u16, key: Seq<u8>)
    -> bool {
    exists|i: int|
        0 <= i < entries.len() && names_host(#[trigger] entries[i], host, port) && entries[i].key
            == key
}

/// Whether some entry that names the host in the clear records another key
/// than `key`.
pub open spec fn holds_other_key(
    entries: Seq<KnownEntry>,
    host: Seq<char>,
    port: u16,
    key: Seq<u8>,
) -> bool {
    exists|i: int|
        0 <= i < entries.len() && names_host(#[trigger] entries[i], host, port) && entries[i].key
            != key
}

/// Whether some entry that may be for the host records `key`: an entry that
/// names the host in the clear, or a hashed one, of which it cannot be told
/// which host it is for.
pub open spec fn may_hold_key(entries: Seq<KnownEntry>, host: Seq<char>, port: u16, key: Seq<u8>)
    -> bool {
    exists|i: int|
        0 <= i < entries.len() && ((#[trigger] entries[i]).hashed || names_host(
            entries[i],
            host,
            port,
        )) && entries[i].key == key
}

/// A lookup is only put to the store with a host name free of NUL characters
/// and a key of at least one byte.
pub open spec fn askable(host: Seq<char>, key: Seq<u8>) -> bool {
    !host.contains('\0') && key.len() > 0
}

/// The outcome of checking `host`, reached on `port` and presenting `key`,
/// against `entries`. A question that cannot be put to the store counts as a
/// failed lookup.
pub open spec fn host_check(
    entries: Seq<KnownEntry>,
    host: Seq<char>,
    port: u16,
    key: Seq<u8>,
) -> HostCheck {
    if askable(host, key) {
        known_host_verdict(entries, host, port, key)
    } else {
        HostCheck::Failure
    }
}

/// Whether the store can name or hide the host `host` as reached on `port`:
/// some entry is hashed, so that it cannot be told which host it is for, or
/// names the host in the clear.
pub open spec fn may_concern(entries: Seq<KnownEntry>, host: Seq<char>, port: u16) -> bool {
    exists|i: int|
        0 <= i < entries.len() && ((#[trigger] entries[i]).hashed || names_host(
            entries[i],
            host,
            port,
        ))
}

/// The length in bytes of the bracketed pattern for `host` and `port`, the
/// host name being written in UTF-8.
pub open spec fn pattern_len(host: Seq<char>, port: u16) -> nat {
    encode_utf8(host).len() + 3 + decimal_digits(port as nat).len()
}

/// Whether the bracketed pattern for `host` and `port` fits the room that a
/// lookup has for it: 269 bytes.
pub open spec fn pattern_fits(host: Seq<char>, port: u16) -> bool {
    pattern_len(host, port) < 270
}

/// What the store's answer owes to its entries and to the question.
///
/// - A question that can be put to the store fails exactly when the pattern
///   of host and port does not fit.
/// - Where an entry names the host in the clear with the key presented, the
///   answer is `Match`.
/// - Where an entry names the host in the clear with another key, and no
///   entry that may be for the host records the key presented, the answer is
///   `Mismatch`.
/// - Where no entry is hashed and none names the host, the answer is
///   `NotFound`.
///
/// In the last three cases the lookup may fail instead.
pub open spec fn answer_fits(
    entries: Seq<KnownEntry>,
    host: Seq<char>,
    port: u16,
    key: Seq<u8>,
    r: HostCheck,
) -> bool {
    &&& askable(host, key) ==> (r == HostCheck::Failure <==> !pattern_fits(host, port))
    &&& holds_key(entries, host, port, key) ==> r == HostCheck::Match || r == HostCheck::Failure
    &&& holds_other_key(entries, host, port, key) && !may_hold_key(entries, host, port, key)
        ==> r == HostCheck::Mismatch || r == HostCheck::Failure
    &&& !may_concern(entries, host, port) ==> r == HostCheck::NotFound || r == HostCheck::Failure
}

/// Whether `r` can be the answer to a lookup: it is the store's verdict, and
/// it fits the entries.
pub open spec fn lookup_answer(
    entries: Seq<KnownEntry>,
    host: Seq<char>,
    port: u16,
    key: Seq<u8>,
    r: HostCheck,
) -> bool {
    &&& r == host_check(entries, host, port, key)
    &&& answer_fits(entries, host, port, key, r)
}

/// Whether `after` and `r` can be the result of recording `key` for `host` in
/// a store that held `before`. A key of at least one byte is recorded for a
/// host name free of NUL characters, and nothing else is: what can be asked
/// of the store can be recorded in it. On success one entry in the clear is
/// appended; on failure nothing changes.
pub open spec fn recorded(
    before: Seq<KnownEntry>,
    after: Seq<KnownEntry>,
    host: Seq<char>,
    key: HostKey,
    r: Result<(), ConnectError>,
) -> bool {
    &&& r is Ok ==> after == before.push(
        plain_entry(host, key.bytes@, key.kind, Seq::<char>::empty()),
    )
    &&& r matches Err(e) ==> e == ConnectError::TrustStore(StoreFault::Save) && after == before
    &&& r is Ok <==> askable(host, key.bytes@)
}

/// `ssh2::Session::known_hosts`: a fresh collection tied to the session. It
/// starts out empty. Short of running out of memory, the call succeeds.
#[verifier::external_body]
fn session_known_hosts(session: &ssh2::Session) -> (r: Result<ssh2::KnownHosts, ssh2::Error>)
    ensures
        r is Ok,
        r matches Ok(store) ==> known_hosts_entries(store) == Seq::<KnownEntry>::empty(),
{
    session.known_hosts()
}

/// `ssh2::KnownHosts::check_port`: the lookup of a host, a port and a raw key.
/// Short of running out of memory, the answer depends on the entries and the
/// three arguments alone. The bracketed pattern of host and port is written
/// into a buffer of 270 bytes, and the lookup fails if it does not fit there
/// with its closing NUL; nothing else makes it fail. The lookup goes through
/// the entries for the bracketed pattern, then for the bare name. An entry
/// that names the host and stores the key presented ends it with `Match`; if
/// there is none, an entry that names the host with another key makes it
/// `Mismatch`; if no entry names the host at all, it is `NotFound`. The
/// outside function panics on a NUL in the host name and reads past an empty
/// key, hence the precondition.
#[verifier::external_body]
fn store_check(store: &ssh2::KnownHosts, host: &str, port: u16, key: &[u8]) -> (r: HostCheck)
    requires
        askable(host@, key@),
    ensures
        r == known_host_verdict(known_hosts_entries(*store), host@, port, key@),
        answer_fits(known_hosts_entries(*store), host@, port, key@, r),
{
    match store.check_port(host, port, key) {
        ssh2::CheckResult::Match => HostCheck::Match,
        ssh2::CheckResult::NotFound => HostCheck::NotFound,
        ssh2::CheckResult::Mismatch => HostCheck::Mismatch,
        ssh2::CheckResult::Failure => HostCheck::Failure,
    }
}

/// `ssh2::KnownHosts::add`, with the key format that `ssh2` derives from the
/// host key's kind: on success one entry in the clear is appended after the
/// existing ones; on failure the collection is as it was. A NUL in the host
/// name or in the comment is refused; short of running out of memory, nothing
/// else is, since every key format that `ssh2` derives names a key type. The
/// outside function reads past an empty key, hence the precondition.
#[verifier::external_body]
fn store_add(
    store: &mut ssh2::KnownHosts,
    host: &str,
    key: &[u8],
    kind: HostKeyKind,
    comment: &str,
) -> (r: Result<(), ssh2::Error>)
    requires
        key@.len() > 0,
    ensures
        r is Ok ==> known_hosts_entries(*final(store)) == known_hosts_entries(*old(store)).push(
            plain_entry(host@, key@, kind, comment@),
        ),
        r is Err ==> known_hosts_entries(*final(store)) == known_hosts_entries(*old(store)),
        r is Err <==> host@.contains('\0') || comment@.contains('\0'),
{
    let kind = match kind {
        HostKeyKind::Unknown => ssh2::HostKeyType::Unknown,
        HostKeyKind::Rsa => ssh2::HostKeyType::Rsa,
        HostKeyKind::Dss => ssh2::HostKeyType::Dss,
        HostKeyKind::Ecdsa256 => ssh2::HostKeyType::Ecdsa256,
        HostKeyKind::Ecdsa384 => ssh2::HostKeyType::Ecdsa384,
        HostKeyKind::Ecdsa521 => ssh2::HostKeyType::Ecdsa521,
        HostKeyKind::Ed25519 => ssh2::HostKeyType::Ed25519,
    };
    store.add(host, key, comment, kind.into())
}

/// Where the store is kept, relative to the user's home directory.
pub open spec fn store_location_text() -> Seq<char> {
    ".ssh/known_hosts"@
}

/// The path of the store's file, relative to the user's home directory.
pub fn store_location() -> (path: &'static str)
    ensures
        path@ == store_location_text(),
{
    ".ssh/known_hosts"
}

/// Creates the store that goes with `session`. It holds no entries until the
/// caller reads a file into it.
pub fn open_store(session: &ssh2::Session) -> (r: Result<ssh2::KnownHosts, ConnectError>)
    ensures
        r is Ok,
        r matches Ok(store) ==> known_hosts_entries(store) == Seq::<KnownEntry>::empty(),
{
    match session_known_hosts(session) {
        Ok(store) => Ok(store),
        Err(_) => Err(ConnectError::TrustStore(StoreFault::Load)),
    }
}

/// Looks `destination` up in the store, as reached on `port` and presenting
/// `key`. The store is not changed.
pub fn check_host(store: &ssh2::KnownHosts, destination: &str, port: u16, key: &HostKey) -> (r:
    HostCheck)
    ensures
        lookup_answer(known_hosts_entries(*store), destination@, port, key.bytes@, r),
{
    if key.bytes.len() == 0 || has_char(destination, '\0') {
        HostCheck::Failure
    } else {
        store_check(store, destination, port, key.bytes.as_slice())
    }
}

/// Records `key` for `destination` in the store, under the bare host name and
/// without a comment. Where the store refuses, it is left as it was.
pub fn trust_host(store: &mut ssh2::KnownHosts, destination: &str, key: &HostKey) -> (r: Result<
    (),
    ConnectError,
>)
    ensures
        recorded(
            known_hosts_entries(*old(store)),
            known_hosts_entries(*final(store)),
            destination@,
            *key,
            r,
        ),
{
    if key.bytes.len() == 0 {
        return Err(ConnectError::TrustStore(StoreFault::Save));
    }
    let added = store_add(store, destination, key.bytes.as_slice(), key.kind, "");
    proof {
        reveal_strlit("");
        assert(""@ =~= Seq::<char>::empty());
    }
    match added {
        Ok(()) => Ok(()),
        Err(_) => Err(ConnectError::TrustStore(StoreFault::Save)),
    }
}

/// A store that has just recorded a key for a host holds that key for the
/// host on every port, and holds for the host no key but that one and those
/// that it may have held for it before.
pub proof fn lemma_recorded_is_held(
    before: Seq<KnownEntry>,
    after: Seq<KnownEntry>,
    host: Seq<char>,
    port: u16,
    key: HostKey,
)
    requires
        recorded(before, after, host, key, Ok(())),
    ensures
        holds_key(after, host, port, key.bytes@),
        forall|other: Seq<u8>| #[trigger]
            may_hold_key(after, host, port, other) ==> other == key.bytes@ || may_hold_key(
                before,
                host,
                port,
                other,
            ),
{
    let last = after.len() - 1;
    assert(names_host(after[last], host, port) && after[last].key == key.bytes@);
    assert forall|other: Seq<u8>| #[trigger] may_hold_key(after, host, port, other) implies other
        == key.bytes@ || may_hold_key(before, host, port, other) by {
        let i = choose|i: int|
            0 <= i < after.len() && ((#[trigger] after[i]).hashed || names_host(
                after[i],
                host,
                port,
            )) && after[i].key == other;
        if i < last {
            assert(before[i] == after[i]);
        }
    }
}

} // verus!
