//! The secure session before the handshake: how it is set up.

use vstd::prelude::*;
use crate::error::ConnectError;

verus! {

/// The time, in milliseconds, after which a blocking operation on the session
/// gives up: ten seconds.
pub const OPERATION_TIMEOUT_MS: u32 = 10_000;

/// Whether the session asks the remote host for compression: it does.
pub const COMPRESSION: bool = true;

/// The time limit, in milliseconds, of the session's blocking operations, as
/// `ssh2::Session::timeout` reports it.
pub uninterp spec fn session_timeout_ms(session: ssh2::Session) -> u32;

/// Whether the session will ask the remote host for compression in the
/// handshake: the flag that `ssh2::Session::set_compress` sets.
pub uninterp spec fn session_compresses(session: ssh2::Session) -> bool;

/// `ssh2::Session::new`: a session that is not yet tied to any connection.
/// Short of running out of memory, the call succeeds.
#[verifier::external_body]
fn session_new() -> (r: Result<ssh2::Session, ssh2::Error>)
    ensures
        r is Ok,
{
    ssh2::Session::new()
}

/// `ssh2::Session::set_timeout`: sets the time limit, in milliseconds, of the
/// session's blocking operations, and leaves the compression flag alone.
#[verifier::external_body]
fn session_set_timeout(session: &mut ssh2::Session, timeout_ms: u32)
    ensures
        session_timeout_ms(*final(session)) == timeout_ms,
        session_compresses(*final(session)) == session_compresses(*old(session)),
{
    session.set_timeout(timeout_ms)
}

/// `ssh2::Session::set_compress`: sets whether the handshake will ask for
/// compression, and leaves the time limit alone.
#[verifier::external_body]
fn session_set_compress(session: &mut ssh2::Session, compress: bool)
    ensures
        session_compresses(*final(session)) == compress,
        session_timeout_ms(*final(session)) == session_timeout_ms(*old(session)),
{
    session.set_compress(compress)
}

/// Puts this crate's fixed policy on a session: the operation timeout of ten
/// seconds, and compression on.
pub fn apply_policy(session: &mut ssh2::Session)
    ensures
        session_timeout_ms(*final(session)) == OPERATION_TIMEOUT_MS,
        session_compresses(*final(session)) == COMPRESSION,
{
    session_set_timeout(session, OPERATION_TIMEOUT_MS);
    session_set_compress(session, COMPRESSION);
}

/// Creates a session with this crate's fixed policy: the operation timeout of
/// ten seconds, and compression on. The session still has to be given a
/// connection and put through the handshake.
pub fn new_session() -> (r: Result<ssh2::Session, ConnectError>)
    ensures
        r is Ok,
        r matches Ok(session) ==> session_timeout_ms(session) == OPERATION_TIMEOUT_MS
            && session_compresses(session) == COMPRESSION,
{
    match session_new() {
        Ok(session) => {
            let mut session = session;
            apply_policy(&mut session);
            Ok(session)
        },
        Err(_) => Err(ConnectError::Handshake),
    }
}

} // verus!
