//! Fingerprints: the short text by which an operator recognises a host key.
//!
//! A fingerprint names a digest algorithm and gives the digest in base64,
//! separated by a colon. The stronger digest is shown when the session has it,
//! the weaker one otherwise.

use vstd::prelude::*;
use vstd::string::StringExecFns;

verus! {

/// A digest algorithm under which a session can report its host key.
#[derive(Clone, Copy, Debug, PartialEq, Eq, Structural)]
pub enum DigestKind {
    /// SHA-256, the preferred digest: 32 bytes.
    Sha256,
    /// SHA-1, the fallback digest: 20 bytes.
    Sha1,
}

impl DigestKind {
    /// The tag that opens a fingerprint made with this digest. The fallback
    /// digest goes under the tag `SHA128`.
    pub open spec fn label(self) -> Seq<char> {
        match self {
            DigestKind::Sha256 => "SHA256"@,
            DigestKind::Sha1 => "SHA128"@,
        }
    }

    /// The number of bytes in a digest of this kind.
    pub open spec fn digest_len(self) -> nat {
        match self {
            DigestKind::Sha256 => 32,
            DigestKind::Sha1 => 20,
        }
    }
}

/// The standard base64 encoding, with padding, of `bytes`.
pub uninterp spec fn base64_encoding(bytes: Seq<u8>) -> Seq<char>;

/// The fingerprint that shows `digest`, made with `kind`.
pub open spec fn fingerprint_text(kind: DigestKind, digest: Seq<u8>) -> Seq<char> {
    kind.label() + ":"@ + base64_encoding(digest)
}

/// The fingerprint to show given the two digests that may be at hand: the
/// strong one if present, else the weak one, else none.
pub open spec fn preferred_fingerprint(strong: Option<Seq<u8>>, weak: Option<Seq<u8>>) -> Option<
    Seq<char>,
> {
    match strong {
        Some(digest) => Some(fingerprint_text(DigestKind::Sha256, digest)),
        None => match weak {
            Some(digest) => Some(fingerprint_text(DigestKind::Sha1, digest)),
            None => None,
        },
    }
}

/// The bytes of a digest that may be missing.
pub open spec fn digest_view(digest: Option<Vec<u8>>) -> Option<Seq<u8>> {
    match digest {
        Some(bytes) => Some(bytes@),
        None => None,
    }
}

/// The characters of a text that may be missing.
pub open spec fn text_view(text: Option<String>) -> Option<Seq<char>> {
    match text {
        Some(t) => Some(t@),
        None => None,
    }
}

/// The digest of the session's host key under `kind`, if the session has one:
/// what `ssh2::Session::host_key_hash` reports.
pub uninterp spec fn session_digest_bytes(session: ssh2::Session, kind: DigestKind) -> Option<
    Seq<u8>,
>;

/// The fingerprint under which the session's host key is shown, if the
/// session has a digest of it: the strong digest is preferred.
pub open spec fn session_fingerprint(session: ssh2::Session) -> Option<Seq<char>> {
    preferred_fingerprint(
        session_digest_bytes(session, DigestKind::Sha256),
        session_digest_bytes(session, DigestKind::Sha1),
    )
}

/// Whether `text` is the fingerprint of some digest of the right length.
pub open spec fn is_fingerprint(text: Seq<char>) -> bool {
    exists|kind: DigestKind, digest: Seq<u8>|
        digest.len() == kind.digest_len() && text == #[trigger] fingerprint_text(kind, digest)
}

/// `base64::encode`: the encoding of a byte string, a function of the bytes
/// alone.
#[verifier::external_body]
fn base64_encode(bytes: &[u8]) -> (text: String)
    ensures
        text@ == base64_encoding(bytes@),
{
    base64::encode(bytes)
}

/// `ssh2::Session::host_key_hash`: the digest of the session's host key under
/// the given algorithm, if the session has one. It is read off the session
/// and nothing else. A digest that is returned has the algorithm's length.
#[verifier::external_body]
fn session_digest(session: &ssh2::Session, kind: DigestKind) -> (r: Option<Vec<u8>>)
    ensures
        digest_view(r) == session_digest_bytes(*session, kind),
        r matches Some(digest) ==> digest@.len() == kind.digest_len(),
{
    let hash = match kind {
        DigestKind::Sha256 => ssh2::HashType::Sha256,
        DigestKind::Sha1 => ssh2::HashType::Sha1,
    };
    session.host_key_hash(hash).map(|digest| digest.to_vec())
}

/// Writes out the fingerprint of a digest.
pub fn render_fingerprint(kind: DigestKind, digest: &[u8]) -> (text: String)
    ensures
        text@ == fingerprint_text(kind, digest@),
{
    let label = match kind {
        DigestKind::Sha256 => "SHA256",
        DigestKind::Sha1 => "SHA128",
    };
    let encoded = base64_encode(digest);
    String::from_str(label).concat(":").concat(encoded.as_str())
}

/// Picks the fingerprint to show from the digests at hand, preferring the
/// strong one.
pub fn select_fingerprint(strong: Option<Vec<u8>>, weak: Option<Vec<u8>>) -> (r: Option<String>)
    ensures
        text_view(r) == preferred_fingerprint(digest_view(strong), digest_view(weak)),
{
    match strong {
        Some(digest) => Some(render_fingerprint(DigestKind::Sha256, digest.as_slice())),
        None => match weak {
            Some(digest) => Some(render_fingerprint(DigestKind::Sha1, digest.as_slice())),
            None => None,
        },
    }
}

/// The fingerprint of the host key that `session` negotiated, if the session
/// can report a digest of it: that of the strong digest where the session has
/// it, else that of the weak one. The weak digest is only asked for when the
/// strong one is missing.
pub fn host_fingerprint(session: &ssh2::Session) -> (r: Option<String>)
    ensures
        text_view(r) == session_fingerprint(*session),
        r matches Some(text) ==> is_fingerprint(text@),
{
    let strong = session_digest(session, DigestKind::Sha256);
    let weak = if strong.is_none() {
        session_digest(session, DigestKind::Sha1)
    } else {
        None
    };
    proof {
        if strong is Some {
            assert(is_fingerprint(fingerprint_text(DigestKind::Sha256, strong->0@)));
        } else if weak is Some {
            assert(is_fingerprint(fingerprint_text(DigestKind::Sha1, weak->0@)));
        }
    }
    select_fingerprint(strong, weak)
}

} // verus!
