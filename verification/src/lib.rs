//! Decisions for opening a remote shell session: where to connect, whether
//! the host is the one it claims to be, and how to authenticate the user.
//!
//! A session is established in four stages, each of which ends the attempt
//! when it fails:
//!
//! 1. [`connector`] picks the targets to dial, with one fallback to the
//!    default port when the caller named none.
//! 2. [`session`] fixes the policy of the secure session that is put on the
//!    connection.
//! 3. [`trust`] verifies the host's key against the known-hosts [`store`] on
//!    the principle of trust on first use, asking for the operator's
//!    [`consent`] to record an unknown host under its [`fingerprint`].
//! 4. [`auth`] drives authentication through the methods that the remote
//!    host offers; [`auth_laws`] states what holds of every such run.
//!
//! The crate opens no socket, reads no file and prints nothing. Connecting,
//! the handshake, reading and writing the known-hosts file and talking to the
//! operator are the caller's part: the connector and the authenticator name
//! the next action and take in its outcome, and the verifier works on a store
//! that the caller has loaded and will write out.

use vstd::prelude::*;

pub mod auth;
pub mod auth_laws;
pub mod connector;
pub mod consent;
pub mod error;
pub mod fingerprint;
pub mod methods;
pub mod outside;
pub mod port;
pub mod session;
pub mod store;
mod text;
pub mod trust;
