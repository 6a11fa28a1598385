//! The types of the `ssh2` crate that pass through this crate unopened.

use vstd::prelude::*;

verus! {

#[verifier::external_type_specification]
#[verifier::external_body]
pub struct ExKnownHosts(ssh2::KnownHosts);

#[verifier::external_type_specification]
#[verifier::external_body]
pub struct ExSession(ssh2::Session);

#[verifier::external_type_specification]
#[verifier::external_body]
pub struct ExSshError(ssh2::Error);

} // verus!
