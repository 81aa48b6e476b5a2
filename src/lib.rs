//! Identity verification and role provisioning for a community server.
//!
//! A member proves an institutional identity either with a one-time code that
//! was mailed to the address the identity service gives for that identity, or
//! with the shared passphrase of an open registration window. The library
//! holds the decisions of both paths; the platform, the mail transport and the
//! database are driven by the caller.
use vstd::prelude::*;

pub mod error;
pub mod text;
pub mod directory;
pub mod roles;
pub mod store;
pub mod auth;
pub mod window;
pub mod laws;

verus! {

} // verus!
