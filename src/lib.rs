//! Coordination of one WebAuthn ceremony at a time between a browser front end
//! and an authenticator backend, together with the generic DOM query helpers
//! that share this crate.
use vstd::prelude::*;

pub mod errors;
pub mod prompt;
pub mod bridge;
pub mod ceremony;
pub mod transport;
pub mod results;
pub mod completion;
pub mod virtual_token;
pub mod laws;
pub mod dom_query;

verus! {

} // verus!
