//! The HTTP status codes the service answers with.

use vstd::prelude::*;

verus! {

/// The request was carried out.
pub const OK: u16 = 200;

/// The answer is found elsewhere: a redirect.
pub const SEE_OTHER: u16 = 303;

/// The request is malformed.
pub const BAD_REQUEST: u16 = 400;

/// The request lacks valid credentials.
pub const UNAUTHORIZED: u16 = 401;

/// The service failed.
pub const INTERNAL_SERVER_ERROR: u16 = 500;

} // verus!
