//! Who may use the service.

use vstd::prelude::*;
use crate::config::Opt;
use crate::error::WebError;
use crate::text::str_equal;

verus! {

/// Whether a request that presents `creds`, a user name and a password,
/// may pass. Where the service has both a user name and a password
/// configured, the request has to present exactly these; where it lacks
/// either, every request passes.
pub open spec fn spec_authorized(opt: Opt, creds: Option<(Seq<char>, Seq<char>)>) -> bool {
    match (opt.auth_user, opt.auth_pass) {
        (Some(user), Some(pass)) => creds == Some((user@, pass@)),
        _ => true,
    }
}

/// Lets a request pass or fails it with `AuthenticationFailed`, by the
/// user name and password it presents.
pub fn auth_validator(opt: &Opt, creds: Option<(&str, &str)>) -> (verdict: Result<(), WebError>)
    ensures
        verdict is Ok <==> spec_authorized(
            *opt,
            match creds {
                Some((user, pass)) => Some((user@, pass@)),
                None => None,
            },
        ),
        verdict matches Err(error) ==> error == WebError::AuthenticationFailed,
{
    match (&opt.auth_user, &opt.auth_pass) {
        (Some(expected_user), Some(expected_pass)) => {
            match creds {
                Some((user, pass)) => {
                    if str_equal(user, expected_user.as_str()) && str_equal(
                        pass,
                        expected_pass.as_str(),
                    ) {
                        Ok(())
                    } else {
                        Err(WebError::AuthenticationFailed)
                    }
                },
                None => Err(WebError::AuthenticationFailed),
            }
        },
        _ => Ok(()),
    }
}

} // verus!
