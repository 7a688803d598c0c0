//! The access token for the API.

use crate::errors::RuntimeErrors;
use vstd::prelude::*;
use vstd::string::*;

verus! {

/// The name of the environment variable that holds the access token.
pub fn token_name() -> (name: &'static str)
    ensures
        name@ == "GH_NOTIFIER_TOKEN"@,
{
    "GH_NOTIFIER_TOKEN"
}

/// Takes the access token from what the environment holds under
/// [`token_name`]: the token as it is, or the failure to find one.
pub fn get_token(value: Option<String>) -> (token: Result<String, RuntimeErrors>)
    ensures
        match value {
            Some(found) => token == Ok::<String, RuntimeErrors>(found),
            None => token matches Err(RuntimeErrors::MissingCredential(name)) && name@
                == "GH_NOTIFIER_TOKEN"@,
        },
{
    match value {
        Some(found) => Ok(found),
        None => Err(RuntimeErrors::MissingCredential(String::from_str(token_name()))),
    }
}

} // verus!
