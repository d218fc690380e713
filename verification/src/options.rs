//! Connection options: each may come from a command-line flag, with an
//! environment variable as fallback. The caller reads the environment
//! and hands the outcome in; the precedence decisions live here.

use vstd::prelude::*;

use crate::errors::CliError;

verus! {

/// Resolves the server address: the flag wins; otherwise the
/// environment value; with neither set, an error naming both sources,
/// carrying the environment lookup's own message as details.
pub fn get_server_address(cmd_option: Option<String>, env_value: Result<String, String>) -> (r:
    Result<String, CliError>)
    ensures
        cmd_option matches Some(s) ==> (r matches Ok(v) && v@ == s@),
        cmd_option is None ==> match env_value {
            Ok(s) => r matches Ok(v) && v@ == s@,
            Err(m) => r matches Err(e) && e.error@ == "Command error"@ && e.message.deep_view()
                == Some("Neither --server nor ORC_ORTHANC_SERVER are set"@) && e.details.deep_view()
                == Some(m@),
        },
{
    match cmd_option {
        Some(s) => Ok(s),
        None => match env_value {
            Ok(s) => Ok(s),
            Err(m) => Err(
                CliError::new(
                    "Command error",
                    Some("Neither --server nor ORC_ORTHANC_SERVER are set"),
                    Some(m.as_str()),
                ),
            ),
        },
    }
}

/// The flag value when given, else the environment value, else nothing.
pub open spec fn fallback(cmd_option: Option<String>, env_value: Option<String>) -> Option<
    Seq<char>,
> {
    match cmd_option {
        Some(s) => Some(s@),
        None => env_value.deep_view(),
    }
}

/// Resolves the user name: the flag wins over the environment.
pub fn get_username(cmd_option: Option<String>, env_value: Option<String>) -> (r: Option<String>)
    ensures
        r.deep_view() == fallback(cmd_option, env_value),
{
    match cmd_option {
        Some(s) => Some(s),
        None => env_value,
    }
}

/// Resolves the password: the flag wins over the environment.
pub fn get_password(cmd_option: Option<String>, env_value: Option<String>) -> (r: Option<String>)
    ensures
        r.deep_view() == fallback(cmd_option, env_value),
{
    match cmd_option {
        Some(s) => Some(s),
        None => env_value,
    }
}

/// Resolves the identity-aware-proxy client id: the flag wins over the
/// environment.
pub fn get_iap_client_id(cmd_option: Option<String>, env_value: Option<String>) -> (r: Option<
    String,
>)
    ensures
        r.deep_view() == fallback(cmd_option, env_value),
{
    match cmd_option {
        Some(s) => Some(s),
        None => env_value,
    }
}

/// Resolves the service-account credentials path: the flag wins over
/// the environment.
pub fn get_google_application_credentials(
    cmd_option: Option<String>,
    env_value: Option<String>,
) -> (r: Option<String>)
    ensures
        r.deep_view() == fallback(cmd_option, env_value),
{
    match cmd_option {
        Some(s) => Some(s),
        None => env_value,
    }
}

} // verus!
