use vstd::prelude::*;

verus! {

/// Why a login cannot be attempted.
#[derive(Debug, Clone, PartialEq)]
pub enum CredentialsError {
    Missing,
}

/// A login needs both a user name and a password.
pub fn validate_credentials(username: &str, password: &str) -> (r: Result<(), CredentialsError>)
    ensures
        r is Ok <==> (username@.len() > 0 && password@.len() > 0),
{
    if username.is_empty() || password.is_empty() {
        Err(CredentialsError::Missing)
    } else {
        Ok(())
    }
}

/// The shared scrubber has to be built again when it, the session, the storage or the
/// configuration is missing.
pub fn needs_recreation(has_instance: bool, has_session: bool, has_storage: bool, has_config: bool) -> (r: bool)
    ensures
        r == (!has_instance || !has_session || !has_storage || !has_config),
{
    !has_instance || !has_session || !has_storage || !has_config
}

/// What is missing to build the scrubber, checked in the order session, storage,
/// configuration.
pub fn missing_requirement(has_session: bool, has_storage: bool, has_config: bool) -> (r: Option<&'static str>)
    ensures
        !has_session ==> (r matches Some(m) && m@ == "No session available"@),
        has_session && !has_storage ==> (r matches Some(m) && m@ == "No storage available"@),
        has_session && has_storage && !has_config ==> (r matches Some(m) && m@ == "No config available"@),
        has_session && has_storage && has_config ==> r is None,
{
    if !has_session {
        Some("No session available")
    } else if !has_storage {
        Some("No storage available")
    } else if !has_config {
        Some("No config available")
    } else {
        None
    }
}

} // verus!
