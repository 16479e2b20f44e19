use vstd::prelude::*;

verus! {

/// Classified outcome of a failed directory operation.
///
/// Connectivity and credential failures are classified where the attempt
/// runs and surface as typed values; they never cross the boundary between
/// the background context and the serving thread as raw errors.
#[derive(Clone, Copy, Debug, PartialEq, Eq, Structural)]
pub enum VkLdapError {
    /// The background execution context has not started or is shutting down.
    SchedulerNotReady,
    /// The directory has no entry for the requested username.
    UserNotFound,
    /// No directory server could be reached (timeout, refused connection).
    ServerUnavailable,
    /// A server was reached but rejected the presented credentials.
    CredentialsRejected,
    /// The access-control command built from a successful result failed.
    AccessControlApplicationFailure,
    /// A result was expected but none was delivered.
    UnknownError,
}

impl VkLdapError {
    /// Detailed classification text, meant only for the operational log.
    pub fn log_message(&self) -> (r: String)
        ensures
            *self is SchedulerNotReady ==> r@ == "scheduler is not ready"@,
            *self is UserNotFound ==> r@ == "user not found in the directory"@,
            *self is ServerUnavailable ==> r@ == "no directory server is reachable"@,
            *self is CredentialsRejected ==> r@ == "directory rejected the credentials"@,
            *self is AccessControlApplicationFailure ==> r@ == "failed to apply access-control rules"@,
            *self is UnknownError ==> r@ == "unknown error during authentication, check the server logs"@,
    {
        match self {
            VkLdapError::SchedulerNotReady => String::from_str("scheduler is not ready"),
            VkLdapError::UserNotFound => String::from_str("user not found in the directory"),
            VkLdapError::ServerUnavailable => String::from_str("no directory server is reachable"),
            VkLdapError::CredentialsRejected => String::from_str("directory rejected the credentials"),
            VkLdapError::AccessControlApplicationFailure => String::from_str(
                "failed to apply access-control rules",
            ),
            VkLdapError::UnknownError => String::from_str(
                "unknown error during authentication, check the server logs",
            ),
        }
    }
}

/// Generic rejection text shown to a client.
///
/// It deliberately does not distinguish a wrong password from an unknown
/// user or an unreachable server, so a caller cannot enumerate accounts.
pub fn rejection_message() -> (r: String)
    ensures
        r@ == "authentication failed"@,
{
    String::from_str("authentication failed")
}

} // verus!
