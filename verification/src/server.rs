use vstd::prelude::*;

verus! {

/// One configured directory endpoint together with its health state.
///
/// The health fields are owned by the failure detector: a consecutive
/// connectivity-failure count, the status derived from it, and the logical
/// time of the last attempt against this server.
#[derive(Debug)]
pub struct VkLdapServer {
    /// Text of the URL identifying the endpoint.
    pub url: String,
    /// Consecutive connectivity failures since the last success.
    pub failures: u32,
    /// False once the failure count has reached the configured threshold;
    /// true again only after a successful attempt.
    pub healthy: bool,
    /// Logical time of the last attempt, if any was made.
    pub last_checked: Option<u64>,
}

impl VkLdapServer {
    /// A freshly added server: healthy, with no recorded attempt.
    pub fn new(url: String) -> (s: Self)
        ensures
            s.url == url,
            s.failures == 0,
            s.healthy,
            s.last_checked is None,
    {
        VkLdapServer { url, failures: 0, healthy: true, last_checked: None }
    }

    /// A copy of this server's record, for health-status snapshots.
    pub fn snapshot(&self) -> (s: Self)
        ensures
            s == *self,
    {
        VkLdapServer {
            url: self.url.clone(),
            failures: self.failures,
            healthy: self.healthy,
            last_checked: self.last_checked,
        }
    }
}

/// The position of a server's last attempt on the logical clock, with a
/// never-checked server ordered before every checked one.
pub open spec fn stamp_of(s: VkLdapServer) -> int {
    match s.last_checked {
        Option::None => -1,
        Option::Some(t) => t as int,
    }
}

} // verus!
