use vstd::prelude::*;

use crate::server::VkLdapServer;

verus! {

/// The record after a successful attempt: the consecutive-failure count is
/// reset and the server is healthy again.
pub open spec fn success_step(s: VkLdapServer, stamp: u64) -> VkLdapServer {
    VkLdapServer { url: s.url, failures: 0, healthy: true, last_checked: Option::Some(stamp) }
}

/// The record after a failed connectivity attempt (timeout, refused
/// connection, transport failure): the count grows by one, saturating, and
/// the server is healthy exactly while the count is below the threshold.
pub open spec fn connectivity_failure_step(s: VkLdapServer, threshold: u32, stamp: u64) -> VkLdapServer {
    let f: u32 = if s.failures < u32::MAX { (s.failures + 1) as u32 } else { u32::MAX };
    VkLdapServer { url: s.url, failures: f, healthy: f < threshold, last_checked: Option::Some(stamp) }
}

/// The record after a credential-level rejection: the server was reached
/// and answered, so neither the count nor the status moves.
pub open spec fn credential_failure_step(s: VkLdapServer, stamp: u64) -> VkLdapServer {
    VkLdapServer {
        url: s.url,
        failures: s.failures,
        healthy: s.healthy,
        last_checked: Option::Some(stamp),
    }
}

/// The status field never contradicts the count: healthy exactly while the
/// count is below the threshold. Holds of a new server and is preserved by
/// every step taken with the same threshold.
pub open spec fn health_consistent(s: VkLdapServer, threshold: u32) -> bool {
    s.healthy == (s.failures < threshold)
}

/// Record a successful attempt against one server.
pub fn record_success(s: &mut VkLdapServer, stamp: u64)
    ensures
        *final(s) == success_step(*old(s), stamp),
{
    s.failures = 0;
    s.healthy = true;
    s.last_checked = Option::Some(stamp);
}

/// Record a failed connectivity attempt against one server.
pub fn record_connectivity_failure(s: &mut VkLdapServer, threshold: u32, stamp: u64)
    ensures
        *final(s) == connectivity_failure_step(*old(s), threshold, stamp),
{
    if s.failures < u32::MAX {
        s.failures = s.failures + 1;
    }
    s.healthy = s.failures < threshold;
    s.last_checked = Option::Some(stamp);
}

/// Record a credential-level rejection against one server.
pub fn record_credential_failure(s: &mut VkLdapServer, stamp: u64)
    ensures
        *final(s) == credential_failure_step(*old(s), stamp),
{
    s.last_checked = Option::Some(stamp);
}

/// A server that fails `threshold` consecutive connectivity attempts is no
/// longer healthy. With the default threshold this is three failures in a
/// row, starting from a clean record.
pub proof fn lemma_three_failures_exclude(
    s: VkLdapServer,
    t1: u64,
    t2: u64,
    t3: u64,
)
    requires
        s.failures == 0,
    ensures
        !connectivity_failure_step(
            connectivity_failure_step(connectivity_failure_step(s, 3, t1), 3, t2),
            3,
            t3,
        ).healthy,
{
}

/// Once unhealthy, a server stays unhealthy under further connectivity
/// failures and under credential-level rejections; only a success restores
/// it. Requires the record to be consistent with the threshold, which every
/// step preserves.
pub proof fn lemma_excluded_until_success(s: VkLdapServer, threshold: u32, stamp: u64)
    requires
        health_consistent(s, threshold),
        !s.healthy,
    ensures
        !connectivity_failure_step(s, threshold, stamp).healthy,
        !credential_failure_step(s, stamp).healthy,
        success_step(s, stamp).healthy,
{
}

/// Credential-level rejections never change a server's health: a reachable
/// server that rejects a password is working correctly.
pub proof fn lemma_credential_failure_never_excludes(s: VkLdapServer, stamp: u64)
    ensures
        credential_failure_step(s, stamp).healthy == s.healthy,
        credential_failure_step(s, stamp).failures == s.failures,
{
}

/// Every step keeps the status consistent with the count, so the
/// preconditions of the exclusion law are maintained across any sequence
/// of recorded attempts.
pub proof fn lemma_steps_preserve_consistency(s: VkLdapServer, threshold: u32, stamp: u64)
    requires
        health_consistent(s, threshold),
        threshold >= 1,
    ensures
        health_consistent(success_step(s, stamp), threshold),
        health_consistent(connectivity_failure_step(s, threshold, stamp), threshold),
        health_consistent(credential_failure_step(s, stamp), threshold),
{
}

} // verus!
