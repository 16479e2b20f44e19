use vstd::prelude::*;

verus! {

/// Consecutive connectivity failures after which a server is considered
/// unhealthy and is skipped during selection.
pub const DEFAULT_FAILURE_THRESHOLD: u32 = 3;

/// Default bound, in milliseconds, on one bind or search round-trip.
pub const DEFAULT_TIMEOUT_MS: u64 = 1000;

/// One configured mapping from a raw directory group name to an
/// access-control rule token.
#[derive(Debug)]
pub struct GroupRule {
    pub group: String,
    pub rule: String,
}

/// Directory settings: an immutable snapshot, replaced as a whole and
/// never mutated in place.
#[derive(Debug)]
pub struct VkLdapSettings {
    /// Snapshot version, carried for diagnostics; newer snapshots replace
    /// older ones wholesale.
    pub version: u64,
    /// Prefix of the distinguished name derived from a username in bind mode.
    pub bind_dn_prefix: String,
    /// Suffix of the distinguished name derived from a username in bind mode.
    pub bind_dn_suffix: String,
    /// Base of the subtree searched for a user entry in search mode.
    pub search_base: String,
    /// Distinguished name of the service identity used to search.
    pub search_bind_dn: String,
    /// Password of the service identity used to search.
    pub search_bind_password: String,
    /// Ordered mapping rules from directory group names to rule tokens.
    pub group_rules: Vec<GroupRule>,
}

/// True of the snapshot that holds before any refresh was applied.
pub open spec fn is_default_ldap_settings(s: VkLdapSettings) -> bool {
    &&& s.version == 0
    &&& s.bind_dn_prefix@ == Seq::<char>::empty()
    &&& s.bind_dn_suffix@ == Seq::<char>::empty()
    &&& s.search_base@ == Seq::<char>::empty()
    &&& s.search_bind_dn@ == Seq::<char>::empty()
    &&& s.search_bind_password@ == Seq::<char>::empty()
    &&& s.group_rules@ == Seq::<GroupRule>::empty()
}

impl Default for VkLdapSettings {
    fn default() -> (r: Self)
        ensures
            is_default_ldap_settings(r),
    {
        let r = VkLdapSettings {
            version: 0,
            bind_dn_prefix: String::new(),
            bind_dn_suffix: String::new(),
            search_base: String::new(),
            search_bind_dn: String::new(),
            search_bind_password: String::new(),
            group_rules: Vec::new(),
        };
        proof {
            assert(r.group_rules@ =~= Seq::<GroupRule>::empty());
        }
        r
    }
}

/// Connection settings: an immutable snapshot governing how a single
/// directory session behaves and how server health is judged.
#[derive(Clone, Copy, Debug, PartialEq, Eq, Structural)]
pub struct VkConnectionSettings {
    /// Snapshot version, carried for diagnostics.
    pub version: u64,
    /// Bound on one bind or search round-trip, in milliseconds.
    pub timeout_ms: u64,
    /// Consecutive connectivity failures after which a server is unhealthy.
    pub failure_threshold: u32,
}

/// True of the connection snapshot that holds before any refresh.
pub open spec fn is_default_connection_settings(s: VkConnectionSettings) -> bool {
    &&& s.version == 0
    &&& s.timeout_ms == DEFAULT_TIMEOUT_MS
    &&& s.failure_threshold == DEFAULT_FAILURE_THRESHOLD
}

impl Default for VkConnectionSettings {
    fn default() -> (r: Self)
        ensures
            is_default_connection_settings(r),
    {
        VkConnectionSettings {
            version: 0,
            timeout_ms: DEFAULT_TIMEOUT_MS,
            failure_threshold: DEFAULT_FAILURE_THRESHOLD,
        }
    }
}

} // verus!
