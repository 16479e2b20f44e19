//! Directory-service authentication for an in-memory data-store server.
//!
//! The library is the decision core of an authentication bridge: it owns
//! the scheduler-readiness gating, the server list and its health tracking,
//! the settings snapshots, the two directory authentication flows, and the
//! translation of a directory result into access-control commands. All
//! blocking work — the actual network round-trips and the host server's
//! command interface — stays outside; the caller performs it and hands the
//! outcome back as plain values.
//!
//! Administrative operations model the synchronous submission path: the
//! administrative caller blocks until the background context has applied
//! the change, so here each one applies its change before returning, and
//! no authentication task can ever observe a half-applied snapshot.

use vstd::prelude::*;

pub mod auth;
pub mod context;
pub mod errors;
pub mod failure_detector;
pub mod scheduler;
pub mod server;
pub mod settings;

use crate::context::VkLdapContext;
use crate::errors::VkLdapError;
use crate::scheduler::DispatchMode;
use crate::scheduler::VkLdapTask;
use crate::scheduler::VkScheduler;
use crate::server::VkLdapServer;
use crate::settings::is_default_connection_settings;
use crate::settings::is_default_ldap_settings;
use crate::settings::VkConnectionSettings;
use crate::settings::VkLdapSettings;

verus! {

/// The whole subsystem's state: the scheduler with its task queue and the
/// directory context it serves.
#[derive(Debug)]
pub struct VkLdapState {
    pub scheduler: VkScheduler,
    pub context: VkLdapContext,
}

/// The state right after one authentication task was accepted: the
/// context untouched, the task appended to the queue, the task counter
/// advanced.
pub open spec fn task_submitted(
    old_st: VkLdapState,
    new_st: VkLdapState,
    username: String,
    password: String,
    mode: DispatchMode,
    want_groups: bool,
    map_rules: bool,
) -> bool {
    &&& new_st.context == old_st.context
    &&& new_st.scheduler.phase == old_st.scheduler.phase
    &&& new_st.scheduler.pending@ == old_st.scheduler.pending@.push(
        VkLdapTask {
            id: old_st.scheduler.next_task_id,
            username,
            password,
            mode,
            want_groups,
            map_rules,
        },
    )
    &&& new_st.scheduler.next_task_id == if old_st.scheduler.next_task_id < u64::MAX {
        old_st.scheduler.next_task_id + 1
    } else {
        u64::MAX as int
    }
}

impl VkLdapState {
    /// The state at module load: nothing started, nothing configured.
    pub fn new() -> (st: Self)
        ensures
            st.scheduler.phase is NotStarted,
            st.scheduler.pending@ == Seq::<VkLdapTask>::empty(),
            st.scheduler.next_task_id == 0,
            is_default_ldap_settings(st.context.ldap_settings),
            is_default_connection_settings(st.context.connection_settings),
            st.context.servers@ == Seq::<VkLdapServer>::empty(),
            st.context.attempt_clock == 0,
    {
        VkLdapState { scheduler: VkScheduler::new(), context: VkLdapContext::new() }
    }
}

/// Replace the directory settings snapshot. A benign no-op while the
/// background context is not running: calls during module load or
/// teardown must neither block nor fail.
pub fn refresh_ldap_settings(st: &mut VkLdapState, settings: VkLdapSettings)
    ensures
        !old(st).scheduler.is_ready_spec() ==> *final(st) == *old(st),
        old(st).scheduler.is_ready_spec() ==> {
            &&& final(st).context.ldap_settings == settings
            &&& final(st).context.connection_settings == old(st).context.connection_settings
            &&& final(st).context.servers == old(st).context.servers
            &&& final(st).context.attempt_clock == old(st).context.attempt_clock
            &&& final(st).scheduler == old(st).scheduler
        },
{
    if !st.scheduler.is_ready() {
        return ;
    }
    st.context.ldap_settings = settings;
}

/// Replace the directory settings snapshot unconditionally; used while
/// the module is loading, before the background context exists.
pub fn refresh_ldap_settings_blocking(st: &mut VkLdapState, settings: VkLdapSettings)
    ensures
        final(st).context.ldap_settings == settings,
        final(st).context.connection_settings == old(st).context.connection_settings,
        final(st).context.servers == old(st).context.servers,
        final(st).context.attempt_clock == old(st).context.attempt_clock,
        final(st).scheduler == old(st).scheduler,
{
    st.context.ldap_settings = settings;
}

/// Replace the connection settings snapshot; a benign no-op while the
/// background context is not running.
pub fn refresh_connection_settings(st: &mut VkLdapState, settings: VkConnectionSettings)
    ensures
        !old(st).scheduler.is_ready_spec() ==> *final(st) == *old(st),
        old(st).scheduler.is_ready_spec() ==> {
            &&& final(st).context.connection_settings == settings
            &&& final(st).context.ldap_settings == old(st).context.ldap_settings
            &&& final(st).context.servers == old(st).context.servers
            &&& final(st).context.attempt_clock == old(st).context.attempt_clock
            &&& final(st).scheduler == old(st).scheduler
        },
{
    if !st.scheduler.is_ready() {
        return ;
    }
    st.context.connection_settings = settings;
}

/// Replace the connection settings snapshot unconditionally; used while
/// the module is loading, before the background context exists.
pub fn refresh_connection_settings_blocking(st: &mut VkLdapState, settings: VkConnectionSettings)
    ensures
        final(st).context.connection_settings == settings,
        final(st).context.ldap_settings == old(st).context.ldap_settings,
        final(st).context.servers == old(st).context.servers,
        final(st).context.attempt_clock == old(st).context.attempt_clock,
        final(st).scheduler == old(st).scheduler,
{
    st.context.connection_settings = settings;
}

/// Remove every configured server. Succeeds without doing anything while
/// the background context is not running.
pub fn clear_server_list(st: &mut VkLdapState) -> (r: Result<(), VkLdapError>)
    ensures
        r is Ok,
        !old(st).scheduler.is_ready_spec() ==> *final(st) == *old(st),
        old(st).scheduler.is_ready_spec() ==> {
            &&& final(st).context.servers@ == Seq::<VkLdapServer>::empty()
            &&& final(st).context.ldap_settings == old(st).context.ldap_settings
            &&& final(st).context.connection_settings == old(st).context.connection_settings
            &&& final(st).context.attempt_clock == old(st).context.attempt_clock
            &&& final(st).scheduler == old(st).scheduler
        },
{
    if !st.scheduler.is_ready() {
        return Result::Ok(());
    }
    st.context.servers.clear();
    Result::Ok(())
}

/// Reset the whole context to its initial state: default snapshots, no
/// servers, clock at zero. Succeeds without doing anything while the
/// background context is not running.
pub fn reset_context(st: &mut VkLdapState) -> (r: Result<(), VkLdapError>)
    ensures
        r is Ok,
        !old(st).scheduler.is_ready_spec() ==> *final(st) == *old(st),
        old(st).scheduler.is_ready_spec() ==> {
            &&& is_default_ldap_settings(final(st).context.ldap_settings)
            &&& is_default_connection_settings(final(st).context.connection_settings)
            &&& final(st).context.servers@ == Seq::<VkLdapServer>::empty()
            &&& final(st).context.attempt_clock == 0
            &&& final(st).scheduler == old(st).scheduler
        },
{
    if !st.scheduler.is_ready() {
        return Result::Ok(());
    }
    st.context = VkLdapContext::new();
    Result::Ok(())
}

/// Add one directory server, identified by its URL text, with a clean
/// health record. Succeeds without doing anything while the background
/// context is not running.
pub fn add_server(st: &mut VkLdapState, server_url: String) -> (r: Result<(), VkLdapError>)
    ensures
        r is Ok,
        !old(st).scheduler.is_ready_spec() ==> *final(st) == *old(st),
        old(st).scheduler.is_ready_spec() ==> {
            &&& final(st).context.servers@ == old(st).context.servers@.push(
                VkLdapServer {
                    url: server_url,
                    failures: 0,
                    healthy: true,
                    last_checked: Option::None,
                },
            )
            &&& final(st).context.ldap_settings == old(st).context.ldap_settings
            &&& final(st).context.connection_settings == old(st).context.connection_settings
            &&& final(st).context.attempt_clock == old(st).context.attempt_clock
            &&& final(st).scheduler == old(st).scheduler
        },
{
    if !st.scheduler.is_ready() {
        return Result::Ok(());
    }
    st.context.servers.push(VkLdapServer::new(server_url));
    Result::Ok(())
}

/// A snapshot of every configured server with its health record, in
/// configuration order. Empty while the background context is not
/// running.
pub fn get_servers_health_status(st: &VkLdapState) -> (r: Result<Vec<VkLdapServer>, VkLdapError>)
    ensures
        !st.scheduler.is_ready_spec() ==> (r matches Ok(v) && v@ == Seq::<VkLdapServer>::empty()),
        st.scheduler.is_ready_spec() ==> (r matches Ok(v) && v@ == st.context.servers@),
{
    let mut v: Vec<VkLdapServer> = Vec::new();
    proof {
        assert(v@ =~= Seq::<VkLdapServer>::empty());
    }
    if !st.scheduler.is_ready() {
        return Result::Ok(v);
    }
    let mut i: usize = 0;
    while i < st.context.servers.len()
        invariant
            i <= st.context.servers@.len(),
            v@.len() == i,
            forall|k: int| 0 <= k < i ==> v@[k] == st.context.servers@[k],
        decreases st.context.servers@.len() - i,
    {
        v.push(st.context.servers[i].snapshot());
        i = i + 1;
    }
    proof {
        assert(v@ =~= st.context.servers@);
    }
    Result::Ok(v)
}

/// Submit a bind-only authentication task: succeed or fail, no tokens.
/// Like every dispatch entry it fails fast with `SchedulerNotReady` while
/// the background context is not running — a caller told `Ok` may rely
/// on a task having been queued and a result being owed.
pub fn vk_ldap_bind(st: &mut VkLdapState, username: String, password: String) -> (r: Result<
    (),
    VkLdapError,
>)
    ensures
        !old(st).scheduler.is_ready_spec() ==> r == Result::<(), VkLdapError>::Err(
            VkLdapError::SchedulerNotReady,
        ) && *final(st) == *old(st),
        old(st).scheduler.is_ready_spec() ==> r is Ok && task_submitted(
            *old(st),
            *final(st),
            username,
            password,
            DispatchMode::Bind,
            false,
            false,
        ),
{
    st.scheduler.submit_auth_task(username, password, DispatchMode::Bind, false, false)
}

/// Submit a search-then-bind authentication task, without group tokens;
/// fails fast when the background context is not ready.
pub fn vk_ldap_search_and_bind(st: &mut VkLdapState, username: String, password: String) -> (r:
    Result<(), VkLdapError>)
    ensures
        !old(st).scheduler.is_ready_spec() ==> r == Result::<(), VkLdapError>::Err(
            VkLdapError::SchedulerNotReady,
        ) && *final(st) == *old(st),
        old(st).scheduler.is_ready_spec() ==> r is Ok && task_submitted(
            *old(st),
            *final(st),
            username,
            password,
            DispatchMode::SearchThenBind,
            false,
            false,
        ),
{
    st.scheduler.submit_auth_task(username, password, DispatchMode::SearchThenBind, false, false)
}

/// Submit a bind task that also extracts the user's raw group names;
/// fails fast when the background context is not ready.
pub fn vk_ldap_bind_and_groups(st: &mut VkLdapState, username: String, password: String) -> (r:
    Result<(), VkLdapError>)
    ensures
        !old(st).scheduler.is_ready_spec() ==> r == Result::<(), VkLdapError>::Err(
            VkLdapError::SchedulerNotReady,
        ) && *final(st) == *old(st),
        old(st).scheduler.is_ready_spec() ==> r is Ok && task_submitted(
            *old(st),
            *final(st),
            username,
            password,
            DispatchMode::Bind,
            true,
            false,
        ),
{
    st.scheduler.submit_auth_task(username, password, DispatchMode::Bind, true, false)
}

/// Submit a search-then-bind task that also extracts raw group names;
/// fails fast when the background context is not ready.
pub fn vk_ldap_search_bind_and_groups(
    st: &mut VkLdapState,
    username: String,
    password: String,
) -> (r: Result<(), VkLdapError>)
    ensures
        !old(st).scheduler.is_ready_spec() ==> r == Result::<(), VkLdapError>::Err(
            VkLdapError::SchedulerNotReady,
        ) && *final(st) == *old(st),
        old(st).scheduler.is_ready_spec() ==> r is Ok && task_submitted(
            *old(st),
            *final(st),
            username,
            password,
            DispatchMode::SearchThenBind,
            true,
            false,
        ),
{
    st.scheduler.submit_auth_task(username, password, DispatchMode::SearchThenBind, true, false)
}

/// Submit a bind task whose group names are mapped to rule tokens. This
/// entry serves live authentications; it fails fast when the background
/// context is not ready — the caller then defers to built-in
/// authentication.
pub fn vk_ldap_bind_and_group_rules(st: &mut VkLdapState, username: String, password: String) -> (r:
    Result<(), VkLdapError>)
    ensures
        !old(st).scheduler.is_ready_spec() ==> r == Result::<(), VkLdapError>::Err(
            VkLdapError::SchedulerNotReady,
        ) && *final(st) == *old(st),
        old(st).scheduler.is_ready_spec() ==> r is Ok && task_submitted(
            *old(st),
            *final(st),
            username,
            password,
            DispatchMode::Bind,
            true,
            true,
        ),
{
    st.scheduler.submit_auth_task(username, password, DispatchMode::Bind, true, true)
}

/// Submit a search-then-bind task whose group names are mapped to rule
/// tokens; fails fast when the background context is not ready.
pub fn vk_ldap_search_bind_and_group_rules(
    st: &mut VkLdapState,
    username: String,
    password: String,
) -> (r: Result<(), VkLdapError>)
    ensures
        !old(st).scheduler.is_ready_spec() ==> r == Result::<(), VkLdapError>::Err(
            VkLdapError::SchedulerNotReady,
        ) && *final(st) == *old(st),
        old(st).scheduler.is_ready_spec() ==> r is Ok && task_submitted(
            *old(st),
            *final(st),
            username,
            password,
            DispatchMode::SearchThenBind,
            true,
            true,
        ),
{
    st.scheduler.submit_auth_task(username, password, DispatchMode::SearchThenBind, true, true)
}

} // verus!
