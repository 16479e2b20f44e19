use valkey_ldap::add_server;
use valkey_ldap::context::DirectoryEvent;
use valkey_ldap::errors::VkLdapError;
use valkey_ldap::get_servers_health_status;
use valkey_ldap::refresh_connection_settings;
use valkey_ldap::scheduler::DispatchMode;
use valkey_ldap::scheduler::VkLdapTask;
use valkey_ldap::settings::VkConnectionSettings;
use valkey_ldap::VkLdapState;

fn bind_task(user: &str) -> VkLdapTask {
    VkLdapTask {
        id: 0,
        username: user.to_string(),
        password: "pw".to_string(),
        mode: DispatchMode::Bind,
        want_groups: false,
        map_rules: false,
    }
}

fn two_server_state() -> VkLdapState {
    let mut st = VkLdapState::new();
    st.scheduler.start();
    add_server(&mut st, "ldap://one".to_string()).unwrap();
    add_server(&mut st, "ldap://two".to_string()).unwrap();
    st
}

#[test]
fn three_connectivity_failures_exclude_a_server() {
    let mut st = two_server_state();
    let task = bind_task("alice");
    for _ in 0..2 {
        let r = st.context.complete_attempt(&task, 0, DirectoryEvent::ConnectivityFailure);
        assert_eq!(r, Err(VkLdapError::ServerUnavailable));
        // Below the threshold the server is still tried first.
        assert_eq!(st.context.select_server(), Some(0));
    }
    let r = st.context.complete_attempt(&task, 0, DirectoryEvent::ConnectivityFailure);
    assert_eq!(r, Err(VkLdapError::ServerUnavailable));
    // Third consecutive failure: excluded while a healthy server remains.
    assert!(!st.context.servers[0].healthy);
    assert_eq!(st.context.select_server(), Some(1));
}

#[test]
fn success_restores_an_excluded_server() {
    let mut st = two_server_state();
    let task = bind_task("alice");
    for _ in 0..3 {
        st.context.complete_attempt(&task, 0, DirectoryEvent::ConnectivityFailure).unwrap_err();
    }
    assert!(!st.context.servers[0].healthy);
    let r = st.context.complete_attempt(&task, 0, DirectoryEvent::BindSucceeded {
        groups: Vec::new(),
    });
    assert_eq!(r, Ok(Vec::new()));
    assert!(st.context.servers[0].healthy);
    assert_eq!(st.context.servers[0].failures, 0);
    assert_eq!(st.context.select_server(), Some(0));
}

#[test]
fn credential_failures_never_exclude_a_server() {
    let mut st = two_server_state();
    let task = bind_task("alice");
    for _ in 0..5 {
        let r = st.context.complete_attempt(&task, 0, DirectoryEvent::CredentialsRejected);
        assert_eq!(r, Err(VkLdapError::CredentialsRejected));
    }
    assert!(st.context.servers[0].healthy);
    assert_eq!(st.context.servers[0].failures, 0);
    assert_eq!(st.context.select_server(), Some(0));
}

#[test]
fn user_not_found_does_not_count_against_health() {
    let mut st = two_server_state();
    let task = bind_task("ghost");
    let r = st.context.complete_attempt(&task, 0, DirectoryEvent::UserNotFound);
    assert_eq!(r, Err(VkLdapError::UserNotFound));
    assert!(st.context.servers[0].healthy);
    assert_eq!(st.context.servers[0].failures, 0);
}

#[test]
fn all_unhealthy_selects_least_recently_checked() {
    let mut st = two_server_state();
    let task = bind_task("alice");
    for _ in 0..3 {
        st.context.complete_attempt(&task, 0, DirectoryEvent::ConnectivityFailure).unwrap_err();
    }
    for _ in 0..3 {
        st.context.complete_attempt(&task, 1, DirectoryEvent::ConnectivityFailure).unwrap_err();
    }
    assert!(!st.context.servers[0].healthy);
    assert!(!st.context.servers[1].healthy);
    // Server one's failures lie further back on the logical clock.
    assert_eq!(st.context.select_server(), Some(0));

    // After another attempt on server one, server two becomes the least
    // recently checked.
    st.context.complete_attempt(&task, 0, DirectoryEvent::ConnectivityFailure).unwrap_err();
    assert_eq!(st.context.select_server(), Some(1));
}

#[test]
fn configured_threshold_is_respected() {
    let mut st = two_server_state();
    refresh_connection_settings(
        &mut st,
        VkConnectionSettings { version: 1, timeout_ms: 500, failure_threshold: 1 },
    );
    let task = bind_task("alice");
    st.context.complete_attempt(&task, 0, DirectoryEvent::ConnectivityFailure).unwrap_err();
    assert!(!st.context.servers[0].healthy);
    assert_eq!(st.context.select_server(), Some(1));
}

#[test]
fn health_snapshot_reports_every_server_in_order() {
    let mut st = two_server_state();
    let task = bind_task("alice");
    st.context.complete_attempt(&task, 1, DirectoryEvent::ConnectivityFailure).unwrap_err();
    let snapshot = get_servers_health_status(&st).unwrap();
    assert_eq!(snapshot.len(), 2);
    assert_eq!(snapshot[0].url, "ldap://one");
    assert!(snapshot[0].healthy);
    assert_eq!(snapshot[0].last_checked, None);
    assert_eq!(snapshot[1].url, "ldap://two");
    assert_eq!(snapshot[1].failures, 1);
    assert_eq!(snapshot[1].last_checked, Some(0));
}

#[test]
fn bind_only_task_yields_no_tokens() {
    let mut st = two_server_state();
    // want_groups is false: a group payload, if any arrives, is not handed on.
    let task = bind_task("alice");
    let r = st.context.complete_attempt(&task, 0, DirectoryEvent::BindSucceeded {
        groups: vec!["app-readers".to_string()],
    });
    assert_eq!(r, Ok(Vec::new()));
}

#[test]
fn groups_task_without_mapping_yields_raw_groups() {
    let mut st = two_server_state();
    let mut task = bind_task("alice");
    task.want_groups = true;
    let r = st.context.complete_attempt(&task, 0, DirectoryEvent::BindSucceeded {
        groups: vec!["app-readers".to_string(), "getters".to_string()],
    });
    assert_eq!(r, Ok(vec!["app-readers".to_string(), "getters".to_string()]));
}

#[test]
fn stale_server_index_leaves_records_untouched() {
    let mut st = two_server_state();
    let task = bind_task("alice");
    let r = st.context.complete_attempt(&task, 7, DirectoryEvent::ConnectivityFailure);
    assert_eq!(r, Err(VkLdapError::ServerUnavailable));
    assert!(st.context.servers[0].healthy);
    assert!(st.context.servers[1].healthy);
    assert_eq!(st.context.servers[0].failures, 0);
}
