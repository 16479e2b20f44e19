use valkey_ldap::auth::auth_reply_plan;
use valkey_ldap::auth::conclude_reply;
use valkey_ldap::auth::is_user_exempted_from_ldap;
use valkey_ldap::auth::ldap_auth_blocking_callback;
use valkey_ldap::auth::AclCommand;
use valkey_ldap::auth::AuthConfig;
use valkey_ldap::auth::AuthDispatch;
use valkey_ldap::auth::HookOutcome;
use valkey_ldap::errors::rejection_message;
use valkey_ldap::errors::VkLdapError;
use valkey_ldap::scheduler::DispatchMode;
use valkey_ldap::VkLdapState;

fn strings(items: &[&str]) -> Vec<String> {
    items.iter().map(|s| s.to_string()).collect()
}

fn base_config() -> AuthConfig {
    AuthConfig {
        enabled: true,
        bind_mode: true,
        fallback_enabled: false,
        strict_reset: false,
        default_rules: strings(&["+auth"]),
        exempt_users: strings(&["admin", "default"]),
    }
}

fn ready_state() -> VkLdapState {
    let mut st = VkLdapState::new();
    st.scheduler.start();
    st
}

#[test]
fn exempt_user_is_never_dispatched() {
    let cfg = base_config();
    let mut st = ready_state();
    let r = ldap_auth_blocking_callback(&cfg, &mut st, "admin".to_string(), "pw".to_string());
    assert_eq!(r, AuthDispatch::NotHandled);
    assert_eq!(st.scheduler.pending.len(), 0);
    assert!(is_user_exempted_from_ldap(&cfg, &"admin".to_string()));
    assert!(!is_user_exempted_from_ldap(&cfg, &"alice".to_string()));
}

#[test]
fn disabled_auth_is_not_handled() {
    let mut cfg = base_config();
    cfg.enabled = false;
    let mut st = ready_state();
    let r = ldap_auth_blocking_callback(&cfg, &mut st, "alice".to_string(), "pw".to_string());
    assert_eq!(r, AuthDispatch::NotHandled);
    assert_eq!(st.scheduler.pending.len(), 0);
}

#[test]
fn not_ready_dispatch_is_not_handled() {
    let cfg = base_config();
    let mut st = VkLdapState::new();
    let r = ldap_auth_blocking_callback(&cfg, &mut st, "alice".to_string(), "pw".to_string());
    assert_eq!(r, AuthDispatch::NotHandled);
    assert_eq!(st.scheduler.pending.len(), 0);
}

#[test]
fn dispatch_queues_one_task_per_call() {
    let cfg = base_config();
    let mut st = ready_state();
    let r = ldap_auth_blocking_callback(&cfg, &mut st, "alice".to_string(), "pw".to_string());
    assert_eq!(r, AuthDispatch::Blocked);
    assert_eq!(st.scheduler.pending.len(), 1);
    let task = &st.scheduler.pending[0];
    assert_eq!(task.username, "alice");
    assert_eq!(task.password, "pw");
    assert_eq!(task.mode, DispatchMode::Bind);
    assert!(task.want_groups);
    assert!(task.map_rules);

    let mut search_cfg = base_config();
    search_cfg.bind_mode = false;
    let r2 =
        ldap_auth_blocking_callback(&search_cfg, &mut st, "bob".to_string(), "pw2".to_string());
    assert_eq!(r2, AuthDispatch::Blocked);
    assert_eq!(st.scheduler.pending.len(), 2);
    assert_eq!(st.scheduler.pending[1].mode, DispatchMode::SearchThenBind);
}

#[test]
fn server_unavailable_follows_fallback_policy() {
    let mut cfg = base_config();
    cfg.fallback_enabled = true;
    let res = Some(Err(VkLdapError::ServerUnavailable));
    let plan = auth_reply_plan(&cfg, &"alice".to_string(), &"pw".to_string(), &res);
    assert!(plan.commands.is_empty());
    assert_eq!(conclude_reply(&plan, true, true), HookOutcome::NotHandled);

    cfg.fallback_enabled = false;
    let plan2 = auth_reply_plan(&cfg, &"alice".to_string(), &"pw".to_string(), &res);
    assert!(plan2.commands.is_empty());
    assert_eq!(conclude_reply(&plan2, true, true), HookOutcome::HandledReject);
}

#[test]
fn success_with_tokens_issues_one_set_user_in_order() {
    let cfg = base_config();
    let res = Some(Ok(strings(&["~app:*", "+get", "+set"])));
    let plan = auth_reply_plan(&cfg, &"alice".to_string(), &"pw".to_string(), &res);
    assert_eq!(plan.commands.len(), 1);
    match &plan.commands[0] {
        AclCommand::SetUser { username, rules } => {
            assert_eq!(username, "alice");
            assert_eq!(
                rules,
                &strings(&["resetkeys", "resetchannels", "-@all", "+auth", "~app:*", "+get", "+set"])
            );
        }
        other => panic!("expected a set-user command, got {:?}", other),
    }
    assert!(plan.set_user_critical);
    assert_eq!(conclude_reply(&plan, true, true), HookOutcome::HandledAccept);
}

#[test]
fn fallback_appends_cached_password_rule() {
    let mut cfg = base_config();
    cfg.fallback_enabled = true;
    let res = Some(Ok(strings(&["+get"])));
    let plan = auth_reply_plan(&cfg, &"alice".to_string(), &"secret".to_string(), &res);
    match &plan.commands[0] {
        AclCommand::SetUser { rules, .. } => {
            assert_eq!(rules.last().unwrap(), ">secret");
            assert_eq!(
                rules,
                &strings(&["resetkeys", "resetchannels", "-@all", "+auth", "+get", ">secret"])
            );
        }
        other => panic!("expected a set-user command, got {:?}", other),
    }
}

#[test]
fn backward_compatible_empty_tokens_issue_no_command() {
    let cfg = base_config();
    let res = Some(Ok(Vec::new()));
    let plan = auth_reply_plan(&cfg, &"alice".to_string(), &"pw".to_string(), &res);
    assert!(plan.commands.is_empty());
    assert!(!plan.set_user_critical);
    assert_eq!(conclude_reply(&plan, true, true), HookOutcome::HandledAccept);
}

#[test]
fn strict_reset_applies_even_with_empty_tokens() {
    let mut cfg = base_config();
    cfg.strict_reset = true;
    let res = Some(Ok(Vec::new()));
    let plan = auth_reply_plan(&cfg, &"alice".to_string(), &"pw".to_string(), &res);
    assert_eq!(plan.commands.len(), 1);
    match &plan.commands[0] {
        AclCommand::SetUser { rules, .. } => {
            assert_eq!(rules, &strings(&["resetkeys", "resetchannels", "-@all", "+auth"]));
        }
        other => panic!("expected a set-user command, got {:?}", other),
    }
    assert!(plan.set_user_critical);
}

#[test]
fn failed_set_user_fails_closed() {
    let cfg = base_config();
    let res = Some(Ok(strings(&["+get"])));
    let plan = auth_reply_plan(&cfg, &"alice".to_string(), &"pw".to_string(), &res);
    assert_eq!(conclude_reply(&plan, false, true), HookOutcome::AuthError);
}

#[test]
fn failed_identity_binding_fails_closed() {
    let cfg = base_config();
    let res = Some(Ok(strings(&["+get"])));
    let plan = auth_reply_plan(&cfg, &"alice".to_string(), &"pw".to_string(), &res);
    assert_eq!(conclude_reply(&plan, true, false), HookOutcome::AuthError);
}

#[test]
fn credential_rejection_with_fallback_clears_cached_password() {
    let mut cfg = base_config();
    cfg.fallback_enabled = true;
    let res = Some(Err(VkLdapError::CredentialsRejected));
    let plan = auth_reply_plan(&cfg, &"alice".to_string(), &"pw".to_string(), &res);
    assert_eq!(plan.commands.len(), 1);
    match &plan.commands[0] {
        AclCommand::ClearCachedPassword { username } => assert_eq!(username, "alice"),
        other => panic!("expected a clear-cached-password command, got {:?}", other),
    }
    // The command is advisory: the rejection stands whatever the host
    // reports about it or about anything else.
    assert_eq!(conclude_reply(&plan, true, true), HookOutcome::HandledReject);
    assert_eq!(conclude_reply(&plan, false, false), HookOutcome::HandledReject);
}

#[test]
fn credential_rejection_without_fallback_just_rejects() {
    let cfg = base_config();
    let res = Some(Err(VkLdapError::CredentialsRejected));
    let plan = auth_reply_plan(&cfg, &"alice".to_string(), &"pw".to_string(), &res);
    assert!(plan.commands.is_empty());
    assert_eq!(conclude_reply(&plan, true, true), HookOutcome::HandledReject);
}

#[test]
fn user_not_found_deletes_identity_and_rejects() {
    let cfg = base_config();
    let res = Some(Err(VkLdapError::UserNotFound));
    let plan = auth_reply_plan(&cfg, &"bob".to_string(), &"pw".to_string(), &res);
    assert_eq!(plan.commands.len(), 1);
    match &plan.commands[0] {
        AclCommand::DelUser { username } => assert_eq!(username, "bob"),
        other => panic!("expected a delete-user command, got {:?}", other),
    }
    // The deletion is advisory: rejection stands either way.
    assert_eq!(conclude_reply(&plan, true, true), HookOutcome::HandledReject);
    assert_eq!(conclude_reply(&plan, false, false), HookOutcome::HandledReject);
    assert_eq!(rejection_message(), "authentication failed");
}

#[test]
fn exempt_user_not_found_rejects_without_deletion() {
    let cfg = base_config();
    let res = Some(Err(VkLdapError::UserNotFound));
    let plan = auth_reply_plan(&cfg, &"admin".to_string(), &"pw".to_string(), &res);
    assert!(plan.commands.is_empty());
    assert_eq!(conclude_reply(&plan, true, true), HookOutcome::HandledReject);
}

#[test]
fn missing_result_is_a_diagnostic_error() {
    let cfg = base_config();
    let plan = auth_reply_plan(&cfg, &"alice".to_string(), &"pw".to_string(), &None);
    assert!(plan.commands.is_empty());
    assert_eq!(conclude_reply(&plan, true, true), HookOutcome::AuthError);
}

#[test]
fn scheduler_not_ready_result_is_a_diagnostic_error() {
    let cfg = base_config();
    let res = Some(Err(VkLdapError::SchedulerNotReady));
    let plan = auth_reply_plan(&cfg, &"alice".to_string(), &"pw".to_string(), &res);
    assert!(plan.commands.is_empty());
    assert_eq!(conclude_reply(&plan, true, true), HookOutcome::AuthError);
}

#[test]
fn error_log_messages_are_distinct() {
    let msgs = [
        VkLdapError::SchedulerNotReady.log_message(),
        VkLdapError::UserNotFound.log_message(),
        VkLdapError::ServerUnavailable.log_message(),
        VkLdapError::CredentialsRejected.log_message(),
        VkLdapError::AccessControlApplicationFailure.log_message(),
        VkLdapError::UnknownError.log_message(),
    ];
    assert_eq!(msgs[0], "scheduler is not ready");
    for i in 0..msgs.len() {
        for j in 0..msgs.len() {
            if i != j {
                assert_ne!(msgs[i], msgs[j]);
            }
        }
    }
}
