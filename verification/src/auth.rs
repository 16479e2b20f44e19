use vstd::prelude::*;

use crate::errors::VkLdapError;
use crate::scheduler::DispatchMode;
use crate::VkLdapState;

verus! {

/// The configuration surface consumed by the orchestrator. It is owned by
/// the host's configuration machinery; the orchestrator only reads it.
#[derive(Debug)]
pub struct AuthConfig {
    /// Directory authentication applies at all.
    pub enabled: bool,
    /// True: bind directly as the user. False: search, then bind.
    pub bind_mode: bool,
    /// Password-cache fallback: cache the password as a rule on success,
    /// clear it on rejection, and defer to built-in authentication while
    /// no server is reachable.
    pub fallback_enabled: bool,
    /// True: a successful result always resets the user's rules, even with
    /// no directory tokens. False (backward-compatible): an empty token
    /// list leaves pre-provisioned rules untouched and issues no command.
    pub strict_reset: bool,
    /// Rules applied after the reset and before the directory tokens.
    pub default_rules: Vec<String>,
    /// Usernames that never go through directory authentication.
    pub exempt_users: Vec<String>,
}

/// The username stands on the exemption list.
pub open spec fn is_exempt(cfg: AuthConfig, user: Seq<char>) -> bool {
    exists|i: int| 0 <= i < cfg.exempt_users@.len() && cfg.exempt_users@[i]@ == user
}

/// Whether a username is exempted from directory authentication.
pub fn is_user_exempted_from_ldap(cfg: &AuthConfig, username: &String) -> (r: bool)
    ensures
        r == is_exempt(*cfg, username@),
{
    let mut i: usize = 0;
    while i < cfg.exempt_users.len()
        invariant
            i <= cfg.exempt_users@.len(),
            forall|k: int| 0 <= k < i ==> cfg.exempt_users@[k]@ != username@,
        decreases cfg.exempt_users@.len() - i,
    {
        if cfg.exempt_users[i] == *username {
            return true;
        }
        i = i + 1;
    }
    false
}

/// What the authentication hook decides before any directory work runs.
#[derive(Clone, Copy, Debug, PartialEq, Eq, Structural)]
pub enum AuthDispatch {
    /// Directory authentication does not apply; the built-in credential
    /// store decides.
    NotHandled,
    /// The client is suspended and a task was submitted; the reply stage
    /// will deliver the final outcome.
    Blocked,
}

/// The outcome the hook hands back to the host server.
#[derive(Clone, Copy, Debug, PartialEq, Eq, Structural)]
pub enum HookOutcome {
    /// The client is accepted under its access-control identity.
    HandledAccept,
    /// The client is rejected with the generic message.
    HandledReject,
    /// The built-in authentication path decides.
    NotHandled,
    /// The attempt is aborted with a diagnostic pointing to the logs.
    AuthError,
}

/// The authentication hook: decide whether directory authentication
/// applies and, when it does, submit the asynchronous task that performs
/// it. Directory authentication is opportunistic — when the background
/// context cannot take the task, the hook steps aside rather than failing
/// the connection.
pub fn ldap_auth_blocking_callback(
    cfg: &AuthConfig,
    st: &mut VkLdapState,
    username: String,
    password: String,
) -> (r: AuthDispatch)
    ensures
        !cfg.enabled ==> r is NotHandled && *final(st) == *old(st),
        cfg.enabled && is_exempt(*cfg, username@) ==> r is NotHandled && *final(st) == *old(st),
        cfg.enabled && !is_exempt(*cfg, username@) && !old(st).scheduler.is_ready_spec() ==> r
            is NotHandled && *final(st) == *old(st),
        cfg.enabled && !is_exempt(*cfg, username@) && old(st).scheduler.is_ready_spec() ==> r
            is Blocked && crate::task_submitted(
            *old(st),
            *final(st),
            username,
            password,
            if cfg.bind_mode {
                DispatchMode::Bind
            } else {
                DispatchMode::SearchThenBind
            },
            true,
            true,
        ),
{
    if !cfg.enabled {
        return AuthDispatch::NotHandled;
    }
    if is_user_exempted_from_ldap(cfg, &username) {
        return AuthDispatch::NotHandled;
    }
    let res = if cfg.bind_mode {
        crate::vk_ldap_bind_and_group_rules(st, username, password)
    } else {
        crate::vk_ldap_search_bind_and_group_rules(st, username, password)
    };
    match res {
        Result::Ok(_) => AuthDispatch::Blocked,
        Result::Err(_) => AuthDispatch::NotHandled,
    }
}

/// One outbound access-control command, kept structured until the host
/// interface serializes it.
#[derive(Debug)]
pub enum AclCommand {
    /// Apply the given rule tokens to the user in one administrative call.
    SetUser { username: String, rules: Vec<String> },
    /// Remove the access-control identity provisioned for the user.
    DelUser { username: String },
    /// Drop the cached password rule for the user.
    ClearCachedPassword { username: String },
}

/// The mathematical shape of an [`AclCommand`].
pub enum AclCommandModel {
    SetUser { username: Seq<char>, rules: Seq<Seq<char>> },
    DelUser { username: Seq<char> },
    ClearCachedPassword { username: Seq<char> },
}

impl View for AclCommand {
    type V = AclCommandModel;

    open spec fn view(&self) -> AclCommandModel {
        match self {
            AclCommand::SetUser { username, rules } => AclCommandModel::SetUser {
                username: username@,
                rules: rules.deep_view(),
            },
            AclCommand::DelUser { username } => AclCommandModel::DelUser { username: username@ },
            AclCommand::ClearCachedPassword { username } => AclCommandModel::ClearCachedPassword {
                username: username@,
            },
        }
    }
}

impl DeepView for AclCommand {
    type V = AclCommandModel;

    open spec fn deep_view(&self) -> AclCommandModel {
        self.view()
    }
}

/// The permission reset that opens every applied rule sequence: clear key
/// patterns, clear channel patterns, deny every command class.
pub open spec fn reset_rule_views() -> Seq<Seq<char>> {
    seq!["resetkeys"@, "resetchannels"@, "-@all"@]
}

/// The rule that caches the presented password for built-in fallback.
pub open spec fn cached_password_rule_view(password: Seq<char>) -> Seq<char> {
    ">"@ + password
}

/// The full rule sequence applied on success: the reset, the configured
/// default rules, the directory-derived tokens, and, with fallback
/// enabled, the cached-password rule — in that order.
pub open spec fn success_rule_views(
    cfg: AuthConfig,
    tokens: Seq<Seq<char>>,
    password: Seq<char>,
) -> Seq<Seq<char>> {
    reset_rule_views() + cfg.default_rules.deep_view() + tokens + if cfg.fallback_enabled {
        seq![cached_password_rule_view(password)]
    } else {
        Seq::<Seq<char>>::empty()
    }
}

/// The commands the reply stage issues for one delivered result.
pub open spec fn reply_commands(
    cfg: AuthConfig,
    user: Seq<char>,
    password: Seq<char>,
    res: Option<Result<Vec<String>, VkLdapError>>,
) -> Seq<AclCommandModel> {
    match res {
        Option::None => Seq::<AclCommandModel>::empty(),
        Option::Some(r) => match r {
            Result::Ok(tokens) => if tokens@.len() == 0 && !cfg.strict_reset {
                Seq::<AclCommandModel>::empty()
            } else {
                seq![
                    AclCommandModel::SetUser {
                        username: user,
                        rules: success_rule_views(cfg, tokens.deep_view(), password),
                    },
                ]
            },
            Result::Err(e) => match e {
                VkLdapError::UserNotFound => if is_exempt(cfg, user) {
                    Seq::<AclCommandModel>::empty()
                } else {
                    seq![AclCommandModel::DelUser { username: user }]
                },
                VkLdapError::CredentialsRejected => if cfg.fallback_enabled {
                    seq![AclCommandModel::ClearCachedPassword { username: user }]
                } else {
                    Seq::<AclCommandModel>::empty()
                },
                _ => Seq::<AclCommandModel>::empty(),
            },
        },
    }
}

/// The outcome the reply stage reaches, assuming its critical command and
/// the identity binding succeed.
pub open spec fn reply_outcome(
    cfg: AuthConfig,
    res: Option<Result<Vec<String>, VkLdapError>>,
) -> HookOutcome {
    match res {
        Option::None => HookOutcome::AuthError,
        Option::Some(r) => match r {
            Result::Ok(_) => HookOutcome::HandledAccept,
            Result::Err(e) => match e {
                VkLdapError::UserNotFound => HookOutcome::HandledReject,
                VkLdapError::ServerUnavailable => if cfg.fallback_enabled {
                    HookOutcome::NotHandled
                } else {
                    HookOutcome::HandledReject
                },
                VkLdapError::CredentialsRejected => HookOutcome::HandledReject,
                _ => HookOutcome::AuthError,
            },
        },
    }
}

/// Whether the first command is the one whose failure fails the whole
/// authentication: the applied rule set is all-or-nothing.
pub open spec fn reply_critical(
    cfg: AuthConfig,
    res: Option<Result<Vec<String>, VkLdapError>>,
) -> bool {
    match res {
        Option::Some(r) => match r {
            Result::Ok(tokens) => !(tokens@.len() == 0 && !cfg.strict_reset),
            Result::Err(_) => false,
        },
        Option::None => false,
    }
}

/// Whether the reply binds the connection to its access-control identity.
pub open spec fn reply_binds_identity(res: Option<Result<Vec<String>, VkLdapError>>) -> bool {
    match res {
        Option::Some(r) => r is Ok,
        Option::None => false,
    }
}

/// What the reply stage plans for one delivered result: the commands to
/// issue, which of them is critical, whether to bind the identity, and
/// the outcome owed when the critical steps succeed.
#[derive(Debug)]
pub struct ReplyPlan {
    /// Commands to issue, in order. Commands beyond the critical first
    /// `SetUser` are advisory: their failure is logged and ignored.
    pub commands: Vec<AclCommand>,
    /// The first command is a `SetUser` whose failure fails the attempt.
    pub set_user_critical: bool,
    /// Bind the connection to the user's access-control identity.
    pub bind_identity: bool,
    /// Outcome owed when the critical command and the binding succeed.
    pub outcome: HookOutcome,
}

/// The plan is exactly what the delivered result calls for.
pub open spec fn plan_matches(
    plan: ReplyPlan,
    cfg: AuthConfig,
    user: Seq<char>,
    password: Seq<char>,
    res: Option<Result<Vec<String>, VkLdapError>>,
) -> bool {
    &&& plan.commands.deep_view() == reply_commands(cfg, user, password, res)
    &&& plan.set_user_critical == reply_critical(cfg, res)
    &&& plan.bind_identity == reply_binds_identity(res)
    &&& plan.outcome == reply_outcome(cfg, res)
}

/// The reply stage, run on the serving thread once the result of the
/// asynchronous task is available: translate the result into the
/// access-control commands and the outcome policy of the configuration.
pub fn auth_reply_plan(
    cfg: &AuthConfig,
    username: &String,
    password: &String,
    res: &Option<Result<Vec<String>, VkLdapError>>,
) -> (plan: ReplyPlan)
    ensures
        plan_matches(plan, *cfg, username@, password@, *res),
{
    let empty_commands: Vec<AclCommand> = Vec::new();
    proof {
        assert(empty_commands.deep_view() =~~= Seq::<AclCommandModel>::empty());
    }
    match res {
        Option::None => ReplyPlan {
            commands: empty_commands,
            set_user_critical: false,
            bind_identity: false,
            outcome: HookOutcome::AuthError,
        },
        Option::Some(r) => match r {
            Result::Ok(tokens) => {
                if tokens.len() == 0 && !cfg.strict_reset {
                    ReplyPlan {
                        commands: empty_commands,
                        set_user_critical: false,
                        bind_identity: true,
                        outcome: HookOutcome::HandledAccept,
                    }
                } else {
                    let rules = build_success_rules(cfg, tokens, password);
                    let mut commands: Vec<AclCommand> = empty_commands;
                    commands.push(AclCommand::SetUser { username: username.clone(), rules });
                    proof {
                        assert(commands.deep_view() =~~= reply_commands(
                            *cfg,
                            username@,
                            password@,
                            *res,
                        ));
                    }
                    ReplyPlan {
                        commands,
                        set_user_critical: true,
                        bind_identity: true,
                        outcome: HookOutcome::HandledAccept,
                    }
                }
            },
            Result::Err(e) => match e {
                VkLdapError::UserNotFound => {
                    if is_user_exempted_from_ldap(cfg, username) {
                        ReplyPlan {
                            commands: empty_commands,
                            set_user_critical: false,
                            bind_identity: false,
                            outcome: HookOutcome::HandledReject,
                        }
                    } else {
                        let mut commands: Vec<AclCommand> = empty_commands;
                        commands.push(AclCommand::DelUser { username: username.clone() });
                        proof {
                            assert(commands.deep_view() =~~= reply_commands(
                                *cfg,
                                username@,
                                password@,
                                *res,
                            ));
                        }
                        ReplyPlan {
                            commands,
                            set_user_critical: false,
                            bind_identity: false,
                            outcome: HookOutcome::HandledReject,
                        }
                    }
                },
                VkLdapError::ServerUnavailable => ReplyPlan {
                    commands: empty_commands,
                    set_user_critical: false,
                    bind_identity: false,
                    outcome: if cfg.fallback_enabled {
                        HookOutcome::NotHandled
                    } else {
                        HookOutcome::HandledReject
                    },
                },
                VkLdapError::CredentialsRejected => {
                    let mut commands: Vec<AclCommand> = empty_commands;
                    if cfg.fallback_enabled {
                        commands.push(
                            AclCommand::ClearCachedPassword { username: username.clone() },
                        );
                        proof {
                            assert(commands.deep_view() =~~= reply_commands(
                                *cfg,
                                username@,
                                password@,
                                *res,
                            ));
                        }
                    }
                    ReplyPlan {
                        commands,
                        set_user_critical: false,
                        bind_identity: false,
                        outcome: HookOutcome::HandledReject,
                    }
                },
                _ => ReplyPlan {
                    commands: empty_commands,
                    set_user_critical: false,
                    bind_identity: false,
                    outcome: HookOutcome::AuthError,
                },
            },
        },
    }
}

/// Assemble the rule sequence applied on success: reset, defaults,
/// directory tokens, and, with fallback, the cached-password rule.
fn build_success_rules(cfg: &AuthConfig, tokens: &Vec<String>, password: &String) -> (rules: Vec<
    String,
>)
    ensures
        rules.deep_view() == success_rule_views(*cfg, tokens.deep_view(), password@),
{
    let mut rules: Vec<String> = Vec::new();
    rules.push(String::from_str("resetkeys"));
    rules.push(String::from_str("resetchannels"));
    rules.push(String::from_str("-@all"));
    proof {
        assert(rules.deep_view() =~~= reset_rule_views());
    }
    let ghost defaults = cfg.default_rules.deep_view();
    let mut i: usize = 0;
    while i < cfg.default_rules.len()
        invariant
            i <= cfg.default_rules@.len(),
            defaults == cfg.default_rules.deep_view(),
            defaults.len() == cfg.default_rules@.len(),
            rules.deep_view() == reset_rule_views() + defaults.take(i as int),
        decreases cfg.default_rules@.len() - i,
    {
        let ghost before = rules.deep_view();
        rules.push(cfg.default_rules[i].clone());
        proof {
            assert(rules.deep_view() =~~= before.push(defaults[i as int]));
            assert(defaults.take(i + 1) =~= defaults.take(i as int).push(defaults[i as int]));
            assert(rules.deep_view() =~~= reset_rule_views() + defaults.take(i + 1));
        }
        i = i + 1;
    }
    proof {
        assert(defaults.take(defaults.len() as int) =~= defaults);
    }
    let ghost toks = tokens.deep_view();
    let mut j: usize = 0;
    while j < tokens.len()
        invariant
            j <= tokens@.len(),
            toks == tokens.deep_view(),
            toks.len() == tokens@.len(),
            rules.deep_view() == reset_rule_views() + cfg.default_rules.deep_view() + toks.take(
                j as int,
            ),
        decreases tokens@.len() - j,
    {
        let ghost before = rules.deep_view();
        rules.push(tokens[j].clone());
        proof {
            assert(rules.deep_view() =~~= before.push(toks[j as int]));
            assert(toks.take(j + 1) =~= toks.take(j as int).push(toks[j as int]));
            assert(rules.deep_view() =~~= reset_rule_views() + cfg.default_rules.deep_view()
                + toks.take(j + 1));
        }
        j = j + 1;
    }
    proof {
        assert(toks.take(toks.len() as int) =~= toks);
    }
    if cfg.fallback_enabled {
        let ghost before = rules.deep_view();
        let cache_rule = String::from_str(">").concat(password.as_str());
        rules.push(cache_rule);
        proof {
            assert(rules.deep_view() =~~= before.push(cached_password_rule_view(password@)));
        }
    }
    proof {
        assert(rules.deep_view() =~~= success_rule_views(*cfg, tokens.deep_view(), password@));
    }
    rules
}

/// The final outcome once the critical command's fate and the identity
/// binding's fate are known: fail closed on either, otherwise the
/// planned outcome stands. Advisory command failures do not appear here
/// at all — they cannot change the outcome.
pub open spec fn conclude_spec(plan: ReplyPlan, set_user_ok: bool, identity_ok: bool) -> HookOutcome {
    if plan.set_user_critical && !set_user_ok {
        HookOutcome::AuthError
    } else if plan.outcome is HandledAccept && plan.bind_identity && !identity_ok {
        HookOutcome::AuthError
    } else {
        plan.outcome
    }
}

/// Conclude the reply: combine the plan with what the host reported about
/// the critical command and the identity binding.
pub fn conclude_reply(plan: &ReplyPlan, set_user_ok: bool, identity_ok: bool) -> (r: HookOutcome)
    ensures
        r == conclude_spec(*plan, set_user_ok, identity_ok),
{
    if plan.set_user_critical && !set_user_ok {
        HookOutcome::AuthError
    } else if plan.bind_identity && !identity_ok && plan.outcome == HookOutcome::HandledAccept {
        HookOutcome::AuthError
    } else {
        plan.outcome
    }
}

/// A credential rejection under fallback issues exactly one
/// clear-cached-password command and always ends in rejection, whatever
/// became of that advisory command or of anything else the host reports.
pub proof fn lemma_credential_rejection_always_rejects(
    cfg: AuthConfig,
    plan: ReplyPlan,
    user: Seq<char>,
    password: Seq<char>,
    set_user_ok: bool,
    identity_ok: bool,
)
    requires
        cfg.fallback_enabled,
        plan_matches(
            plan,
            cfg,
            user,
            password,
            Option::Some(Result::<Vec<String>, VkLdapError>::Err(VkLdapError::CredentialsRejected)),
        ),
    ensures
        conclude_spec(plan, set_user_ok, identity_ok) == HookOutcome::HandledReject,
        plan.commands.deep_view() == seq![AclCommandModel::ClearCachedPassword { username: user }],
{
}

/// In the backward-compatible variant, a successful result with no
/// directory tokens issues no command at all and still accepts the
/// client once its identity is bound.
pub proof fn lemma_backward_compatible_empty_tokens(
    cfg: AuthConfig,
    plan: ReplyPlan,
    user: Seq<char>,
    password: Seq<char>,
    tokens: Vec<String>,
    set_user_ok: bool,
)
    requires
        !cfg.strict_reset,
        tokens@.len() == 0,
        plan_matches(
            plan,
            cfg,
            user,
            password,
            Option::Some(Result::<Vec<String>, VkLdapError>::Ok(tokens)),
        ),
    ensures
        plan.commands.deep_view() == Seq::<AclCommandModel>::empty(),
        conclude_spec(plan, set_user_ok, true) == HookOutcome::HandledAccept,
{
}

/// A successful result with directory tokens issues exactly one set-user
/// command, whose rules are the permission reset, then the configured
/// default rules, then the directory tokens, in that order — followed
/// only by the cached-password rule when fallback is enabled.
pub proof fn lemma_success_issues_single_set_user(
    cfg: AuthConfig,
    plan: ReplyPlan,
    user: Seq<char>,
    password: Seq<char>,
    tokens: Vec<String>,
)
    requires
        tokens@.len() > 0,
        plan_matches(
            plan,
            cfg,
            user,
            password,
            Option::Some(Result::<Vec<String>, VkLdapError>::Ok(tokens)),
        ),
    ensures
        plan.commands.deep_view() == seq![
            AclCommandModel::SetUser {
                username: user,
                rules: reset_rule_views() + cfg.default_rules.deep_view() + tokens.deep_view()
                    + if cfg.fallback_enabled {
                    seq![cached_password_rule_view(password)]
                } else {
                    Seq::<Seq<char>>::empty()
                },
            },
        ],
        plan.set_user_critical,
{
}

/// With fallback enabled an unreachable directory defers to the built-in
/// path; with fallback disabled it rejects.
pub proof fn lemma_server_unavailable_follows_fallback(
    cfg: AuthConfig,
    plan: ReplyPlan,
    user: Seq<char>,
    password: Seq<char>,
    set_user_ok: bool,
    identity_ok: bool,
)
    requires
        plan_matches(
            plan,
            cfg,
            user,
            password,
            Option::Some(Result::<Vec<String>, VkLdapError>::Err(VkLdapError::ServerUnavailable)),
        ),
    ensures
        conclude_spec(plan, set_user_ok, identity_ok) == if cfg.fallback_enabled {
            HookOutcome::NotHandled
        } else {
            HookOutcome::HandledReject
        },
        plan.commands.deep_view() == Seq::<AclCommandModel>::empty(),
{
}

} // verus!
