use vstd::prelude::*;

use crate::errors::VkLdapError;
use crate::failure_detector::connectivity_failure_step;
use crate::failure_detector::credential_failure_step;
use crate::failure_detector::record_connectivity_failure;
use crate::failure_detector::record_credential_failure;
use crate::failure_detector::record_success;
use crate::failure_detector::success_step;
use crate::scheduler::DispatchMode;
use crate::scheduler::VkLdapTask;
use crate::server::stamp_of;
use crate::server::VkLdapServer;
use crate::settings::is_default_connection_settings;
use crate::settings::is_default_ldap_settings;
use crate::settings::GroupRule;
use crate::settings::VkConnectionSettings;
use crate::settings::VkLdapSettings;

verus! {

/// The directory context: the active settings snapshots, the configured
/// server list with its health records, and a logical clock that orders
/// attempts for the failure detector.
#[derive(Debug)]
pub struct VkLdapContext {
    pub ldap_settings: VkLdapSettings,
    pub connection_settings: VkConnectionSettings,
    pub servers: Vec<VkLdapServer>,
    /// Logical time: grows by one with every completed attempt.
    pub attempt_clock: u64,
}

/// What the caller must perform against the directory for one attempt.
/// Every field is a plain value; the caller opens one session against
/// `server_url`, performs the steps, closes the session on every exit
/// path, and reports the outcome as a [`DirectoryEvent`].
#[derive(Debug)]
pub enum DirectoryAction {
    /// Bind directly as the user.
    Bind { server_url: String, bind_dn: String, password: String, fetch_groups: bool },
    /// Bind as the service identity, search `base` for the entry matching
    /// `username`, then bind as the found entry with `password`.
    SearchThenBind {
        server_url: String,
        service_dn: String,
        service_password: String,
        base: String,
        username: String,
        password: String,
        fetch_groups: bool,
    },
}

/// One planned attempt: the chosen server and the work to perform.
#[derive(Debug)]
pub struct DirectoryPlan {
    pub server_index: usize,
    pub action: DirectoryAction,
}

/// The classified outcome of one attempt, as reported back by the caller
/// that performed the directory round-trip.
#[derive(Debug)]
pub enum DirectoryEvent {
    /// The flow succeeded; `groups` holds the extracted group names, empty
    /// when none were requested or none were found.
    BindSucceeded { groups: Vec<String> },
    /// A server answered and rejected the presented credentials.
    CredentialsRejected,
    /// The searched entry does not exist.
    UserNotFound,
    /// The server could not be reached or the round-trip timed out.
    ConnectivityFailure,
}

/// Some configured server is currently healthy.
pub open spec fn any_healthy(servers: Seq<VkLdapServer>) -> bool {
    exists|j: int| 0 <= j < servers.len() && servers[j].healthy
}

/// `i` is the first healthy server in configuration order.
pub open spec fn is_first_healthy(servers: Seq<VkLdapServer>, i: int) -> bool {
    &&& 0 <= i < servers.len()
    &&& servers[i].healthy
    &&& forall|j: int| 0 <= j < i ==> !servers[j].healthy
}

/// `i` is the earliest server whose last attempt lies furthest back on
/// the logical clock.
pub open spec fn is_least_recently_checked(servers: Seq<VkLdapServer>, i: int) -> bool {
    &&& 0 <= i < servers.len()
    &&& forall|j: int| 0 <= j < servers.len() ==> stamp_of(servers[i]) <= stamp_of(servers[j])
    &&& forall|j: int| 0 <= j < i ==> stamp_of(servers[j]) > stamp_of(servers[i])
}

/// The selection rule: the first healthy server; when every server is
/// unhealthy, the least recently checked one, so that an outage heals as
/// soon as any server recovers.
pub open spec fn is_selected(servers: Seq<VkLdapServer>, i: int) -> bool {
    if any_healthy(servers) {
        is_first_healthy(servers, i)
    } else {
        is_least_recently_checked(servers, i)
    }
}

/// While any healthy server remains, an unhealthy one is never selected.
pub proof fn lemma_unhealthy_not_selected(servers: Seq<VkLdapServer>, i: int, k: int)
    requires
        0 <= i < servers.len(),
        !servers[i].healthy,
        any_healthy(servers),
        is_selected(servers, k),
    ensures
        k != i,
{
}

/// The rule token mapped to one raw group name: the rule of the first
/// mapping entry whose group matches, if any does.
pub open spec fn rule_for_group(rules: Seq<GroupRule>, g: Seq<char>) -> Option<Seq<char>>
    decreases rules.len(),
{
    if rules.len() == 0 {
        Option::None
    } else if rules[0].group@ == g {
        Option::Some(rules[0].rule@)
    } else {
        rule_for_group(rules.drop_first(), g)
    }
}

/// The rule tokens mapped from a list of raw group names, in group order,
/// with unmapped groups left out.
pub open spec fn mapped_rule_views(rules: Seq<GroupRule>, groups: Seq<Seq<char>>) -> Seq<Seq<char>>
    decreases groups.len(),
{
    if groups.len() == 0 {
        Seq::<Seq<char>>::empty()
    } else {
        mapped_rule_views(rules, groups.drop_last()) + match rule_for_group(rules, groups.last()) {
            Option::Some(r) => seq![r],
            Option::None => Seq::<Seq<char>>::empty(),
        }
    }
}

proof fn lemma_rule_for_group_first_match(rules: Seq<GroupRule>, g: Seq<char>, j: int)
    requires
        0 <= j < rules.len(),
        rules[j].group@ == g,
        forall|k: int| 0 <= k < j ==> rules[k].group@ != g,
    ensures
        rule_for_group(rules, g) == Option::Some(rules[j].rule@),
    decreases j,
{
    if j > 0 {
        assert(rules.drop_first()[j - 1] == rules[j]);
        assert(forall|k: int| 0 <= k < j - 1 ==> rules.drop_first()[k] == rules[k + 1]);
        lemma_rule_for_group_first_match(rules.drop_first(), g, j - 1);
    }
}

proof fn lemma_rule_for_group_no_match(rules: Seq<GroupRule>, g: Seq<char>)
    requires
        forall|k: int| 0 <= k < rules.len() ==> rules[k].group@ != g,
    ensures
        rule_for_group(rules, g) is None,
    decreases rules.len(),
{
    if rules.len() > 0 {
        assert(forall|k: int|
            0 <= k < rules.drop_first().len() ==> rules.drop_first()[k] == rules[k + 1]);
        lemma_rule_for_group_no_match(rules.drop_first(), g);
    }
}

/// Map raw directory group names to access-control rule tokens through the
/// configured mapping entries, keeping group order and dropping groups
/// that no entry maps.
pub fn map_groups_to_rules(rules: &Vec<GroupRule>, groups: &Vec<String>) -> (r: Vec<String>)
    ensures
        r.deep_view() == mapped_rule_views(rules@, groups.deep_view()),
{
    let mut r: Vec<String> = Vec::new();
    let ghost all_groups = groups.deep_view();
    proof {
        assert(r.deep_view() =~~= mapped_rule_views(rules@, all_groups.take(0)));
    }
    let mut i: usize = 0;
    while i < groups.len()
        invariant
            i <= groups.len(),
            all_groups == groups.deep_view(),
            all_groups.len() == groups@.len(),
            r.deep_view() == mapped_rule_views(rules@, all_groups.take(i as int)),
        decreases groups.len() - i,
    {
        let g: &String = &groups[i];
        let ghost gv = all_groups[i as int];
        proof {
            assert(gv == groups@[i as int]@);
        }
        let mut j: usize = 0;
        let mut matched: bool = false;
        while j < rules.len() && !matched
            invariant
                j <= rules@.len(),
                gv == g@,
                matched ==> j >= 1 && rules@[j as int - 1].group@ == gv && (forall|k: int|
                    0 <= k < j - 1 ==> rules@[k].group@ != gv),
                !matched ==> forall|k: int| 0 <= k < j ==> rules@[k].group@ != gv,
            decreases rules@.len() - j,
        {
            if rules[j].group == *g {
                matched = true;
            }
            j = j + 1;
        }
        let ghost r_before = r.deep_view();
        if matched {
            r.push(rules[j - 1].rule.clone());
            proof {
                lemma_rule_for_group_first_match(rules@, gv, j - 1);
                assert(r.deep_view() =~~= r_before.push(rules@[j as int - 1].rule@));
            }
        } else {
            proof {
                lemma_rule_for_group_no_match(rules@, gv);
            }
        }
        proof {
            assert(all_groups.take(i + 1).drop_last() =~= all_groups.take(i as int));
            assert(all_groups.take(i + 1).last() == gv);
            assert(r.deep_view() =~~= mapped_rule_views(rules@, all_groups.take(i + 1)));
        }
        i = i + 1;
    }
    proof {
        assert(all_groups.take(groups@.len() as int) =~= all_groups);
    }
    r
}

/// The distinguished name tried in bind mode: the configured prefix, the
/// username, and the configured suffix, concatenated.
pub fn resolve_bind_dn(settings: &VkLdapSettings, username: &String) -> (r: String)
    ensures
        r@ == settings.bind_dn_prefix@ + username@ + settings.bind_dn_suffix@,
{
    let mut r = settings.bind_dn_prefix.clone();
    r.append(username.as_str());
    r.append(settings.bind_dn_suffix.as_str());
    r
}

/// The tokens a completed, successful task yields: nothing unless groups
/// were requested; the raw group names, or their mapped rule tokens when
/// the task asked for mapping.
pub open spec fn success_token_views(
    task: VkLdapTask,
    groups: Vec<String>,
    rules: Seq<GroupRule>,
) -> Seq<Seq<char>> {
    if !task.want_groups {
        Seq::<Seq<char>>::empty()
    } else if task.map_rules {
        mapped_rule_views(rules, groups.deep_view())
    } else {
        groups.deep_view()
    }
}

/// The health record of the attempted server after the event is recorded.
pub open spec fn detector_step(
    s: VkLdapServer,
    threshold: u32,
    event: DirectoryEvent,
    stamp: u64,
) -> VkLdapServer {
    match event {
        DirectoryEvent::BindSucceeded { .. } => success_step(s, stamp),
        DirectoryEvent::ConnectivityFailure => connectivity_failure_step(s, threshold, stamp),
        DirectoryEvent::CredentialsRejected => credential_failure_step(s, stamp),
        DirectoryEvent::UserNotFound => credential_failure_step(s, stamp),
    }
}

impl VkLdapContext {
    /// A fresh context: default snapshots, no servers, clock at zero.
    pub fn new() -> (c: Self)
        ensures
            is_default_ldap_settings(c.ldap_settings),
            is_default_connection_settings(c.connection_settings),
            c.servers@ == Seq::<VkLdapServer>::empty(),
            c.attempt_clock == 0,
    {
        let c = VkLdapContext {
            ldap_settings: VkLdapSettings::default(),
            connection_settings: VkConnectionSettings::default(),
            servers: Vec::new(),
            attempt_clock: 0,
        };
        proof {
            assert(c.servers@ =~= Seq::<VkLdapServer>::empty());
        }
        c
    }

    /// Pick the server for the next attempt: the first healthy one in
    /// configuration order, or, when all are unhealthy, the least recently
    /// checked one. Returns nothing only when no server is configured.
    pub fn select_server(&self) -> (r: Option<usize>)
        ensures
            r is None <==> self.servers@.len() == 0,
            r matches Some(i) ==> is_selected(self.servers@, i as int),
    {
        if self.servers.len() == 0 {
            return Option::None;
        }
        let mut best: usize = 0;
        let mut i: usize = 0;
        while i < self.servers.len()
            invariant
                self.servers@.len() > 0,
                i <= self.servers@.len(),
                best < self.servers@.len(),
                i > 0 ==> best < i,
                i == 0 ==> best == 0,
                forall|j: int| 0 <= j < i ==> !self.servers@[j].healthy,
                forall|j: int|
                    0 <= j < i ==> stamp_of(self.servers@[best as int]) <= stamp_of(
                        self.servers@[j],
                    ),
                forall|j: int|
                    0 <= j < best ==> stamp_of(self.servers@[j]) > stamp_of(
                        self.servers@[best as int],
                    ),
            decreases self.servers@.len() - i,
        {
            if self.servers[i].healthy {
                return Option::Some(i);
            }
            if i == 0 {
                best = 0;
            } else {
                let earlier = match (self.servers[i].last_checked, self.servers[best].last_checked) {
                    (Option::None, Option::None) => false,
                    (Option::None, Option::Some(_)) => true,
                    (Option::Some(_), Option::None) => false,
                    (Option::Some(a), Option::Some(b)) => a < b,
                };
                if earlier {
                    best = i;
                }
            }
            i = i + 1;
        }
        Option::Some(best)
    }

    /// Plan one attempt for a task: choose the server and lay out the
    /// directory work, resolving names from the active settings snapshot.
    /// Returns nothing only when no server is configured.
    pub fn plan_attempt(&self, task: &VkLdapTask) -> (r: Option<DirectoryPlan>)
        ensures
            r is None <==> self.servers@.len() == 0,
            r matches Some(p) ==> {
                &&& p.server_index < self.servers@.len()
                &&& is_selected(self.servers@, p.server_index as int)
                &&& task.mode is Bind ==> (p.action matches DirectoryAction::Bind {
                    server_url,
                    bind_dn,
                    password,
                    fetch_groups,
                } && server_url@ == self.servers@[p.server_index as int].url@ && bind_dn@
                    == self.ldap_settings.bind_dn_prefix@ + task.username@
                    + self.ldap_settings.bind_dn_suffix@ && password@ == task.password@
                    && fetch_groups == task.want_groups)
                &&& task.mode is SearchThenBind ==> (p.action
                    matches DirectoryAction::SearchThenBind {
                    server_url,
                    service_dn,
                    service_password,
                    base,
                    username,
                    password,
                    fetch_groups,
                } && server_url@ == self.servers@[p.server_index as int].url@ && service_dn@
                    == self.ldap_settings.search_bind_dn@ && service_password@
                    == self.ldap_settings.search_bind_password@ && base@
                    == self.ldap_settings.search_base@ && username@ == task.username@ && password@
                    == task.password@ && fetch_groups == task.want_groups)
            },
    {
        let idx = match self.select_server() {
            Option::Some(i) => i,
            Option::None => {
                return Option::None;
            },
        };
        let server_url = self.servers[idx].url.clone();
        let action = match task.mode {
            DispatchMode::Bind => DirectoryAction::Bind {
                server_url,
                bind_dn: resolve_bind_dn(&self.ldap_settings, &task.username),
                password: task.password.clone(),
                fetch_groups: task.want_groups,
            },
            DispatchMode::SearchThenBind => DirectoryAction::SearchThenBind {
                server_url,
                service_dn: self.ldap_settings.search_bind_dn.clone(),
                service_password: self.ldap_settings.search_bind_password.clone(),
                base: self.ldap_settings.search_base.clone(),
                username: task.username.clone(),
                password: task.password.clone(),
                fetch_groups: task.want_groups,
            },
        };
        Option::Some(DirectoryPlan { server_index: idx, action })
    }

    /// Record the outcome of one attempt and classify it for the
    /// orchestrator. The health update and the attempt belong to the same
    /// plan, so the update lands on the very server that was tried; an
    /// index that no longer exists (the list was cleared meanwhile) leaves
    /// every record untouched.
    pub fn complete_attempt(
        &mut self,
        task: &VkLdapTask,
        server_index: usize,
        event: DirectoryEvent,
    ) -> (r: Result<Vec<String>, VkLdapError>)
        ensures
            final(self).ldap_settings == old(self).ldap_settings,
            final(self).connection_settings == old(self).connection_settings,
            final(self).attempt_clock == if old(self).attempt_clock < u64::MAX {
                old(self).attempt_clock + 1
            } else {
                u64::MAX as int
            },
            server_index < old(self).servers@.len() ==> final(self).servers@ == old(
                self,
            ).servers@.update(
                server_index as int,
                detector_step(
                    old(self).servers@[server_index as int],
                    old(self).connection_settings.failure_threshold,
                    event,
                    old(self).attempt_clock,
                ),
            ),
            server_index >= old(self).servers@.len() ==> final(self).servers == old(self).servers,
            event is ConnectivityFailure ==> r == Result::<Vec<String>, VkLdapError>::Err(
                VkLdapError::ServerUnavailable,
            ),
            event is CredentialsRejected ==> r == Result::<Vec<String>, VkLdapError>::Err(
                VkLdapError::CredentialsRejected,
            ),
            event is UserNotFound ==> r == Result::<Vec<String>, VkLdapError>::Err(
                VkLdapError::UserNotFound,
            ),
            event matches DirectoryEvent::BindSucceeded { groups } ==> (r matches Ok(tokens)
                && tokens.deep_view() == success_token_views(
                *task,
                groups,
                old(self).ldap_settings.group_rules@,
            )),
    {
        let stamp = self.attempt_clock;
        if self.attempt_clock < u64::MAX {
            self.attempt_clock = self.attempt_clock + 1;
        }
        let in_range = server_index < self.servers.len();
        match event {
            DirectoryEvent::BindSucceeded { groups } => {
                if in_range {
                    record_success(&mut self.servers[server_index], stamp);
                }
                let tokens: Vec<String> = if !task.want_groups {
                    let empty: Vec<String> = Vec::new();
                    proof {
                        assert(empty.deep_view() =~~= Seq::<Seq<char>>::empty());
                    }
                    empty
                } else if task.map_rules {
                    map_groups_to_rules(&self.ldap_settings.group_rules, &groups)
                } else {
                    groups
                };
                Result::Ok(tokens)
            },
            DirectoryEvent::CredentialsRejected => {
                if in_range {
                    record_credential_failure(&mut self.servers[server_index], stamp);
                }
                Result::Err(VkLdapError::CredentialsRejected)
            },
            DirectoryEvent::UserNotFound => {
                if in_range {
                    record_credential_failure(&mut self.servers[server_index], stamp);
                }
                Result::Err(VkLdapError::UserNotFound)
            },
            DirectoryEvent::ConnectivityFailure => {
                if in_range {
                    let threshold = self.connection_settings.failure_threshold;
                    record_connectivity_failure(&mut self.servers[server_index], threshold, stamp);
                }
                Result::Err(VkLdapError::ServerUnavailable)
            },
        }
    }
}

} // verus!
