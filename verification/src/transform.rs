//! Transform GitHub permission scopes to structs.
//!
//! [`map_scopes`] is a pure function from a list of raw scope strings to a
//! fully populated [`GithubTokenScope`]. Every flag is defined by exact string
//! membership, with higher-privilege scopes implying the flags of the scopes
//! they subsume (`repo` implies `repo:status`, `admin:org` implies `write:org`
//! and `read:org`, and so on).

use vstd::prelude::*;

verus! {

/// All token scope data.
#[derive(Clone, Copy, Debug, PartialEq, Eq, Structural)]
pub struct GithubTokenScope {
    pub repo: GithubScopeRepo,
    pub workflow: bool,
    pub packages: GithubScopeLevel,
    pub delete_packages: bool,
    pub org: GithubScopeAdminLevel,
    pub public_key: GithubScopeAdminLevel,
    pub repo_hook: GithubScopeAdminLevel,
    pub org_hook: bool,
    pub gist: bool,
    pub notifications: bool,
    pub user: GithubScopeUser,
    pub delete_repo: bool,
    pub discussion: GithubScopeLevel,
    pub enterprise: GithubScopeEnterprise,
    pub gpg_key: GithubScopeAdminLevel,
    pub ssh_signing_key: GithubScopeAdminLevel,
}

/// GitHub scope repo.
#[derive(Clone, Copy, Debug, PartialEq, Eq, Structural)]
pub struct GithubScopeRepo {
    pub all: bool,
    pub status: bool,
    pub deployment: bool,
    pub public_repo: bool,
    pub invite: bool,
    pub security_events: bool,
}

/// GitHub admin scope with admin, write and read access.
#[derive(Clone, Copy, Debug, PartialEq, Eq, Structural)]
pub struct GithubScopeAdminLevel {
    pub admin: bool,
    pub write: bool,
    pub read: bool,
}

/// GitHub scope level with write and read access.
#[derive(Clone, Copy, Debug, PartialEq, Eq, Structural)]
pub struct GithubScopeLevel {
    pub write: bool,
    pub read: bool,
}

/// GitHub user scope.
#[derive(Clone, Copy, Debug, PartialEq, Eq, Structural)]
pub struct GithubScopeUser {
    pub all: bool,
    pub email: bool,
    pub follow: bool,
    pub read: bool,
}

/// GitHub enterprise scope.
#[derive(Clone, Copy, Debug, PartialEq, Eq, Structural)]
pub struct GithubScopeEnterprise {
    pub all: bool,
    pub manage_runners: bool,
    pub manage_billing: bool,
    pub read: bool,
}

/// The character sequences of a list of scope strings.
pub open spec fn views_of(scopes: Seq<String>) -> Seq<Seq<char>> {
    scopes.map_values(|s: String| s@)
}

/// The permission structure a list of raw scope strings grants: each flag is
/// exact membership of the scope that grants it directly or of a
/// higher-privilege scope that subsumes it.
pub open spec fn scope_permissions_of(scopes: Seq<Seq<char>>) -> GithubTokenScope {
    GithubTokenScope {
        repo: GithubScopeRepo {
            all: scopes.contains("repo"@),
            status: scopes.contains("repo"@) || scopes.contains("repo:status"@),
            deployment: scopes.contains("repo"@) || scopes.contains("repo_deployment"@),
            public_repo: scopes.contains("repo"@) || scopes.contains("public_repo"@),
            invite: scopes.contains("repo"@) || scopes.contains("repo:invite"@),
            security_events: scopes.contains("repo"@) || scopes.contains("security_events"@),
        },
        workflow: scopes.contains("workflow"@),
        packages: GithubScopeLevel {
            write: scopes.contains("write:packages"@),
            read: scopes.contains("write:packages"@) || scopes.contains("read:packages"@),
        },
        delete_packages: scopes.contains("delete:packages"@),
        org: GithubScopeAdminLevel {
            admin: scopes.contains("admin:org"@),
            write: scopes.contains("admin:org"@) || scopes.contains("write:org"@),
            read: scopes.contains("admin:org"@) || scopes.contains("write:org"@)
                || scopes.contains("read:org"@),
        },
        public_key: GithubScopeAdminLevel {
            admin: scopes.contains("admin:public_key"@),
            write: scopes.contains("admin:public_key"@) || scopes.contains("write:public_key"@),
            read: scopes.contains("admin:public_key"@) || scopes.contains("write:public_key"@)
                || scopes.contains("read:public_key"@),
        },
        repo_hook: GithubScopeAdminLevel {
            admin: scopes.contains("admin:repo_hook"@),
            write: scopes.contains("admin:repo_hook"@) || scopes.contains("write:repo_hook"@),
            read: scopes.contains("admin:repo_hook"@) || scopes.contains("write:repo_hook"@)
                || scopes.contains("read:repo_hook"@),
        },
        org_hook: scopes.contains("admin:org_hook"@),
        gist: scopes.contains("gist"@),
        notifications: scopes.contains("notifications"@),
        user: GithubScopeUser {
            all: scopes.contains("user"@),
            email: scopes.contains("user"@) || scopes.contains("user:email"@),
            follow: scopes.contains("user"@) || scopes.contains("user:follow"@),
            read: scopes.contains("user"@) || scopes.contains("read:user"@),
        },
        delete_repo: scopes.contains("delete_repo"@),
        discussion: GithubScopeLevel {
            write: scopes.contains("write:discussion"@),
            read: scopes.contains("write:discussion"@) || scopes.contains("read:discussion"@),
        },
        enterprise: GithubScopeEnterprise {
            all: scopes.contains("admin:enterprise"@),
            manage_runners: scopes.contains("admin:enterprise"@)
                || scopes.contains("manage_runners:enterprise"@),
            manage_billing: scopes.contains("admin:enterprise"@)
                || scopes.contains("manage_billing:enterprise"@),
            read: scopes.contains("admin:enterprise"@)
                || scopes.contains("manage_billing:enterprise"@)
                || scopes.contains("read:enterprise"@),
        },
        gpg_key: GithubScopeAdminLevel {
            admin: scopes.contains("admin:gpg_key"@),
            write: scopes.contains("admin:gpg_key"@) || scopes.contains("write:gpg_key"@),
            read: scopes.contains("admin:gpg_key"@) || scopes.contains("write:gpg_key"@)
                || scopes.contains("read:gpg_key"@),
        },
        ssh_signing_key: GithubScopeAdminLevel {
            admin: scopes.contains("admin:ssh_signing_key"@),
            write: scopes.contains("admin:ssh_signing_key"@)
                || scopes.contains("write:ssh_signing_key"@),
            read: scopes.contains("admin:ssh_signing_key"@)
                || scopes.contains("write:ssh_signing_key"@)
                || scopes.contains("read:ssh_signing_key"@),
        },
    }
}

/// Whether the scope list holds `name`, by exact string comparison.
fn has_scope(scopes: &Vec<String>, name: &str) -> (r: bool)
    ensures
        r == views_of(scopes@).contains(name@),
{
    let owned: String = name.to_owned();
    let mut i: usize = 0;
    while i < scopes.len()
        invariant
            0 <= i <= scopes.len(),
            owned@ == name@,
            forall|j: int| 0 <= j < i ==> views_of(scopes@)[j] != name@,
        decreases scopes.len() - i,
    {
        if scopes[i].eq(&owned) {
            assert(views_of(scopes@)[i as int] == name@);
            return true;
        }
        i += 1;
    }
    assert(!views_of(scopes@).contains(name@));
    false
}

/// Map a list of raw scope strings to the permission structure it grants.
pub fn map_scopes(scopes: &Vec<String>) -> (r: GithubTokenScope)
    ensures
        r == scope_permissions_of(views_of(scopes@)),
{
    let repo = has_scope(scopes, "repo");
    let repo_status = has_scope(scopes, "repo:status");
    let repo_deployment = has_scope(scopes, "repo_deployment");
    let public_repo = has_scope(scopes, "public_repo");
    let repo_invite = has_scope(scopes, "repo:invite");
    let security_events = has_scope(scopes, "security_events");
    let workflow = has_scope(scopes, "workflow");
    let write_packages = has_scope(scopes, "write:packages");
    let read_packages = has_scope(scopes, "read:packages");
    let delete_packages = has_scope(scopes, "delete:packages");
    let admin_org = has_scope(scopes, "admin:org");
    let write_org = has_scope(scopes, "write:org");
    let read_org = has_scope(scopes, "read:org");
    let admin_public_key = has_scope(scopes, "admin:public_key");
    let write_public_key = has_scope(scopes, "write:public_key");
    let read_public_key = has_scope(scopes, "read:public_key");
    let admin_repo_hook = has_scope(scopes, "admin:repo_hook");
    let write_repo_hook = has_scope(scopes, "write:repo_hook");
    let read_repo_hook = has_scope(scopes, "read:repo_hook");
    let admin_org_hook = has_scope(scopes, "admin:org_hook");
    let gist = has_scope(scopes, "gist");
    let notifications = has_scope(scopes, "notifications");
    let user = has_scope(scopes, "user");
    let read_user = has_scope(scopes, "read:user");
    let user_email = has_scope(scopes, "user:email");
    let user_follow = has_scope(scopes, "user:follow");
    let delete_repo = has_scope(scopes, "delete_repo");
    let write_discussion = has_scope(scopes, "write:discussion");
    let read_discussion = has_scope(scopes, "read:discussion");
    let admin_enterprise = has_scope(scopes, "admin:enterprise");
    let manage_runners = has_scope(scopes, "manage_runners:enterprise");
    let manage_billing = has_scope(scopes, "manage_billing:enterprise");
    let read_enterprise = has_scope(scopes, "read:enterprise");
    let admin_gpg_key = has_scope(scopes, "admin:gpg_key");
    let write_gpg_key = has_scope(scopes, "write:gpg_key");
    let read_gpg_key = has_scope(scopes, "read:gpg_key");
    let admin_ssh_signing_key = has_scope(scopes, "admin:ssh_signing_key");
    let write_ssh_signing_key = has_scope(scopes, "write:ssh_signing_key");
    let read_ssh_signing_key = has_scope(scopes, "read:ssh_signing_key");
    GithubTokenScope {
        repo: GithubScopeRepo {
            all: repo,
            status: repo || repo_status,
            deployment: repo || repo_deployment,
            public_repo: repo || public_repo,
            invite: repo || repo_invite,
            security_events: repo || security_events,
        },
        workflow,
        packages: GithubScopeLevel {
            write: write_packages,
            read: write_packages || read_packages,
        },
        delete_packages,
        org: GithubScopeAdminLevel {
            admin: admin_org,
            write: admin_org || write_org,
            read: admin_org || write_org || read_org,
        },
        public_key: GithubScopeAdminLevel {
            admin: admin_public_key,
            write: admin_public_key || write_public_key,
            read: admin_public_key || write_public_key || read_public_key,
        },
        repo_hook: GithubScopeAdminLevel {
            admin: admin_repo_hook,
            write: admin_repo_hook || write_repo_hook,
            read: admin_repo_hook || write_repo_hook || read_repo_hook,
        },
        org_hook: admin_org_hook,
        gist,
        notifications,
        user: GithubScopeUser {
            all: user,
            email: user || user_email,
            follow: user || user_follow,
            read: user || read_user,
        },
        delete_repo,
        discussion: GithubScopeLevel {
            write: write_discussion,
            read: write_discussion || read_discussion,
        },
        enterprise: GithubScopeEnterprise {
            all: admin_enterprise,
            manage_runners: admin_enterprise || manage_runners,
            manage_billing: admin_enterprise || manage_billing,
            read: admin_enterprise || manage_billing || read_enterprise,
        },
        gpg_key: GithubScopeAdminLevel {
            admin: admin_gpg_key,
            write: admin_gpg_key || write_gpg_key,
            read: admin_gpg_key || write_gpg_key || read_gpg_key,
        },
        ssh_signing_key: GithubScopeAdminLevel {
            admin: admin_ssh_signing_key,
            write: admin_ssh_signing_key || write_ssh_signing_key,
            read: admin_ssh_signing_key || write_ssh_signing_key || read_ssh_signing_key,
        },
    }
}

/// Whether every flag of the structure is false.
pub open spec fn all_flags_false(p: GithubTokenScope) -> bool {
    &&& !p.repo.all
    &&& !p.repo.status
    &&& !p.repo.deployment
    &&& !p.repo.public_repo
    &&& !p.repo.invite
    &&& !p.repo.security_events
    &&& !p.workflow
    &&& !p.packages.write
    &&& !p.packages.read
    &&& !p.delete_packages
    &&& !p.org.admin
    &&& !p.org.write
    &&& !p.org.read
    &&& !p.public_key.admin
    &&& !p.public_key.write
    &&& !p.public_key.read
    &&& !p.repo_hook.admin
    &&& !p.repo_hook.write
    &&& !p.repo_hook.read
    &&& !p.org_hook
    &&& !p.gist
    &&& !p.notifications
    &&& !p.user.all
    &&& !p.user.email
    &&& !p.user.follow
    &&& !p.user.read
    &&& !p.delete_repo
    &&& !p.discussion.write
    &&& !p.discussion.read
    &&& !p.enterprise.all
    &&& !p.enterprise.manage_runners
    &&& !p.enterprise.manage_billing
    &&& !p.enterprise.read
    &&& !p.gpg_key.admin
    &&& !p.gpg_key.write
    &&& !p.gpg_key.read
    &&& !p.ssh_signing_key.admin
    &&& !p.ssh_signing_key.write
    &&& !p.ssh_signing_key.read
}

/// Whether the admin flag implies the write flag and the write flag the read flag.
pub open spec fn admin_level_ordered(g: GithubScopeAdminLevel) -> bool {
    (g.admin ==> g.write) && (g.write ==> g.read)
}

/// Whether the write flag implies the read flag.
pub open spec fn level_ordered(g: GithubScopeLevel) -> bool {
    g.write ==> g.read
}

/// Law: a scope list that holds `repo` grants every repo flag.
pub proof fn lemma_repo_grants_all_repo_flags(scopes: Seq<Seq<char>>)
    requires
        scopes.contains("repo"@),
    ensures
        ({
            let p = scope_permissions_of(scopes);
            p.repo.all && p.repo.status && p.repo.deployment && p.repo.public_repo
                && p.repo.invite && p.repo.security_events
        }),
{
}

/// Law: a scope list whose entries are all `repo:status` grants `repo.status`
/// and no other repo flag.
pub proof fn lemma_repo_status_alone(scopes: Seq<Seq<char>>)
    requires
        scopes.contains("repo:status"@),
        forall|i: int| 0 <= i < scopes.len() ==> scopes[i] == "repo:status"@,
    ensures
        ({
            let p = scope_permissions_of(scopes);
            p.repo.status && !p.repo.all && !p.repo.deployment && !p.repo.public_repo
                && !p.repo.invite && !p.repo.security_events
        }),
{
    reveal_strlit("repo:status");
    reveal_strlit("repo");
    reveal_strlit("repo_deployment");
    reveal_strlit("public_repo");
    reveal_strlit("repo:invite");
    reveal_strlit("security_events");
    assert("repo"@ != "repo:status"@) by {
        assert("repo"@.len() != "repo:status"@.len());
    }
    assert("repo_deployment"@ != "repo:status"@) by {
        assert("repo_deployment"@.len() != "repo:status"@.len());
    }
    assert("public_repo"@ != "repo:status"@) by {
        assert("public_repo"@[0] != "repo:status"@[0]);
    }
    assert("repo:invite"@ != "repo:status"@) by {
        assert("repo:invite"@[5] != "repo:status"@[5]);
    }
    assert("security_events"@ != "repo:status"@) by {
        assert("security_events"@.len() != "repo:status"@.len());
    }
}

/// Law: the empty scope list grants nothing.
pub proof fn lemma_empty_scopes_grant_nothing(scopes: Seq<Seq<char>>)
    requires
        scopes.len() == 0,
    ensures
        all_flags_false(scope_permissions_of(scopes)),
{
}

/// Law: two permission structures derived from one unchanged scope list are
/// structurally equal; querying permissions is repeatable.
pub proof fn lemma_permissions_repeatable(
    scopes: Seq<Seq<char>>,
    first: GithubTokenScope,
    second: GithubTokenScope,
)
    requires
        first == scope_permissions_of(scopes),
        second == scope_permissions_of(scopes),
    ensures
        first == second,
{
}

/// Law: every mapped permission structure respects the privilege order:
/// admin implies write implies read in each admin group, and write implies
/// read in each two-level group.
pub proof fn lemma_privilege_order(scopes: Seq<Seq<char>>)
    ensures
        ({
            let p = scope_permissions_of(scopes);
            admin_level_ordered(p.org) && admin_level_ordered(p.public_key)
                && admin_level_ordered(p.repo_hook) && admin_level_ordered(p.gpg_key)
                && admin_level_ordered(p.ssh_signing_key) && level_ordered(p.packages)
                && level_ordered(p.discussion)
        }),
{
}

} // verus!
