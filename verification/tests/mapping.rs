use github_scopes_rs::oauth::parse_scope_header;
use github_scopes_rs::transform::map_scopes;

fn scopes(names: &[&str]) -> Vec<String> {
    names.iter().map(|s| s.to_string()).collect()
}

#[test]
fn repo_scope_grants_every_repo_flag() {
    let p = map_scopes(&scopes(&["repo"]));
    assert!(p.repo.all);
    assert!(p.repo.status);
    assert!(p.repo.deployment);
    assert!(p.repo.public_repo);
    assert!(p.repo.invite);
    assert!(p.repo.security_events);
    assert!(!p.workflow);
}

#[test]
fn repo_scope_among_others_still_grants_every_repo_flag() {
    let p = map_scopes(&scopes(&["gist", "repo", "notifications"]));
    assert!(p.repo.all);
    assert!(p.repo.status);
    assert!(p.repo.deployment);
    assert!(p.repo.public_repo);
    assert!(p.repo.invite);
    assert!(p.repo.security_events);
    assert!(p.gist);
    assert!(p.notifications);
}

#[test]
fn repo_status_alone_grants_only_status_among_repo_flags() {
    let p = map_scopes(&scopes(&["repo:status"]));
    assert!(p.repo.status);
    assert!(!p.repo.all);
    assert!(!p.repo.deployment);
    assert!(!p.repo.public_repo);
    assert!(!p.repo.invite);
    assert!(!p.repo.security_events);
}

#[test]
fn empty_scope_list_grants_nothing() {
    let p = map_scopes(&Vec::new());
    assert!(!p.repo.all);
    assert!(!p.repo.status);
    assert!(!p.repo.deployment);
    assert!(!p.repo.public_repo);
    assert!(!p.repo.invite);
    assert!(!p.repo.security_events);
    assert!(!p.workflow);
    assert!(!p.packages.write);
    assert!(!p.packages.read);
    assert!(!p.delete_packages);
    assert!(!p.org.admin);
    assert!(!p.org.write);
    assert!(!p.org.read);
    assert!(!p.public_key.admin);
    assert!(!p.public_key.write);
    assert!(!p.public_key.read);
    assert!(!p.repo_hook.admin);
    assert!(!p.repo_hook.write);
    assert!(!p.repo_hook.read);
    assert!(!p.org_hook);
    assert!(!p.gist);
    assert!(!p.notifications);
    assert!(!p.user.all);
    assert!(!p.user.email);
    assert!(!p.user.follow);
    assert!(!p.user.read);
    assert!(!p.delete_repo);
    assert!(!p.discussion.write);
    assert!(!p.discussion.read);
    assert!(!p.enterprise.all);
    assert!(!p.enterprise.manage_runners);
    assert!(!p.enterprise.manage_billing);
    assert!(!p.enterprise.read);
    assert!(!p.gpg_key.admin);
    assert!(!p.gpg_key.write);
    assert!(!p.gpg_key.read);
    assert!(!p.ssh_signing_key.admin);
    assert!(!p.ssh_signing_key.write);
    assert!(!p.ssh_signing_key.read);
}

#[test]
fn mapping_is_repeatable() {
    let list = scopes(&["repo", "read:org", "workflow"]);
    let p1 = map_scopes(&list);
    let p2 = map_scopes(&list);
    assert_eq!(p1, p2);
}

#[test]
fn mixed_scopes_scenario() {
    let p = map_scopes(&scopes(&["repo", "workflow", "read:org"]));
    assert!(p.repo.all);
    assert!(p.workflow);
    assert!(p.org.read);
    assert!(!p.org.write);
    assert!(!p.org.admin);
}

#[test]
fn admin_scope_implies_write_and_read() {
    let p = map_scopes(&scopes(&["admin:org", "admin:gpg_key"]));
    assert!(p.org.admin);
    assert!(p.org.write);
    assert!(p.org.read);
    assert!(p.gpg_key.admin);
    assert!(p.gpg_key.write);
    assert!(p.gpg_key.read);
    assert!(!p.public_key.admin);
    assert!(!p.public_key.write);
    assert!(!p.public_key.read);
}

#[test]
fn write_scope_implies_read_but_not_admin() {
    let p = map_scopes(&scopes(&["write:public_key", "write:packages"]));
    assert!(!p.public_key.admin);
    assert!(p.public_key.write);
    assert!(p.public_key.read);
    assert!(!p.packages.write || p.packages.read);
    assert!(p.packages.write);
    assert!(p.packages.read);
}

#[test]
fn read_scope_grants_read_alone() {
    let p = map_scopes(&scopes(&["read:packages", "read:discussion", "read:enterprise"]));
    assert!(!p.packages.write);
    assert!(p.packages.read);
    assert!(!p.discussion.write);
    assert!(p.discussion.read);
    assert!(!p.enterprise.all);
    assert!(p.enterprise.read);
}

#[test]
fn user_scope_grants_all_user_flags() {
    let p = map_scopes(&scopes(&["user"]));
    assert!(p.user.all);
    assert!(p.user.read);
    assert!(p.user.email);
    assert!(p.user.follow);
    let q = map_scopes(&scopes(&["user:email"]));
    assert!(!q.user.all);
    assert!(!q.user.read);
    assert!(q.user.email);
    assert!(!q.user.follow);
}

#[test]
fn enterprise_admin_grants_enterprise_flags() {
    let p = map_scopes(&scopes(&["admin:enterprise"]));
    assert!(p.enterprise.all);
    assert!(p.enterprise.manage_runners);
    assert!(p.enterprise.manage_billing);
    assert!(p.enterprise.read);
}

#[test]
fn manage_runners_does_not_leak_into_gpg_key() {
    let p = map_scopes(&scopes(&["manage_runners:enterprise"]));
    assert!(p.enterprise.manage_runners);
    assert!(!p.enterprise.all);
    assert!(!p.gpg_key.admin);
    assert!(!p.gpg_key.write);
    assert!(!p.gpg_key.read);
}

#[test]
fn standalone_scopes_map_one_to_one() {
    let p = map_scopes(&scopes(&[
        "workflow",
        "gist",
        "notifications",
        "delete_repo",
        "delete:packages",
        "admin:org_hook",
    ]));
    assert!(p.workflow);
    assert!(p.gist);
    assert!(p.notifications);
    assert!(p.delete_repo);
    assert!(p.delete_packages);
    assert!(p.org_hook);
    assert!(!p.repo.all);
}

#[test]
fn header_value_repo_grants_repo_but_not_workflow() {
    let p = map_scopes(&parse_scope_header("repo"));
    assert!(p.repo.all);
    assert!(!p.workflow);
}

#[test]
fn header_value_with_three_scopes_grants_each_at_its_level() {
    let p = map_scopes(&parse_scope_header("repo, workflow, read:org"));
    assert!(p.repo.all);
    assert!(p.workflow);
    assert!(p.org.read);
    assert!(!p.org.write);
    assert!(!p.org.admin);
}

#[test]
fn empty_header_value_grants_nothing() {
    let p = map_scopes(&parse_scope_header(""));
    assert!(!p.repo.all);
    assert!(!p.repo.status);
    assert!(!p.workflow);
    assert!(!p.gist);
    assert!(!p.user.all);
}

#[test]
fn scope_match_is_exact() {
    let p = map_scopes(&scopes(&["Repo", "repo ", "repos"]));
    assert!(!p.repo.all);
    assert!(!p.repo.status);
}
