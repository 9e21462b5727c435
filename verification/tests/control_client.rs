use animus_tui::control_client::{
    adopted_scope_index, git_dir_from_output, join_path, pick_socket_path,
    project_local_socket_path, remote_origin_from_output, repo_root_from_git_dir,
    repository_scope, repository_scope_named, root_of_git_dir, sanitize_identifier, scope_dir_for_project_root, scope_from_parts,
    scoped_socket_path, MarkerState, ScopeCandidate,
};

#[test]
fn sanitize_identifier_matches_protocol_examples() {
    assert_eq!(sanitize_identifier("Repo Name", "repo"), "repo-name");
    assert_eq!(sanitize_identifier("___", "repo"), "repo");
    assert_eq!(sanitize_identifier("A__B--C", "repo"), "a-b-c");
    assert_eq!(
        sanitize_identifier("  __My Repo!! -- 2026__  ", "repo"),
        "my-repo-2026"
    );
    assert_eq!(sanitize_identifier("日本語", "repo"), "repo");
}

#[test]
fn repository_scope_has_slug_and_12_hex_suffix() {
    let scope = repository_scope("/tmp");
    let (slug, suffix) = scope.rsplit_once('-').expect("scope has hyphen");
    assert!(!slug.is_empty());
    assert_eq!(suffix.len(), 12);
    assert!(suffix.chars().all(|c| c.is_ascii_hexdigit()));
}

#[test]
fn repository_scope_exact_values() {
    assert_eq!(repository_scope("/tmp"), "tmp-e9671acd2448");
    assert_eq!(repository_scope("/home/me/My Repo"), "my-repo-275250739982");
    assert_eq!(repository_scope("/"), "repo-8a5edab28263");
}

#[test]
fn sanitize_is_idempotent_on_slugs() {
    let once = sanitize_identifier("  Hello__World 42 ", "repo");
    assert_eq!(once, "hello-world-42");
    assert_eq!(sanitize_identifier(&once, "repo"), once);
}

#[test]
fn scope_from_parts_uses_lowercase_hex_of_six_bytes() {
    let digest = [0xde, 0xad, 0xBE, 0x0f, 0x00, 0x7a, 0xff, 0xff];
    assert_eq!(scope_from_parts(Some("Proj"), &digest), "proj-deadbe0f007a");
    assert_eq!(scope_from_parts(None, &digest), "repo-deadbe0f007a");
    assert_eq!(scope_from_parts(Some("!!!"), &digest), "repo-deadbe0f007a");
}

#[test]
fn scope_dir_joins_home_animus_and_scope() {
    assert_eq!(
        scope_dir_for_project_root("/home/me", "/tmp"),
        "/home/me/.animus/tmp-e9671acd2448"
    );
    assert_eq!(
        scope_dir_for_project_root("/home/me/", "/tmp"),
        "/home/me/.animus/tmp-e9671acd2448"
    );
}

#[test]
fn path_join_follows_unix_rules() {
    assert_eq!(join_path("/a", "b"), "/a/b");
    assert_eq!(join_path("/a/", "b"), "/a/b");
    assert_eq!(join_path("", "b"), "b");
    assert_eq!(join_path("/a", "/b"), "/b");
}

#[test]
fn socket_paths() {
    assert_eq!(
        scoped_socket_path("/h", "s-1"),
        "/h/.animus/s-1/control.sock"
    );
    assert_eq!(project_local_socket_path("/p"), "/p/.animus/control.sock");
    let scoped = String::from("/h/.animus/s-1/control.sock");
    assert_eq!(pick_socket_path(scoped.clone(), true, Some("/x")), scoped);
    assert_eq!(pick_socket_path(scoped.clone(), false, Some("/x")), "/x/control.sock");
    assert_eq!(pick_socket_path(scoped.clone(), false, None), scoped);
}

fn cand(is_dir: bool, marker: MarkerState, origin: Option<&str>) -> ScopeCandidate {
    ScopeCandidate {
        is_dir,
        marker,
        origin_file: origin.map(|s| s.to_string()),
    }
}

#[test]
fn adopted_scope_prefers_live_marker() {
    let our = String::from("git@host:me/repo.git");
    let cands = vec![
        cand(true, MarkerState::Missing, Some("git@host:me/repo.git\n")),
        cand(false, MarkerState::Live("/p".into()), None),
        cand(true, MarkerState::Live("/other".into()), None),
        cand(true, MarkerState::Live("/p".into()), None),
    ];
    assert_eq!(adopted_scope_index("/p", &Some(our.clone()), &cands), Some(3));
    // Without a live match, the first legacy origin match wins.
    assert_eq!(adopted_scope_index("/q", &Some(our.clone()), &cands), Some(0));
    // Without our origin nothing but a live marker can match.
    assert_eq!(adopted_scope_index("/q", &None, &cands), None);
}

#[test]
fn adopted_scope_reclaims_stale_marker_with_same_origin() {
    let our = Some(String::from("o"));
    let cands = vec![
        cand(true, MarkerState::Missing, Some("o")),
        cand(true, MarkerState::Stale, Some("  o  ")),
    ];
    assert_eq!(adopted_scope_index("/p", &our, &cands), Some(1));
    let cands = vec![cand(true, MarkerState::Stale, Some("other"))];
    assert_eq!(adopted_scope_index("/p", &our, &cands), Some(0));
}

#[test]
fn stale_marker_is_adopted_directly() {
    // A moved project's scope is adopted even without any origin.
    let cands = vec![cand(true, MarkerState::Stale, None)];
    assert_eq!(adopted_scope_index("/p", &None, &cands), Some(0));
    // It wins over an earlier legacy scope matched only by origin.
    let our = Some(String::from("o"));
    let cands = vec![
        cand(true, MarkerState::Missing, Some("o")),
        cand(true, MarkerState::Live("/elsewhere".into()), None),
        cand(true, MarkerState::Stale, None),
    ];
    assert_eq!(adopted_scope_index("/p", &our, &cands), Some(2));
    // Stale files that are not directories are ignored.
    let cands = vec![cand(false, MarkerState::Stale, None)];
    assert_eq!(adopted_scope_index("/p", &None, &cands), None);
}

#[test]
fn git_output_parsing() {
    assert_eq!(
        remote_origin_from_output(true, "  git@x:y.git\n"),
        Some("git@x:y.git".to_string())
    );
    assert_eq!(remote_origin_from_output(true, " \n"), None);
    assert_eq!(remote_origin_from_output(false, "git@x:y.git"), None);
    assert_eq!(
        git_dir_from_output("/repo/sub", true, ".git\n"),
        Some("/repo/sub/.git".to_string())
    );
    assert_eq!(
        git_dir_from_output("/repo/sub", true, "/abs/.git\n"),
        Some("/abs/.git".to_string())
    );
    assert_eq!(git_dir_from_output("/repo", false, ".git"), None);
    assert_eq!(git_dir_from_output("/repo", true, "   "), None);
    assert_eq!(repo_root_from_git_dir("/repo/.git"), Some("/repo".to_string()));
    assert_eq!(repo_root_from_git_dir("/repo/.git/modules/sub"), None);
}

#[test]
fn scope_with_explicit_file_name() {
    assert_eq!(repository_scope_named("/tmp", Some("tmp")), "tmp-e9671acd2448");
    // A name that is not text falls back to `repo`, hashing the path text.
    assert_eq!(repository_scope_named("/tmp", None), "repo-e9671acd2448");
}

#[test]
fn git_dir_parts() {
    assert_eq!(root_of_git_dir(Some(".git"), Some("/repo")), Some("/repo".to_string()));
    assert_eq!(root_of_git_dir(Some(".git"), None), None);
    assert_eq!(root_of_git_dir(Some("sub"), Some("/repo/.git/modules")), None);
    assert_eq!(root_of_git_dir(None, Some("/")), None);
}
