use git_prompt::{fallback_branch, metadata_too_large, short_commit_id, GitStatus};

/// A path under /tmp that no earlier test run has used.
fn fresh_path(name: &str) -> String {
    let nanos = std::time::SystemTime::now()
        .duration_since(std::time::UNIX_EPOCH)
        .unwrap()
        .as_nanos();
    format!("/tmp/git_prompt_{}_{}", name, nanos)
}

#[test]
fn short_commit_id_hex_encodes_first_four_bytes() {
    let bytes: Vec<u8> = vec![
        0xaa, 0xbb, 0xcc, 0xdd, 0, 0, 0, 0, 0, 0, 0, 0, 0, 0, 0, 0, 0, 0, 0, 0,
    ];
    assert_eq!(short_commit_id(&bytes), "aabbccdd");
}

#[test]
fn short_commit_id_pads_small_bytes_to_two_digits() {
    let bytes: Vec<u8> = vec![0x0a, 0x00, 0x01, 0xf0];
    assert_eq!(short_commit_id(&bytes), "0a0001f0");
}

#[test]
fn from_parts_classifies_exact_single_bit_flags() {
    let flags: Vec<u32> = vec![
        0x0001, // staged new
        0x0002, 0x0002, // staged modified
        0x0004, // staged deleted
        0x0008, // staged renamed
        0x0010, // staged type change
        0x0080, // untracked
        0x0100, // unstaged modified
        0x0200, // unstaged deleted
        0x0800, // unstaged renamed
        0x0400, // unstaged type change
        0x4000, // ignored
        0x8000, 0x8000, 0x8000, // conflicted
    ];
    let s = GitStatus::from_parts(
        String::from("main"),
        String::new(),
        String::new(),
        &flags,
        4,
        5,
    );
    assert_eq!(s.index_new, 1);
    assert_eq!(s.index_modified, 2);
    assert_eq!(s.index_deleted, 1);
    assert_eq!(s.index_renamed, 1);
    assert_eq!(s.index_typechange, 1);
    assert_eq!(s.wt_new, 1);
    assert_eq!(s.wt_modified, 1);
    assert_eq!(s.wt_deleted, 1);
    assert_eq!(s.wt_renamed, 1);
    assert_eq!(s.wt_typechange, 1);
    assert_eq!(s.ignored, 1);
    assert_eq!(s.conflicted, 3);
    assert_eq!(s.ahead, 4);
    assert_eq!(s.behind, 5);
    assert_eq!(s.branch, "main");
}

#[test]
fn from_parts_drops_composite_flag_words() {
    // A word combining staged-modified with unstaged-modified matches no
    // single category exactly and counts nowhere.
    let flags: Vec<u32> = vec![0x0102, 0x0003, 0x0001];
    let s = GitStatus::from_parts(
        String::new(),
        String::new(),
        String::new(),
        &flags,
        0,
        0,
    );
    assert_eq!(s.index_new, 1);
    assert_eq!(s.index_modified, 0);
    assert_eq!(s.wt_modified, 0);
}

#[test]
fn fallback_branch_names_master_for_bare_or_empty() {
    assert_eq!(fallback_branch(true, false), "master");
    assert_eq!(fallback_branch(false, true), "master");
    assert_eq!(fallback_branch(true, true), "master");
    assert_eq!(fallback_branch(false, false), "HEAD");
}

#[test]
fn metadata_guard_trips_just_above_one_billion_bytes() {
    assert!(!metadata_too_large(0));
    assert!(!metadata_too_large(1_000_000_000));
    assert!(metadata_too_large(1_000_000_001));
}

#[test]
fn init_on_bare_repository_attempts_enumeration_and_is_absent() {
    // The branch falls back to `master` (see `fallback_branch`), but the
    // change enumeration is still attempted, and libgit2 refuses it on a
    // bare repository, so the whole collection is absent.
    let path = fresh_path("bare");
    git2::Repository::init_bare(&path).unwrap();
    assert!(GitStatus::init(&path, String::new()).is_none());
}

#[test]
fn init_on_fresh_repository_resolves_master_and_keeps_tag() {
    let path = fresh_path("empty");
    git2::Repository::init(&path).unwrap();
    let s = GitStatus::init(&path, String::from("v9")).unwrap();
    assert_eq!(s.branch, "master");
    assert_eq!(s.tag, "v9");
    assert_eq!(s.render(), " v9");
}

#[test]
fn init_outside_a_repository_is_absent() {
    assert!(GitStatus::init("/tmp", String::new()).is_none());
}

#[test]
fn init_on_detached_head_shows_short_commit_hash() {
    let path = fresh_path("detached");
    let repo = git2::Repository::init(&path).unwrap();
    let sig = git2::Signature::now("tester", "tester@example.com").unwrap();
    let tree_id = repo.index().unwrap().write_tree().unwrap();
    let tree = repo.find_tree(tree_id).unwrap();
    let commit_id = repo
        .commit(Some("HEAD"), &sig, &sig, "first", &tree, &[])
        .unwrap();
    repo.set_head_detached(commit_id).unwrap();
    drop(tree);
    drop(repo);

    let s = GitStatus::init(&path, String::new()).unwrap();
    let expected: String = commit_id.as_bytes()[..4]
        .iter()
        .map(|b| format!("{:02x}", b))
        .collect();
    assert_eq!(s.branch, expected);
    assert_eq!(s.render(), format!(" {}", expected));
}

#[test]
fn init_counts_divergence_against_a_local_upstream() {
    let path = fresh_path("upstream");
    let repo = git2::Repository::init(&path).unwrap();
    let sig = git2::Signature::now("tester", "tester@example.com").unwrap();
    let tree_id = repo.index().unwrap().write_tree().unwrap();
    let tree = repo.find_tree(tree_id).unwrap();
    let first_id = repo
        .commit(Some("HEAD"), &sig, &sig, "one", &tree, &[])
        .unwrap();
    let first = repo.find_commit(first_id).unwrap();
    repo.branch("base", &first, true).unwrap();
    let second_id = repo
        .commit(Some("HEAD"), &sig, &sig, "two", &tree, &[&first])
        .unwrap();
    let second = repo.find_commit(second_id).unwrap();
    repo.branch("trunk", &second, true).unwrap();
    repo.set_head("refs/heads/trunk").unwrap();
    let mut trunk = repo.find_branch("trunk", git2::BranchType::Local).unwrap();
    trunk.set_upstream(Some("base")).unwrap();
    drop(trunk);
    drop(second);
    drop(first);
    drop(tree);
    drop(repo);

    let s = GitStatus::init(&path, String::new()).unwrap();
    assert_eq!(s.branch, "trunk");
    assert_eq!(s.remote, "base");
    assert_eq!(s.ahead, 1);
    assert_eq!(s.behind, 0);
    assert_eq!(s.get_yellow(), "\u{2191}1");
}

#[test]
fn init_on_named_branch_shows_branch_name() {
    let path = fresh_path("branch");
    let repo = git2::Repository::init(&path).unwrap();
    let sig = git2::Signature::now("tester", "tester@example.com").unwrap();
    let tree_id = repo.index().unwrap().write_tree().unwrap();
    let tree = repo.find_tree(tree_id).unwrap();
    let commit_id = repo
        .commit(Some("HEAD"), &sig, &sig, "first", &tree, &[])
        .unwrap();
    let commit = repo.find_commit(commit_id).unwrap();
    repo.branch("trunk", &commit, true).unwrap();
    repo.set_head("refs/heads/trunk").unwrap();
    drop(commit);
    drop(tree);
    drop(repo);

    let s = GitStatus::init(&path, String::new()).unwrap();
    assert_eq!(s.branch, "trunk");
    // No upstream is configured, so divergence and remote stay at their
    // empty defaults.
    assert_eq!(s.remote, "");
    assert_eq!(s.ahead, 0);
    assert_eq!(s.behind, 0);
}

#[test]
fn resolve_branch_keeps_a_named_shorthand() {
    assert_eq!(
        git_prompt::resolve_branch(Some(String::from("main")), None),
        "main"
    );
}

#[test]
fn resolve_branch_detached_shows_hex_of_peeled_commit() {
    let bytes: Vec<u8> = vec![0xaa, 0xbb, 0x0c, 0xdd];
    assert_eq!(
        git_prompt::resolve_branch(Some(String::from("HEAD")), Some(bytes)),
        "aabb0cdd"
    );
}

#[test]
fn resolve_branch_detached_without_commit_falls_back() {
    assert_eq!(
        git_prompt::resolve_branch(Some(String::from("HEAD")), None),
        "HEAD"
    );
}

#[test]
fn resolve_branch_without_shorthand_falls_back() {
    assert_eq!(git_prompt::resolve_branch(None, None), "HEAD");
}

#[test]
fn upstream_summary_takes_counts_and_name_when_available() {
    let (ahead, behind, remote) =
        git_prompt::upstream_summary(Some((2, 1)), Some(String::from("origin/main")));
    assert_eq!((ahead, behind), (2, 1));
    assert_eq!(remote, "origin/main");
}

#[test]
fn upstream_summary_zeroes_counts_when_divergence_fails() {
    let (ahead, behind, remote) =
        git_prompt::upstream_summary(None, Some(String::from("base")));
    assert_eq!((ahead, behind), (0, 0));
    // The upstream name is still recorded when only the divergence
    // computation failed.
    assert_eq!(remote, "base");
}

#[test]
fn upstream_summary_empties_everything_without_an_upstream() {
    let (ahead, behind, remote) = git_prompt::upstream_summary(None, None);
    assert_eq!((ahead, behind), (0, 0));
    assert_eq!(remote, "");
}
