use git_prompt::GitStatus;

fn blank() -> GitStatus {
    GitStatus {
        branch: String::new(),
        tag: String::new(),
        remote: String::new(),
        index_new: 0,
        index_modified: 0,
        index_deleted: 0,
        index_renamed: 0,
        index_typechange: 0,
        wt_new: 0,
        wt_modified: 0,
        wt_deleted: 0,
        wt_renamed: 0,
        wt_typechange: 0,
        ignored: 0,
        conflicted: 0,
        ahead: 0,
        behind: 0,
    }
}

#[test]
fn render_all_empty_is_single_space() {
    let s = blank();
    assert_eq!(s.render(), " ");
}

#[test]
fn render_is_idempotent() {
    let mut s = blank();
    s.branch = String::from("main");
    s.wt_new = 1;
    s.ahead = 2;
    let first = s.render();
    let second = s.render();
    assert_eq!(first, second);
}

#[test]
fn render_detached_head_hash_only() {
    let commit_id: Vec<u8> = vec![
        0xaa, 0xbb, 0xcc, 0xdd, 0x01, 0x02, 0x03, 0x04, 0x05, 0x06, 0x07, 0x08, 0x09, 0x0a, 0x0b,
        0x0c, 0x0d, 0x0e, 0x0f, 0x10,
    ];
    let mut s = blank();
    s.branch = git_prompt::short_commit_id(&commit_id);
    assert_eq!(s.render(), " aabbccdd");
}

#[test]
fn render_branch_with_divergence_and_untracked() {
    let mut s = blank();
    s.branch = String::from("main");
    s.remote = String::from("refs/remotes/origin/main");
    s.ahead = 2;
    s.behind = 1;
    s.wt_new = 1;
    assert_eq!(s.render(), " main ?1 \u{2191}2 \u{2193}1");
}

#[test]
fn render_tag_overrides_branch_with_conflict() {
    let mut s = blank();
    s.branch = String::from("main");
    s.tag = String::from("v1.2.0");
    s.index_modified = 1;
    s.conflicted = 1;
    assert_eq!(s.render(), " v1.2.0 +~1 c1");
}

#[test]
fn render_tag_empty_falls_back_to_branch() {
    let mut s = blank();
    s.branch = String::from("feature");
    assert_eq!(s.render(), " feature");
}

#[test]
fn render_trims_whitespace_around_branch() {
    let mut s = blank();
    s.branch = String::from("  padded  ");
    assert_eq!(s.render(), " padded");
}

#[test]
fn render_no_double_spaces_in_full_line() {
    let mut s = blank();
    s.branch = String::from("main");
    s.index_new = 1;
    s.index_modified = 2;
    s.index_deleted = 3;
    s.index_renamed = 4;
    s.index_typechange = 5;
    s.wt_new = 6;
    s.wt_modified = 7;
    s.wt_deleted = 8;
    s.wt_renamed = 9;
    s.wt_typechange = 10;
    s.ignored = 11;
    s.conflicted = 12;
    s.ahead = 13;
    s.behind = 14;
    let line = s.render();
    assert!(!line.contains("  "));
    assert!(line.starts_with(' '));
}

#[test]
fn green_shows_each_staged_segment() {
    let mut s = blank();
    s.index_new = 1;
    s.index_modified = 2;
    s.index_renamed = 3;
    s.index_typechange = 4;
    assert_eq!(s.get_green(), "+1 +~2 +->3 +t4");
}

#[test]
fn yellow_shows_each_unstaged_segment() {
    let mut s = blank();
    s.wt_new = 1;
    s.wt_modified = 2;
    s.wt_renamed = 3;
    s.wt_typechange = 4;
    s.ahead = 5;
    s.behind = 6;
    assert_eq!(s.get_yellow(), "?1 ~2 ->3 t4 \u{2191}5 \u{2193}6");
}

#[test]
fn gray_shows_ignored_count_only_when_positive() {
    let mut s = blank();
    assert_eq!(s.get_gray(), "");
    s.ignored = 7;
    assert_eq!(s.get_gray(), "!7");
}

#[test]
fn red_shows_deletions_and_conflicts() {
    let mut s = blank();
    s.index_deleted = 1;
    s.wt_deleted = 2;
    s.conflicted = 3;
    assert_eq!(s.get_red(), "+-1 -2 c3");
}

#[test]
fn zero_counters_emit_no_segments() {
    let s = blank();
    assert_eq!(s.get_green(), "");
    assert_eq!(s.get_yellow(), "");
    assert_eq!(s.get_gray(), "");
    assert_eq!(s.get_red(), "");
    let rendered = s.render();
    assert!(!rendered.contains('0'));
}

#[test]
fn counters_render_multi_digit_values() {
    let mut s = blank();
    s.index_new = 12034;
    assert_eq!(s.get_green(), "+12034");
    s.index_new = 0;
    s.wt_modified = 100;
    assert_eq!(s.get_yellow(), "~100");
}

#[test]
fn remote_field_never_shows_in_line() {
    let mut s = blank();
    s.branch = String::from("main");
    s.remote = String::from("refs/remotes/origin/main");
    assert_eq!(s.render(), " main");
}
