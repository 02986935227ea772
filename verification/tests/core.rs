use purs::action::{check_file_exists, get_action, path_join, resolve_action, OperationProbes, OperationTag};
use purs::file_status::{
    count_files_statuses, CONFLICTED, INDEX_MODIFIED, INDEX_NEW, WT_MODIFIED, WT_NEW,
};
use purs::head::{head_label, HeadRef};
use purs::host::HostnameError;
use purs::icons::{Icons, Symbols};
use purs::render::{
    compose_prompt_line, render_status, repo_status, status_line, AheadBehind, SegmentColor,
};
use purs::shorten::tico;
use purs::text::str_eq;

fn probes_none() -> OperationProbes {
    OperationProbes {
        rebasing_marker: false,
        applying_marker: false,
        rebase_dir: false,
        rebase_merge_interactive: false,
        rebase_merge: false,
        merge_head: false,
        bisect_log: false,
        cherry_pick_head: false,
        sequencer: false,
    }
}

#[test]
fn minimal_path_is_stable() {
    assert_eq!(tico("~/a/b/c", None), "~/a/b/c");
}

#[test]
fn reshortening_may_differ() {
    // The home string is not a prefix of the raw path, but it is a prefix
    // of the once-shortened path, so a second pass collapses further.
    let once = tico("/xy/ab", Some("/x/a"));
    assert_eq!(once, "/x/ab");
    let twice = tico(&once, Some("/x/a"));
    assert_eq!(twice, "~b");
    assert_ne!(once, twice);
}

#[test]
fn final_segment_survives_verbatim() {
    assert_eq!(tico("/work/projects/demo", None), "/w/p/demo");
}

#[test]
fn home_prefix_collapses() {
    assert_eq!(tico("/home/alice/projects/demo", Some("/home/alice")), "~/p/demo");
}

#[test]
fn dot_segment_keeps_leading_dot() {
    assert_eq!(tico("/home/alice/.config/nvim", Some("/home/alice")), "~/.c/nvim");
}

#[test]
fn home_replaces_only_leading_prefix() {
    assert_eq!(tico("/home/alice/home/alice", Some("/home/alice")), "~/h/alice");
}

#[test]
fn non_prefix_home_passes_through() {
    assert_eq!(tico("/opt/example", Some("/home/alice")), "/o/example");
}

#[test]
fn empty_path_shortens_to_empty() {
    assert_eq!(tico("", None), "");
    assert_eq!(tico("demo", None), "demo");
}

#[test]
fn dots_inside_segments_block_dropping() {
    assert_eq!(tico("/a.b/code", None), "/a.b/code");
}

#[test]
fn two_staged_one_conflict_counts() {
    let flags = vec![INDEX_MODIFIED, INDEX_MODIFIED, CONFLICTED];
    let counts = count_files_statuses(&flags);
    assert_eq!(counts.index_changed, 2);
    assert_eq!(counts.worktree_changed, 0);
    assert_eq!(counts.conflicted, 1);
    assert_eq!(counts.untracked, 0);
}

#[test]
fn one_path_can_count_in_two_categories() {
    let flags = vec![INDEX_NEW | WT_MODIFIED];
    let counts = count_files_statuses(&flags);
    assert_eq!(counts.index_changed, 1);
    assert_eq!(counts.worktree_changed, 1);
    assert_eq!(counts.conflicted, 0);
    assert_eq!(counts.untracked, 0);
}

#[test]
fn untracked_counts_only_as_untracked() {
    let flags = vec![WT_NEW, WT_NEW];
    let counts = count_files_statuses(&flags);
    assert_eq!(counts.index_changed, 0);
    assert_eq!(counts.worktree_changed, 0);
    assert_eq!(counts.conflicted, 0);
    assert_eq!(counts.untracked, 2);
}

#[test]
fn no_flags_no_counts() {
    let flags = vec![];
    let counts = count_files_statuses(&flags);
    assert_eq!(counts.index_changed, 0);
    assert_eq!(counts.worktree_changed, 0);
    assert_eq!(counts.conflicted, 0);
    assert_eq!(counts.untracked, 0);
}

#[test]
fn merge_outranks_bisect() {
    let mut p = probes_none();
    p.merge_head = true;
    p.bisect_log = true;
    assert_eq!(resolve_action(&p), Some(OperationTag::Merge));
}

#[test]
fn rebasing_marker_outranks_everything() {
    let mut p = probes_none();
    p.rebasing_marker = true;
    p.applying_marker = true;
    p.rebase_dir = true;
    p.merge_head = true;
    assert_eq!(resolve_action(&p), Some(OperationTag::Rebase));
}

#[test]
fn bare_rebase_dir_is_ambiguous() {
    let mut p = probes_none();
    p.rebase_dir = true;
    assert_eq!(resolve_action(&p), Some(OperationTag::AmOrRebase));
    assert_eq!(OperationTag::AmOrRebase.label(), "am/rebase");
}

#[test]
fn cherry_pick_with_sequencer() {
    let mut p = probes_none();
    p.cherry_pick_head = true;
    p.sequencer = true;
    assert_eq!(resolve_action(&p), Some(OperationTag::CherryPickSequence));
    p.sequencer = false;
    assert_eq!(resolve_action(&p), Some(OperationTag::CherryPick));
}

#[test]
fn sequencer_alone_is_cherry_or_revert() {
    let mut p = probes_none();
    p.sequencer = true;
    assert_eq!(resolve_action(&p), Some(OperationTag::CherryOrRevert));
    assert_eq!(OperationTag::CherryOrRevert.label(), "cherry-or-revert");
}

#[test]
fn no_probe_no_tag() {
    assert_eq!(resolve_action(&probes_none()), None);
}

#[test]
fn absent_control_dir_detects_nothing() {
    assert_eq!(get_action("/this/path/does/not/exist/anywhere/.git"), None);
}

#[test]
fn tag_labels() {
    assert_eq!(OperationTag::Rebase.label(), "rebase");
    assert_eq!(OperationTag::Am.label(), "am");
    assert_eq!(OperationTag::RebaseInteractive.label(), "rebase-i");
    assert_eq!(OperationTag::RebaseMerge.label(), "rebase-m");
    assert_eq!(OperationTag::Merge.label(), "merge");
    assert_eq!(OperationTag::Bisect.label(), "bisect");
    assert_eq!(OperationTag::CherryPickSequence.label(), "cherry-seq");
    assert_eq!(OperationTag::CherryPick.label(), "cherry");
}

#[test]
fn join_path_components() {
    assert_eq!(path_join("/repo/.git", "MERGE_HEAD"), "/repo/.git/MERGE_HEAD");
    assert_eq!(path_join("/repo/.git/", "MERGE_HEAD"), "/repo/.git/MERGE_HEAD");
    assert_eq!(path_join("", "x"), "/x");
}

#[test]
fn existing_probe_hands_back_file_name() {
    let paths = vec![String::from("/no/such/path/at/all"), String::from(".")];
    assert_eq!(check_file_exists(&paths), Some(String::from(".")));
}

#[test]
fn missing_probes_hand_back_nothing() {
    let paths = vec![String::from("/no/such/path/at/all")];
    assert_eq!(check_file_exists(&paths), None);
    assert_eq!(check_file_exists(&vec![]), None);
}

#[test]
fn plain_icon_set() {
    let icons = Icons::new(Symbols::Plain);
    assert_eq!(icons.ahead, "↑");
    assert_eq!(icons.behind, "↓");
    assert_eq!(icons.success, "✔");
    assert_eq!(icons.index_change, "♦");
    assert_eq!(icons.conflicted, "✖");
    assert_eq!(icons.wt_change, "✚");
    assert_eq!(icons.untracked, "…");
}

#[test]
fn nerd_icon_set() {
    let icons = Icons::new(Symbols::Nerd);
    assert_eq!(icons.ahead, "\u{eaa1}");
    assert_eq!(icons.behind, "\u{ea9a}");
    assert_eq!(icons.success, "\u{eab2}");
    assert_eq!(icons.index_change, "\u{f055a}");
    assert_eq!(icons.conflicted, "\u{ea87}");
    assert_eq!(icons.wt_change, "\u{f440}");
    assert_eq!(icons.untracked, "\u{f01d8}");
}

#[test]
fn branch_name_becomes_head() {
    let head = head_label(Some("main"), None);
    match head {
        Some(HeadRef::Named(n)) => assert_eq!(n, "main"),
        _ => panic!("expected a named head"),
    }
}

#[test]
fn placeholder_head_falls_back_to_target() {
    let head = head_label(Some("HEAD"), Some("abc123"));
    match &head {
        Some(h @ HeadRef::Detached(_)) => assert_eq!(h.display_name(), ":abc123"),
        _ => panic!("expected a detached head"),
    }
}

#[test]
fn unresolved_head_is_absent() {
    assert!(head_label(Some("HEAD"), None).is_none());
    assert!(head_label(None, None).is_none());
}

#[test]
fn clean_repository_badge() {
    let icons = Icons::new(Symbols::Plain);
    let head = head_label(Some("main"), None);
    let counts = count_files_statuses(&vec![]);
    let segments = render_status(&head, &None, &Some(counts), &None, &icons);
    assert_eq!(segments.len(), 2);
    assert_eq!(segments[0].text, "main");
    assert_eq!(segments[0].color, SegmentColor::Cyan);
    assert_eq!(segments[1].text, "✔");
    assert_eq!(segments[1].color, SegmentColor::Green);
    assert_eq!(status_line(&segments), "main ✔");
}

#[test]
fn end_to_end_clean_prompt_line() {
    let icons = Icons::new(Symbols::Plain);
    let cwd = tico("/home/alice/work/demo", Some("/home/alice"));
    let head = head_label(Some("main"), None);
    let counts = count_files_statuses(&vec![]);
    let badge = repo_status(&head, &None, &Some(counts), &None, &icons);
    assert_eq!(compose_prompt_line(&cwd, &badge), "~/w/demo main ✔");
}

#[test]
fn dirty_counts_replace_clean_glyph() {
    let icons = Icons::new(Symbols::Plain);
    let flags = vec![INDEX_MODIFIED, INDEX_MODIFIED, CONFLICTED];
    let counts = count_files_statuses(&flags);
    let head = head_label(Some("main"), None);
    let segments = render_status(&head, &None, &Some(counts), &None, &icons);
    let texts: Vec<&str> = segments.iter().map(|s| s.text.as_str()).collect();
    assert_eq!(texts, vec!["main", "♦ 2", "✖ 1"]);
    assert!(!texts.contains(&"✔"));
    assert_eq!(segments[1].color, SegmentColor::Green);
    assert_eq!(segments[2].color, SegmentColor::Red);
}

#[test]
fn untracked_glyph_has_no_count() {
    let icons = Icons::new(Symbols::Plain);
    let flags = vec![WT_NEW, WT_MODIFIED];
    let counts = count_files_statuses(&flags);
    let segments = render_status(&None, &None, &Some(counts), &None, &icons);
    let texts: Vec<&str> = segments.iter().map(|s| s.text.as_str()).collect();
    assert_eq!(texts, vec!["✚ 1", "…"]);
    assert_eq!(segments[0].color, SegmentColor::BrightYellow);
    assert_eq!(segments[1].color, SegmentColor::BrightYellow);
}

#[test]
fn no_upstream_renders_no_ahead_behind() {
    let icons = Icons::new(Symbols::Plain);
    let head = head_label(Some("main"), None);
    let counts = count_files_statuses(&vec![]);
    let segments = render_status(&head, &None, &Some(counts), &None, &icons);
    assert!(segments.iter().all(|s| !s.text.contains('↑') && !s.text.contains('↓')));
}

#[test]
fn positive_ahead_behind_render_with_counts() {
    let icons = Icons::new(Symbols::Plain);
    let ab = AheadBehind { ahead: 3, behind: 0 };
    let segments = render_status(&None, &Some(ab), &None, &None, &icons);
    let texts: Vec<&str> = segments.iter().map(|s| s.text.as_str()).collect();
    assert_eq!(texts, vec!["↑ 3"]);
    let both = AheadBehind { ahead: 12, behind: 4 };
    let segments = render_status(&None, &Some(both), &None, &None, &icons);
    let texts: Vec<&str> = segments.iter().map(|s| s.text.as_str()).collect();
    assert_eq!(texts, vec!["↑ 12", "↓ 4"]);
}

#[test]
fn unknown_status_renders_neither_clean_nor_counts() {
    let icons = Icons::new(Symbols::Plain);
    let head = head_label(Some("main"), None);
    let segments = render_status(&head, &None, &None, &None, &icons);
    assert_eq!(segments.len(), 1);
    assert_eq!(segments[0].text, "main");
}

#[test]
fn operation_tag_is_space_prefixed() {
    let icons = Icons::new(Symbols::Plain);
    let head = head_label(Some("main"), None);
    let counts = count_files_statuses(&vec![]);
    let segments = render_status(&head, &None, &Some(counts), &Some(OperationTag::Merge), &icons);
    let last = segments.last().unwrap();
    assert_eq!(last.text, " merge");
    assert_eq!(last.color, SegmentColor::Purple);
    let line = status_line(&segments);
    assert_eq!(line, "main ✔  merge");
}

#[test]
fn string_equality_helper() {
    assert!(str_eq("HEAD", "HEAD"));
    assert!(!str_eq("HEAD", "head"));
    assert!(!str_eq("a", "ab"));
}

#[test]
fn hostname_error_keeps_message() {
    let e = HostnameError::new("Failed getting hostname");
    assert_eq!(e.description(), "Failed getting hostname");
}
