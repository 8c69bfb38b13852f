use vizjj::commit::{build_commit, classify_immutable, enrich_commit, parent_hexes, RawCommit};
use vizjj::log::{CommitLog, UPPER_LIMIT};
use vizjj::timestamp::{Timestamp, TimestampError};
use vizjj::view::{NamedTarget, RepoView};
use vizjj::Commit;

fn id(b: u8) -> Vec<u8> {
    vec![b; 4]
}

fn raw(commit: u8, parents: Vec<Vec<u8>>) -> RawCommit {
    RawCommit {
        change_id: vec![commit, 0x10],
        commit_id: id(commit),
        author_email: "dev@example.com".to_string(),
        author_timestamp: Timestamp { millis: 0, tz_offset: 0 },
        parent_ids: parents,
        has_conflict: false,
        description: format!("commit {}", commit),
    }
}

fn target(name: &str, ids: Vec<Vec<u8>>) -> NamedTarget {
    NamedTarget { name: name.to_string(), added_ids: ids }
}

fn empty_view() -> RepoView {
    RepoView { bookmarks: vec![], tags: vec![], wc_commit_id: None }
}

fn run_log(view: RepoView, items: Vec<(RawCommit, Option<bool>)>) -> Vec<Commit> {
    let mut log = CommitLog::new(view);
    for (r, imm) in items {
        if log.is_full() {
            break;
        }
        log.push(r, imm).unwrap();
    }
    log.into_commits()
}

#[test]
fn linear_history_with_protected_head() {
    let a = raw(0xa0, vec![]);
    let b = raw(0xb0, vec![id(0xa0)]);
    let c = raw(0xc0, vec![id(0xb0)]);
    let view = RepoView {
        bookmarks: vec![target("main", vec![id(0xc0)])],
        tags: vec![],
        wc_commit_id: None,
    };
    let commits = run_log(view, vec![(c, Some(true)), (b, Some(true)), (a, Some(true))]);
    assert_eq!(commits.len(), 3);
    for c in &commits {
        assert!(c.is_immutable);
    }
    assert_eq!(commits[0].commit_id, "c0c0c0c0");
    assert_eq!(commits[0].bookmarks, "main");
    assert_eq!(commits[1].bookmarks, "");
    assert_eq!(commits[2].bookmarks, "");
    assert_eq!(commits[2].parents.len(), 0);
}

#[test]
fn merge_keeps_recorded_parent_order() {
    let m = raw(0x33, vec![id(0x22), id(0x11)]);
    let commits = run_log(empty_view(), vec![(m, Some(false))]);
    assert_eq!(commits[0].parents, vec!["22222222".to_string(), "11111111".to_string()]);
    let m2 = raw(0x34, vec![id(0x11), id(0x22)]);
    let commits = run_log(empty_view(), vec![(m2, Some(false))]);
    assert_eq!(commits[0].parents, vec!["11111111".to_string(), "22222222".to_string()]);
}

#[test]
fn ids_are_rendered_as_hex_and_reverse_hex() {
    let mut r = raw(0x00, vec![]);
    r.commit_id = vec![0x0a, 0xf1];
    r.change_id = vec![0x00, 0xff, 0x3c];
    let c = enrich_commit(&r, "t".to_string(), None, &empty_view());
    assert_eq!(c.commit_id, "0af1");
    assert_eq!(c.change_id, "zzkkwn");
    assert_eq!(parent_hexes(&vec![vec![0xde, 0xad]]), vec!["dead".to_string()]);
}

#[test]
fn absolute_timestamp_text() {
    let mut r = raw(1, vec![]);
    let c = build_commit(&r, Some(false), &empty_view()).unwrap();
    assert_eq!(c.timestamp, "1970-01-01 00:00:00.000 +00:00");
    r.author_timestamp = Timestamp { millis: 1_500, tz_offset: 90 };
    let c = build_commit(&r, Some(false), &empty_view()).unwrap();
    assert_eq!(c.timestamp, "1970-01-01 01:30:01.500 +01:30");
    r.author_timestamp = Timestamp { millis: -1, tz_offset: -60 };
    let c = build_commit(&r, Some(false), &empty_view()).unwrap();
    assert_eq!(c.timestamp, "1969-12-31 22:59:59.999 -01:00");
}

#[test]
fn out_of_range_timestamp_is_an_error() {
    let mut r = raw(1, vec![]);
    r.author_timestamp = Timestamp { millis: i64::MAX, tz_offset: 0 };
    assert!(matches!(build_commit(&r, None, &empty_view()), Err(TimestampError::OutOfRange)));
    let mut log = CommitLog::new(empty_view());
    assert_eq!(log.push(r, None), Err(TimestampError::OutOfRange));
    assert_eq!(log.len(), 0);
}

#[test]
fn undecided_immutability_is_immutable() {
    assert!(classify_immutable(None));
    assert!(classify_immutable(Some(true)));
    assert!(!classify_immutable(Some(false)));
    let commits = run_log(empty_view(), vec![(raw(1, vec![]), None), (raw(2, vec![]), Some(false))]);
    assert!(commits[0].is_immutable);
    assert!(!commits[1].is_immutable);
}

#[test]
fn bookmarks_match_exact_target_only() {
    let view = RepoView {
        bookmarks: vec![
            target("dev", vec![id(2)]),
            target("feature", vec![id(1)]),
            target("main", vec![id(2)]),
            target("conflicted", vec![id(3), id(2)]),
        ],
        tags: vec![],
        wc_commit_id: None,
    };
    assert_eq!(view.bookmarks_for_commit(&id(2)), "devmainconflicted");
    assert_eq!(view.bookmarks_for_commit(&id(1)), "feature");
    assert_eq!(view.bookmarks_for_commit(&id(9)), "");
}

#[test]
fn tags_match_recorded_targets_only() {
    let view = RepoView {
        bookmarks: vec![],
        tags: vec![target("v1", vec![id(1)]), target("v2", vec![id(2)]), target("gone", vec![])],
        wc_commit_id: None,
    };
    let child = raw(2, vec![id(1)]);
    let parent = raw(1, vec![]);
    let commits = run_log(view, vec![(child, Some(false)), (parent, Some(true))]);
    assert_eq!(commits[0].tags, "v2");
    assert_eq!(commits[1].tags, "v1");
}

#[test]
fn single_working_copy_is_marked_once() {
    let view = RepoView { bookmarks: vec![], tags: vec![], wc_commit_id: Some(id(2)) };
    let commits = run_log(
        view,
        vec![(raw(3, vec![]), Some(false)), (raw(2, vec![]), Some(false)), (raw(1, vec![]), Some(false))],
    );
    let marked: Vec<&Commit> = commits.iter().filter(|c| c.is_working_copy).collect();
    assert_eq!(marked.len(), 1);
    assert_eq!(marked[0].commit_id, "02020202");
}

#[test]
fn no_working_copy_marks_nothing() {
    let commits = run_log(empty_view(), vec![(raw(1, vec![]), Some(false)), (raw(2, vec![]), Some(false))]);
    assert!(commits.iter().all(|c| !c.is_working_copy));
}

#[test]
fn log_is_capped_in_evaluation_order() {
    let mut log = CommitLog::new(empty_view());
    let mut taken: usize = 0;
    for k in 0..(UPPER_LIMIT + 5) {
        if log.is_full() {
            break;
        }
        let mut r = raw(0, vec![]);
        r.commit_id = (k as u32).to_be_bytes().to_vec();
        log.push(r, Some(false)).unwrap();
        taken += 1;
    }
    assert_eq!(taken, 3000);
    assert!(log.is_full());
    let commits = log.into_commits();
    assert_eq!(commits.len(), 3000);
    assert_eq!(commits[0].commit_id, "00000000");
    assert_eq!(commits[2999].commit_id, "00000bb7");
}

#[test]
fn same_inputs_give_same_log() {
    let make = || {
        let view = RepoView {
            bookmarks: vec![target("main", vec![id(2)])],
            tags: vec![target("v1", vec![id(1)])],
            wc_commit_id: Some(id(2)),
        };
        run_log(view, vec![(raw(2, vec![id(1)]), Some(false)), (raw(1, vec![]), None)])
    };
    let first = make();
    let second = make();
    assert_eq!(first.len(), second.len());
    for (x, y) in first.iter().zip(second.iter()) {
        assert_eq!(x.commit_id, y.commit_id);
        assert_eq!(x.change_id, y.change_id);
        assert_eq!(x.parents, y.parents);
        assert_eq!(x.bookmarks, y.bookmarks);
        assert_eq!(x.tags, y.tags);
        assert_eq!(x.timestamp, y.timestamp);
        assert_eq!(x.is_immutable, y.is_immutable);
        assert_eq!(x.is_working_copy, y.is_working_copy);
        assert_eq!(x.description, y.description);
    }
}

#[test]
fn working_copy_of_another_workspace_is_not_marked() {
    // The current workspace has commit 1 checked out; commit 2 is the working
    // copy of a second workspace and is not part of this view.
    let view = RepoView { bookmarks: vec![], tags: vec![], wc_commit_id: Some(id(1)) };
    assert!(view.is_wc_commit_id(&id(1)));
    assert!(!view.is_wc_commit_id(&id(2)));
    let commits = run_log(view, vec![(raw(2, vec![id(1)]), Some(false)), (raw(1, vec![]), Some(false))]);
    assert!(!commits[0].is_working_copy);
    assert!(commits[1].is_working_copy);
}

#[test]
fn timestamps_far_from_the_epoch_are_formatted() {
    let mut r = raw(1, vec![]);
    r.author_timestamp = Timestamp { millis: 8_000_000_000_000_000, tz_offset: 0 };
    assert!(build_commit(&r, None, &empty_view()).is_ok());
    r.author_timestamp = Timestamp { millis: -8_000_000_000_000_000, tz_offset: 0 };
    assert!(build_commit(&r, None, &empty_view()).is_ok());
    let mut log = CommitLog::new(empty_view());
    assert_eq!(log.push(r, None), Ok(()));
    assert_eq!(log.len(), 1);
}
