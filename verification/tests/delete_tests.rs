use webdav_delete::AggregatedResult;
use webdav_delete::DeleteOutcome;
use webdav_delete::DeleteResponse;
use webdav_delete::DepthSpec;
use webdav_delete::DirEntryNode;
use webdav_delete::FsErrorKind;
use webdav_delete::FsNode;
use webdav_delete::ResourceMetadata;
use webdav_delete::ResourcePath;
use webdav_delete::StatusAggregator;
use webdav_delete::WalkOutcome;
use webdav_delete::delete_node;
use webdav_delete::dir_error_status;
use webdav_delete::file_error_status;
use webdav_delete::handle_delete;
use webdav_delete::parse_depth;
use webdav_delete::response_code;
use webdav_delete::response_status;

fn path_of(segments: &[&str]) -> ResourcePath {
    ResourcePath::new(segments.iter().map(|s| s.to_string()).collect())
}

fn file_ok() -> FsNode {
    FsNode::File { remove_error: None }
}

fn file_failing(e: FsErrorKind) -> FsNode {
    FsNode::File { remove_error: Some(e) }
}

fn entry(name: &str, node: FsNode) -> DirEntryNode {
    DirEntryNode { name: name.to_string(), meta_error: None, node }
}

fn dir_ok(entries: Vec<DirEntryNode>) -> FsNode {
    FsNode::Dir { read_error: None, entries, remove_error: None }
}

fn segments_of(p: &ResourcePath) -> Vec<String> {
    p.segments.clone()
}

#[test]
fn status_mapping_files() {
    assert_eq!(file_error_status(FsErrorKind::NotFound), 404);
    assert_eq!(file_error_status(FsErrorKind::Forbidden), 403);
    assert_eq!(file_error_status(FsErrorKind::Exists), 405);
    assert_eq!(file_error_status(FsErrorKind::InsufficientStorage), 507);
    assert_eq!(file_error_status(FsErrorKind::LoopDetected), 508);
    assert_eq!(file_error_status(FsErrorKind::GeneralFailure), 500);
}

#[test]
fn status_mapping_directories_override_exists() {
    assert_eq!(dir_error_status(FsErrorKind::Exists), 409);
    assert_eq!(dir_error_status(FsErrorKind::NotFound), 404);
    assert_eq!(dir_error_status(FsErrorKind::GeneralFailure), 500);
}

#[test]
fn parse_depth_values() {
    assert_eq!(parse_depth(None), Ok(DepthSpec::Infinity));
    assert_eq!(parse_depth(Some(&"infinity".to_string())), Ok(DepthSpec::Infinity));
    assert_eq!(parse_depth(Some(&"0".to_string())), Ok(DepthSpec::Zero));
    assert_eq!(parse_depth(Some(&"1".to_string())), Err(400));
    assert_eq!(parse_depth(Some(&"INFINITY ".to_string())), Err(400));
}

#[test]
fn path_child_and_equality() {
    let root = {
        let mut p = path_of(&["a"]);
        p.add_slash_if(true);
        p
    };
    let child = root.child(&"x".to_string(), false);
    assert_eq!(segments_of(&child), vec!["a".to_string(), "x".to_string()]);
    assert!(!child.collection);
    assert!(root.path_eq(&root));
    assert!(!root.path_eq(&child));
    let collection_child = root.child(&"y".to_string(), true);
    assert!(collection_child.collection);
    assert!(!collection_child.path_eq(&child));
}

#[test]
fn aggregator_collapses_empty_and_root() {
    let root = path_of(&["a"]);
    let empty = StatusAggregator::new();
    assert!(matches!(empty.finalize(&root), AggregatedResult::AllSucceeded));

    let mut one_at_root = StatusAggregator::new();
    one_at_root.record(&root, 500);
    assert!(matches!(one_at_root.finalize(&root), AggregatedResult::SingleFailure(500)));

    let mut one_below = StatusAggregator::new();
    one_below.record(&root.child(&"x".to_string(), false), 403);
    match one_below.finalize(&root) {
        AggregatedResult::PartialFailure(records) => {
            assert_eq!(records.len(), 1);
            assert_eq!(records[0].status, 403);
        }
        other => panic!("expected a partial failure, got {:?}", result_name(&other)),
    }
}

fn result_name(r: &AggregatedResult) -> &'static str {
    match r {
        AggregatedResult::AllSucceeded => "AllSucceeded",
        AggregatedResult::SingleFailure(_) => "SingleFailure",
        AggregatedResult::PartialFailure(_) => "PartialFailure",
    }
}

#[test]
fn all_success_tree_is_removed_with_no_records() {
    // root/ { sub/ { f1, f2 }, f3 }
    let tree = dir_ok(vec![
        entry("sub", dir_ok(vec![entry("f1", file_ok()), entry("f2", file_ok())])),
        entry("f3", file_ok()),
    ]);
    let root = path_of(&["root"]);
    let mut agg = StatusAggregator::new();
    let outcome = delete_node(&tree, DepthSpec::Infinity, &root, &mut agg);
    assert_eq!(outcome, WalkOutcome::Removed);
    assert_eq!(agg.records.len(), 0);
    assert!(matches!(agg.finalize(&root), AggregatedResult::AllSucceeded));
}

#[test]
fn failing_root_leaf_is_single_failure() {
    let tree = file_failing(FsErrorKind::Forbidden);
    let root = path_of(&["doc"]);
    let mut agg = StatusAggregator::new();
    let outcome = delete_node(&tree, DepthSpec::Infinity, &root, &mut agg);
    assert_eq!(outcome, WalkOutcome::Recorded);
    assert_eq!(agg.records.len(), 1);
    assert!(matches!(agg.finalize(&root), AggregatedResult::SingleFailure(403)));
}

#[test]
fn single_failing_leaf_below_root_is_partial_failure() {
    let tree = dir_ok(vec![entry("leaf", file_failing(FsErrorKind::Forbidden))]);
    let root = path_of(&["col"]);
    let mut agg = StatusAggregator::new();
    let outcome = delete_node(&tree, DepthSpec::Infinity, &root, &mut agg);
    assert_eq!(outcome, WalkOutcome::Recorded);
    match agg.finalize(&root) {
        AggregatedResult::PartialFailure(records) => {
            assert_eq!(records.len(), 1);
            assert_eq!(
                segments_of(&records[0].path),
                vec!["col".to_string(), "leaf".to_string()]
            );
            assert_eq!(records[0].status, 403);
        }
        other => panic!("expected a partial failure, got {:?}", result_name(&other)),
    }
}

#[test]
fn failed_child_keeps_directory_unrecorded() {
    // The directory holding the failing leaf is never itself recorded:
    // the only record is the leaf's, and the walk does not report removal.
    let tree = dir_ok(vec![
        entry("ok", file_ok()),
        entry("bad", file_failing(FsErrorKind::GeneralFailure)),
    ]);
    let root = path_of(&["col"]);
    let mut agg = StatusAggregator::new();
    let outcome = delete_node(&tree, DepthSpec::Infinity, &root, &mut agg);
    assert_eq!(outcome, WalkOutcome::Recorded);
    assert_eq!(agg.records.len(), 1);
    assert_eq!(
        segments_of(&agg.records[0].path),
        vec!["col".to_string(), "bad".to_string()]
    );
}

#[test]
fn records_keep_traversal_order_deepest_first() {
    // root/ { sub/ { bad1 }, bad2 }: the deeper failure is recorded first.
    let tree = dir_ok(vec![
        entry("sub", dir_ok(vec![entry("bad1", file_failing(FsErrorKind::Forbidden))])),
        entry("bad2", file_failing(FsErrorKind::GeneralFailure)),
    ]);
    let root = path_of(&["root"]);
    let mut agg = StatusAggregator::new();
    let outcome = delete_node(&tree, DepthSpec::Infinity, &root, &mut agg);
    assert_eq!(outcome, WalkOutcome::Recorded);
    assert_eq!(agg.records.len(), 2);
    assert_eq!(
        segments_of(&agg.records[0].path),
        vec!["root".to_string(), "sub".to_string(), "bad1".to_string()]
    );
    assert_eq!(
        segments_of(&agg.records[1].path),
        vec!["root".to_string(), "bad2".to_string()]
    );
}

#[test]
fn depth_zero_on_nonempty_collection_is_root_conflict() {
    let tree = FsNode::Dir {
        read_error: None,
        entries: vec![entry("x", file_ok())],
        remove_error: Some(FsErrorKind::Exists),
    };
    let root = path_of(&["col"]);
    let mut agg = StatusAggregator::new();
    let outcome = delete_node(&tree, DepthSpec::Zero, &root, &mut agg);
    assert_eq!(outcome, WalkOutcome::Recorded);
    assert_eq!(agg.records.len(), 1);
    assert_eq!(segments_of(&agg.records[0].path), vec!["col".to_string()]);
    assert_eq!(agg.records[0].status, 409);
    assert!(matches!(agg.finalize(&root), AggregatedResult::SingleFailure(409)));
}

#[test]
fn depth_zero_on_empty_collection_succeeds() {
    let tree = dir_ok(vec![]);
    let root = path_of(&["col"]);
    let mut agg = StatusAggregator::new();
    let outcome = delete_node(&tree, DepthSpec::Zero, &root, &mut agg);
    assert_eq!(outcome, WalkOutcome::Removed);
    assert_eq!(agg.records.len(), 0);
}

#[test]
fn enumeration_failure_aborts_scoped_to_its_subtree() {
    // /a/ holds /a/x (deletable file) and /a/y/ (unreadable directory):
    // x is deleted, the only record is y's enumeration failure, and /a/
    // itself is not removed.
    let tree = dir_ok(vec![
        entry("x", file_ok()),
        entry(
            "y",
            FsNode::Dir {
                read_error: Some(FsErrorKind::Forbidden),
                entries: vec![],
                remove_error: None,
            },
        ),
    ]);
    let root = {
        let mut p = path_of(&["a"]);
        p.add_slash_if(true);
        p
    };
    let mut agg = StatusAggregator::new();
    let outcome = delete_node(&tree, DepthSpec::Infinity, &root, &mut agg);
    assert_eq!(outcome, WalkOutcome::Aborted);
    assert_eq!(agg.records.len(), 1);
    assert_eq!(
        segments_of(&agg.records[0].path),
        vec!["a".to_string(), "y".to_string()]
    );
    assert_eq!(agg.records[0].status, 403);
    match agg.finalize(&root) {
        AggregatedResult::PartialFailure(records) => assert_eq!(records.len(), 1),
        other => panic!("expected a partial failure, got {:?}", result_name(&other)),
    }
}

#[test]
fn abort_skips_remaining_siblings() {
    // The sibling after the unreadable directory is never visited, so the
    // only record is the enumeration failure.
    let tree = dir_ok(vec![
        entry(
            "y",
            FsNode::Dir {
                read_error: Some(FsErrorKind::GeneralFailure),
                entries: vec![],
                remove_error: None,
            },
        ),
        entry("late", file_failing(FsErrorKind::Forbidden)),
    ]);
    let root = path_of(&["a"]);
    let mut agg = StatusAggregator::new();
    let outcome = delete_node(&tree, DepthSpec::Infinity, &root, &mut agg);
    assert_eq!(outcome, WalkOutcome::Aborted);
    assert_eq!(agg.records.len(), 1);
    assert_eq!(
        segments_of(&agg.records[0].path),
        vec!["a".to_string(), "y".to_string()]
    );
}

#[test]
fn metadata_failure_is_recorded_and_walk_continues() {
    let tree = dir_ok(vec![
        DirEntryNode {
            name: "ghost".to_string(),
            meta_error: Some(FsErrorKind::GeneralFailure),
            node: file_ok(),
        },
        entry("real", file_ok()),
    ]);
    let root = path_of(&["a"]);
    let mut agg = StatusAggregator::new();
    let outcome = delete_node(&tree, DepthSpec::Infinity, &root, &mut agg);
    assert_eq!(outcome, WalkOutcome::Recorded);
    assert_eq!(agg.records.len(), 1);
    assert_eq!(
        segments_of(&agg.records[0].path),
        vec!["a".to_string(), "ghost".to_string()]
    );
    assert_eq!(agg.records[0].status, 500);
}

fn plain_meta() -> ResourceMetadata {
    ResourceMetadata { is_collection: true, is_symlink: false }
}

#[test]
fn handle_delete_rejects_bad_depth_header() {
    let out: DeleteOutcome = handle_delete(
        Some(&"2".to_string()),
        Ok(plain_meta()),
        None,
        Ok(()),
        false,
        &dir_ok(vec![]),
        path_of(&["a"]),
    );
    assert!(matches!(out.response, DeleteResponse::Plain(400)));
    assert!(!out.release_locks);
}

#[test]
fn handle_delete_maps_root_stat_failure() {
    let out = handle_delete(
        None,
        Err(FsErrorKind::NotFound),
        None,
        Ok(()),
        false,
        &dir_ok(vec![]),
        path_of(&["a"]),
    );
    assert!(matches!(out.response, DeleteResponse::Plain(404)));
    assert!(!out.release_locks);
}

#[test]
fn handle_delete_short_circuits_on_precondition() {
    let out = handle_delete(
        None,
        Ok(plain_meta()),
        None,
        Err(412),
        false,
        &dir_ok(vec![]),
        path_of(&["a"]),
    );
    assert!(matches!(out.response, DeleteResponse::Plain(412)));
    assert!(!out.release_locks);
}

#[test]
fn lock_conflict_is_plain_423_and_nothing_else() {
    let out = handle_delete(
        None,
        Ok(plain_meta()),
        None,
        Ok(()),
        true,
        &dir_ok(vec![entry("x", file_failing(FsErrorKind::Forbidden))]),
        path_of(&["a"]),
    );
    assert!(matches!(out.response, DeleteResponse::Plain(423)));
    assert!(!out.release_locks);
}

#[test]
fn handle_delete_success_releases_locks() {
    let out = handle_delete(
        None,
        Ok(plain_meta()),
        None,
        Ok(()),
        false,
        &dir_ok(vec![entry("x", file_ok())]),
        path_of(&["a"]),
    );
    assert!(matches!(out.response, DeleteResponse::Plain(204)));
    assert!(out.release_locks);
}

#[test]
fn handle_delete_partial_failure_is_multi_status() {
    let out = handle_delete(
        None,
        Ok(plain_meta()),
        None,
        Ok(()),
        false,
        &dir_ok(vec![
            entry("x", file_ok()),
            entry("bad", file_failing(FsErrorKind::Forbidden)),
        ]),
        path_of(&["a"]),
    );
    match &out.response {
        DeleteResponse::MultiStatus(records) => {
            assert_eq!(records.len(), 1);
            assert_eq!(
                segments_of(&records[0].path),
                vec!["a".to_string(), "bad".to_string()]
            );
            assert_eq!(records[0].status, 403);
        }
        DeleteResponse::Plain(s) => panic!("expected multi-status, got plain {}", s),
    }
    assert!(!out.release_locks);
    assert_eq!(response_code(&out.response), 207);
}

#[test]
fn symlink_root_to_collection_gets_collection_marker_and_conflict() {
    // A symbolic link at the root pointing at a non-empty collection,
    // deleted with Depth: 0, fails like a collection: one record at the
    // marked root, collapsing to a plain 409.
    let meta = ResourceMetadata { is_collection: false, is_symlink: true };
    let target = ResourceMetadata { is_collection: true, is_symlink: false };
    let out = handle_delete(
        Some(&"0".to_string()),
        Ok(meta),
        Some(target),
        Ok(()),
        false,
        &FsNode::Dir {
            read_error: None,
            entries: vec![entry("x", file_ok())],
            remove_error: Some(FsErrorKind::Exists),
        },
        path_of(&["link"]),
    );
    assert!(matches!(out.response, DeleteResponse::Plain(409)));
    assert!(!out.release_locks);
}

#[test]
fn response_codes_for_http() {
    let plain = DeleteResponse::Plain(204);
    assert_eq!(response_code(&plain), 204);
    assert_eq!(response_status(&plain).as_u16(), 204);
    let locked = DeleteResponse::Plain(423);
    assert_eq!(response_status(&locked).as_u16(), 423);
    let multi = DeleteResponse::MultiStatus(vec![]);
    assert_eq!(response_code(&multi), 207);
    assert_eq!(response_status(&multi).as_u16(), 207);
}

#[test]
fn depth_from_headers_reads_the_map() {
    let mut headers = http::HeaderMap::new();
    assert_eq!(webdav_delete::depth_from_headers(&headers), Ok(DepthSpec::Infinity));
    headers.insert("depth", http::HeaderValue::from_static("0"));
    assert_eq!(webdav_delete::depth_from_headers(&headers), Ok(DepthSpec::Zero));
    headers.insert("depth", http::HeaderValue::from_static("infinity"));
    assert_eq!(webdav_delete::depth_from_headers(&headers), Ok(DepthSpec::Infinity));
    headers.insert("depth", http::HeaderValue::from_static("1"));
    assert_eq!(webdav_delete::depth_from_headers(&headers), Err(400));
    headers.insert("depth", http::HeaderValue::from_bytes(&[0xC3u8, 0xA9u8]).unwrap());
    assert_eq!(webdav_delete::depth_from_headers(&headers), Err(400));
}
