//! The laws of the delete walk, stated over the walk's specification and
//! proved once for every tree, depth and path.

use vstd::prelude::*;

use crate::aggregate::AggModel;
use crate::aggregate::RecordModel;
use crate::aggregate::finalize_spec;
use crate::depth::DepthSpec;
use crate::depth::parse_depth_spec;
use crate::handler::OutcomeModel;
use crate::handler::ResourceMetadata;
use crate::handler::ResponseModel;
use crate::handler::handle_delete_spec;
use crate::handler::resolved_collection;
use crate::path::PathModel;
use crate::path::at_or_below;
use crate::path::strictly_below;
use crate::status::FsErrorKind;
use crate::status::STATUS_CONFLICT;
use crate::status::STATUS_LOCKED;
use crate::status::file_status_of;
use crate::tree::DirEntryNode;
use crate::tree::EventModel;
use crate::tree::FsNode;
use crate::tree::WalkOutcome;
use crate::tree::entry_path;
use crate::tree::entry_walk;
use crate::tree::failures_of;
use crate::tree::lemma_failures_of_concat;
use crate::tree::lemma_failures_of_single_failed;
use crate::tree::lemma_failures_of_single_removed;
use crate::tree::walk_entries;
use crate::tree::walk_node;

verus! {

/// Whether every filesystem call the walk will make on this tree is
/// scripted to succeed.
pub open spec fn all_deletable(n: FsNode, depth: DepthSpec) -> bool
    decreases n, 1int,
{
    match n {
        FsNode::File { remove_error } => remove_error is None,
        FsNode::Dir { read_error, entries, remove_error } => {
            if depth is Zero {
                remove_error is None
            } else {
                read_error is None && remove_error is None && all_entries_deletable(
                    entries@,
                    0,
                    depth,
                )
            }
        },
    }
}

/// Whether every entry from index `i` on resolves and deletes
/// successfully.
pub open spec fn all_entries_deletable(es: Seq<DirEntryNode>, i: int, depth: DepthSpec) -> bool
    decreases es, es.len() - i,
{
    if i < 0 || i >= es.len() {
        true
    } else {
        es[i].meta_error is None && all_deletable(es[i].node, depth) && all_entries_deletable(
            es,
            i + 1,
            depth,
        )
    }
}

/// LAW: on a tree where every resource deletes successfully, the entry
/// walk neither fails nor aborts and records no failure.
pub proof fn lemma_entries_all_deletable(
    es: Seq<DirEntryNode>,
    i: int,
    depth: DepthSpec,
    dpath: PathModel,
)
    requires
        all_entries_deletable(es, i, depth),
    ensures
        ({
            let ew = walk_entries(es, i, depth, dpath);
            !ew.failed && !ew.aborted && failures_of(ew.events) == Seq::<RecordModel>::empty()
        }),
    decreases es, es.len() - i,
{
    if i < 0 || i >= es.len() {
        assert(failures_of(Seq::<EventModel>::empty()) == Seq::<RecordModel>::empty());
    } else {
        lemma_all_deletable(es[i].node, depth, entry_path(dpath, es[i]));
        lemma_entries_all_deletable(es, i + 1, depth, dpath);
        let head = entry_walk(es[i], depth, dpath);
        let rest = walk_entries(es, i + 1, depth, dpath);
        lemma_failures_of_concat(head.events, rest.events);
        assert(failures_of(walk_entries(es, i, depth, dpath).events) =~= Seq::<
            RecordModel,
        >::empty());
    }
}

/// LAW: on a tree where every resource deletes successfully, the walk
/// removes the root, records no failure, and the aggregated result is
/// `AllSucceeded`.
pub proof fn lemma_all_deletable(n: FsNode, depth: DepthSpec, path: PathModel)
    requires
        all_deletable(n, depth),
    ensures
        ({
            let w = walk_node(n, depth, path);
            w.outcome == WalkOutcome::Removed && failures_of(w.events) == Seq::<
                RecordModel,
            >::empty() && finalize_spec(failures_of(w.events), path) == AggModel::AllSucceeded
        }),
    decreases n, 1int,
{
    match n {
        FsNode::File { remove_error } => {
            lemma_failures_of_single_removed(path);
        },
        FsNode::Dir { read_error, entries, remove_error } => {
            if depth is Zero {
                lemma_failures_of_single_removed(path);
            } else {
                lemma_entries_all_deletable(entries@, 0, depth, path);
                let ew = walk_entries(entries@, 0, depth, path);
                assert(ew.events.push(EventModel::Removed(path)) =~= ew.events + seq![
                    EventModel::Removed(path),
                ]);
                lemma_failures_of_concat(ew.events, seq![EventModel::Removed(path)]);
                lemma_failures_of_single_removed(path);
                assert(failures_of(walk_node(n, depth, path).events) =~= Seq::<
                    RecordModel,
                >::empty());
            }
        },
    }
}

/// LAW: when the failing leaf is the root itself, the result collapses
/// to `SingleFailure` with the leaf's mapped status.
pub proof fn lemma_failing_root_leaf(e: FsErrorKind, depth: DepthSpec, path: PathModel)
    ensures
        ({
            let n = FsNode::File { remove_error: Option::Some(e) };
            let w = walk_node(n, depth, path);
            w.outcome == WalkOutcome::Recorded && failures_of(w.events) == seq![
                RecordModel { path: path, status: file_status_of(e) },
            ] && finalize_spec(failures_of(w.events), path) == AggModel::SingleFailure(
                file_status_of(e),
            )
        }),
{
    lemma_failures_of_single_failed(path, file_status_of(e));
}

/// LAW: when exactly one leaf fails and the root has no other children,
/// and that leaf is not the root, the result is a `PartialFailure`
/// holding exactly that leaf's record, never a `SingleFailure`.
pub proof fn lemma_single_failing_leaf_child(
    n: FsNode,
    entry: DirEntryNode,
    e: FsErrorKind,
    path: PathModel,
)
    requires
        n is Dir,
        n->Dir_read_error is None,
        n->Dir_entries@ == seq![entry],
        entry.meta_error is None,
        entry.node == (FsNode::File { remove_error: Option::Some(e) }),
    ensures
        ({
            let w = walk_node(n, DepthSpec::Infinity, path);
            let rec = RecordModel { path: entry_path(path, entry), status: file_status_of(e) };
            w.outcome == WalkOutcome::Recorded && failures_of(w.events) == seq![rec]
                && finalize_spec(failures_of(w.events), path) == AggModel::PartialFailure(
                seq![rec],
            )
        }),
{
    let es = n->Dir_entries@;
    let cpath = entry_path(path, entry);
    let head = entry_walk(es[0], DepthSpec::Infinity, path);
    assert(es[0] == entry);
    let rest = walk_entries(es, 1, DepthSpec::Infinity, path);
    assert(rest.events == Seq::<EventModel>::empty());
    let ew = walk_entries(es, 0, DepthSpec::Infinity, path);
    assert(ew.failed);
    assert(ew.events =~= head.events);
    lemma_failures_of_single_failed(cpath, file_status_of(e));
    assert(cpath.segments.len() == path.segments.len() + 1);
    assert(cpath != path);
}

/// LAW: a shallow (`Depth: 0`) delete of a non-empty collection yields
/// exactly one record, the root with 409 Conflict, and the result
/// collapses to `SingleFailure(409)`.
pub proof fn lemma_depth_zero_nonempty(n: FsNode, path: PathModel)
    requires
        n is Dir,
        n->Dir_remove_error == Option::Some(FsErrorKind::Exists),
    ensures
        ({
            let w = walk_node(n, DepthSpec::Zero, path);
            w.outcome == WalkOutcome::Recorded && failures_of(w.events) == seq![
                RecordModel { path: path, status: STATUS_CONFLICT },
            ] && finalize_spec(failures_of(w.events), path) == AggModel::SingleFailure(
                STATUS_CONFLICT,
            )
        }),
{
    lemma_failures_of_single_failed(path, STATUS_CONFLICT);
}

/// Every event of a walk lies at or below the walked path.
pub proof fn lemma_events_below(n: FsNode, depth: DepthSpec, path: PathModel)
    ensures
        ({
            let w = walk_node(n, depth, path);
            forall|k: int|
                0 <= k < w.events.len() ==> at_or_below(
                    (#[trigger] w.events[k]).path().segments,
                    path.segments,
                )
        }),
    decreases n, 1int,
{
    match n {
        FsNode::File { remove_error } => {
        },
        FsNode::Dir { read_error, entries, remove_error } => {
            if depth is Zero {
            } else {
                match read_error {
                    Option::Some(e) => {
                    },
                    Option::None => {
                        lemma_entries_events_below(entries@, 0, depth, path);
                        let ew = walk_entries(entries@, 0, depth, path);
                        let w = walk_node(n, depth, path);
                        assert forall|k: int| 0 <= k < w.events.len() implies at_or_below(
                            (#[trigger] w.events[k]).path().segments,
                            path.segments,
                        ) by {
                            if k < ew.events.len() {
                                assert(w.events[k] == ew.events[k]);
                            } else {
                                assert(w.events[k].path() == path);
                            }
                        }
                    },
                }
            }
        },
    }
}

/// Every event a directory's entry walk emits lies strictly below the
/// directory's path.
pub proof fn lemma_entries_events_below(
    es: Seq<DirEntryNode>,
    i: int,
    depth: DepthSpec,
    dpath: PathModel,
)
    ensures
        ({
            let ew = walk_entries(es, i, depth, dpath);
            forall|k: int|
                0 <= k < ew.events.len() ==> strictly_below(
                    (#[trigger] ew.events[k]).path().segments,
                    dpath.segments,
                )
        }),
    decreases es, es.len() - i,
{
    if i < 0 || i >= es.len() {
    } else {
        let head = entry_walk(es[i], depth, dpath);
        let cpath = entry_path(dpath, es[i]);
        if es[i].meta_error is None {
            lemma_events_below(es[i].node, depth, cpath);
        }
        assert forall|k: int| 0 <= k < head.events.len() implies strictly_below(
            (#[trigger] head.events[k]).path().segments,
            dpath.segments,
        ) by {
            assert(at_or_below(head.events[k].path().segments, cpath.segments));
        }
        let ew = walk_entries(es, i, depth, dpath);
        if head.outcome is Aborted {
        } else {
            lemma_entries_events_below(es, i + 1, depth, dpath);
            let rest = walk_entries(es, i + 1, depth, dpath);
            assert forall|k: int| 0 <= k < ew.events.len() implies strictly_below(
                (#[trigger] ew.events[k]).path().segments,
                dpath.segments,
            ) by {
                if k < head.events.len() {
                    assert(ew.events[k] == head.events[k]);
                } else {
                    assert(ew.events[k] == rest.events[k - head.events.len()]);
                }
            }
        }
    }
}

/// Within one directory, the enumeration yields each entry name once.
pub open spec fn distinct_names(es: Seq<DirEntryNode>) -> bool {
    forall|j: int, k: int| 0 <= j < k < es.len() ==> es[j].name@ != es[k].name@
}

/// A well-formed script: every directory's entry names are distinct, as
/// a real directory enumeration yields them.
pub open spec fn wf_node(n: FsNode) -> bool
    decreases n, 1int,
{
    match n {
        FsNode::File { remove_error } => true,
        FsNode::Dir { read_error, entries, remove_error } => distinct_names(entries@)
            && wf_entries(entries@, 0),
    }
}

/// Well-formedness of every entry node from index `i` on.
pub open spec fn wf_entries(es: Seq<DirEntryNode>, i: int) -> bool
    decreases es, es.len() - i,
{
    if i < 0 || i >= es.len() {
        true
    } else {
        wf_node(es[i].node) && wf_entries(es, i + 1)
    }
}

/// LAW (post-order): in the event sequence of a walk over a well-formed
/// tree, a removal success at a path comes strictly after every
/// recorded outcome at a descendant of that path, and every such
/// descendant outcome is itself a removal; and a walk that removes its
/// root emits removals only.
pub proof fn lemma_postorder(n: FsNode, depth: DepthSpec, path: PathModel)
    requires
        wf_node(n),
    ensures
        ({
            let w = walk_node(n, depth, path);
            &&& (w.outcome == WalkOutcome::Removed ==> forall|k: int|
                0 <= k < w.events.len() ==> (#[trigger] w.events[k]) is Removed)
            &&& forall|j: int, k: int|
                0 <= j < w.events.len() && 0 <= k < w.events.len() && (#[trigger] w.events[j])
                    is Removed && strictly_below(
                    (#[trigger] w.events[k]).path().segments,
                    w.events[j].path().segments,
                ) ==> k < j && w.events[k] is Removed
        }),
    decreases n, 1int,
{
    match n {
        FsNode::File { remove_error } => {
        },
        FsNode::Dir { read_error, entries, remove_error } => {
            if depth is Zero {
            } else {
                match read_error {
                    Option::Some(e) => {
                    },
                    Option::None => {
                        lemma_postorder_entries(entries@, 0, depth, path);
                        lemma_entries_events_below(entries@, 0, depth, path);
                        let ew = walk_entries(entries@, 0, depth, path);
                        let w = walk_node(n, depth, path);
                        let hl = ew.events.len() as int;
                        if ew.aborted || ew.failed {
                            assert(w.events == ew.events);
                        } else {
                            assert(w.events.len() == hl + 1);
                            assert(forall|k: int|
                                0 <= k < hl ==> #[trigger] w.events[k] == ew.events[k]);
                            assert(w.events[hl].path() == path);
                            assert forall|j: int, k: int|
                                0 <= j < w.events.len() && 0 <= k < w.events.len() && (
                                #[trigger] w.events[j]) is Removed && strictly_below(
                                (#[trigger] w.events[k]).path().segments,
                                w.events[j].path().segments,
                            ) implies k < j && w.events[k] is Removed by {
                                if j < hl && k < hl {
                                } else if j == hl {
                                    assert(k != j);
                                    if k < hl {
                                        assert(ew.events[k] is Removed);
                                    }
                                } else {
                                    assert(k == hl);
                                    assert(strictly_below(
                                        path.segments,
                                        w.events[j].path().segments,
                                    ));
                                    assert(strictly_below(
                                        w.events[j].path().segments,
                                        path.segments,
                                    ));
                                    assert(false);
                                }
                            }
                        }
                    },
                }
            }
        },
    }
}

/// The post-order law for a directory's entry walk: events are tagged
/// by the entry they arose under, a clean walk emits removals only, and
/// a removal success precedes and covers every outcome below it.
pub proof fn lemma_postorder_entries(
    es: Seq<DirEntryNode>,
    i: int,
    depth: DepthSpec,
    dpath: PathModel,
)
    requires
        distinct_names(es),
        wf_entries(es, i),
    ensures
        ({
            let ew = walk_entries(es, i, depth, dpath);
            &&& (!ew.failed && !ew.aborted ==> forall|k: int|
                0 <= k < ew.events.len() ==> (#[trigger] ew.events[k]) is Removed)
            &&& forall|k: int|
                0 <= k < ew.events.len() ==> exists|j: int|
                    #![auto]
                    i <= j < es.len() && at_or_below(
                        (#[trigger] ew.events[k]).path().segments,
                        dpath.segments.push(es[j].name@),
                    )
            &&& forall|j: int, k: int|
                0 <= j < ew.events.len() && 0 <= k < ew.events.len() && (#[trigger] ew.events[j])
                    is Removed && strictly_below(
                    (#[trigger] ew.events[k]).path().segments,
                    ew.events[j].path().segments,
                ) ==> k < j && ew.events[k] is Removed
        }),
    decreases es, es.len() - i,
{
    if i < 0 || i >= es.len() {
    } else {
        let head = entry_walk(es[i], depth, dpath);
        let cpath = entry_path(dpath, es[i]);
        let dlen = dpath.segments.len() as int;
        if es[i].meta_error is None {
            lemma_postorder(es[i].node, depth, cpath);
            lemma_events_below(es[i].node, depth, cpath);
        }
        assert forall|k: int| 0 <= k < head.events.len() implies at_or_below(
            (#[trigger] head.events[k]).path().segments,
            dpath.segments.push(es[i].name@),
        ) by {
            if es[i].meta_error is None {
                assert(at_or_below(head.events[k].path().segments, cpath.segments));
                assert(cpath.segments == dpath.segments.push(es[i].name@));
            }
        }
        let ew = walk_entries(es, i, depth, dpath);
        if head.outcome is Aborted {
            assert(ew.events == head.events);
        } else {
            lemma_postorder_entries(es, i + 1, depth, dpath);
            let rest = walk_entries(es, i + 1, depth, dpath);
            let hl = head.events.len() as int;
            assert(ew.events == head.events + rest.events);
            assert(forall|k: int| 0 <= k < hl ==> #[trigger] ew.events[k] == head.events[k]);
            assert(forall|k: int|
                hl <= k < ew.events.len() ==> #[trigger] ew.events[k] == rest.events[k - hl]);
            assert forall|k: int| 0 <= k < ew.events.len() implies exists|j: int|
                #![auto]
                i <= j < es.len() && at_or_below(
                    (#[trigger] ew.events[k]).path().segments,
                    dpath.segments.push(es[j].name@),
                ) by {
                if k < hl {
                    assert(at_or_below(
                        ew.events[k].path().segments,
                        dpath.segments.push(es[i].name@),
                    ));
                } else {
                    let q = rest.events[k - hl];
                    assert(exists|j: int|
                        #![auto]
                        i + 1 <= j < es.len() && at_or_below(
                            q.path().segments,
                            dpath.segments.push(es[j].name@),
                        ));
                    let j = choose|j: int|
                        #![auto]
                        i + 1 <= j < es.len() && at_or_below(
                            q.path().segments,
                            dpath.segments.push(es[j].name@),
                        );
                    assert(i <= j < es.len() && at_or_below(
                        ew.events[k].path().segments,
                        dpath.segments.push(es[j].name@),
                    ));
                }
            }
            if !ew.failed && !ew.aborted {
                assert(head.outcome == WalkOutcome::Removed);
                assert forall|k: int| 0 <= k < ew.events.len() implies (#[trigger] ew.events[k])
                    is Removed by {
                    if k < hl {
                        assert(head.events[k] is Removed);
                    } else {
                        assert(rest.events[k - hl] is Removed);
                    }
                }
            }
            assert forall|j: int, k: int|
                0 <= j < ew.events.len() && 0 <= k < ew.events.len() && (#[trigger] ew.events[j])
                    is Removed && strictly_below(
                    (#[trigger] ew.events[k]).path().segments,
                    ew.events[j].path().segments,
                ) implies k < j && ew.events[k] is Removed by {
                let p = ew.events[j].path().segments;
                let q = ew.events[k].path().segments;
                if j < hl && k < hl {
                } else if hl <= j && hl <= k {
                    assert(rest.events[j - hl] is Removed);
                    assert(strictly_below(
                        rest.events[k - hl].path().segments,
                        rest.events[j - hl].path().segments,
                    ));
                } else if j < hl {
                    assert(at_or_below(p, dpath.segments.push(es[i].name@)));
                    assert(p[dlen] == es[i].name@);
                    let m = choose|m: int|
                        #![auto]
                        i + 1 <= m < es.len() && at_or_below(
                            rest.events[k - hl].path().segments,
                            dpath.segments.push(es[m].name@),
                        );
                    assert(q[dlen] == es[m].name@);
                    assert(q[dlen] == p[dlen]);
                    assert(es[i].name@ != es[m].name@);
                    assert(false);
                } else {
                    let m = choose|m: int|
                        #![auto]
                        i + 1 <= m < es.len() && at_or_below(
                            rest.events[j - hl].path().segments,
                            dpath.segments.push(es[m].name@),
                        );
                    assert(p[dlen] == es[m].name@);
                    assert(at_or_below(q, dpath.segments.push(es[i].name@)));
                    assert(q[dlen] == es[i].name@);
                    assert(q[dlen] == p[dlen]);
                    assert(false);
                }
            }
        }
    }
}

/// LAW: a directory containing any failed child is never itself
/// recorded as removed: its walk does not end in `Removed`, and no
/// removal event is ever emitted for the directory's own path.
pub proof fn lemma_failed_child_keeps_directory(n: FsNode, path: PathModel)
    requires
        n is Dir,
        n->Dir_read_error is None,
        walk_entries(n->Dir_entries@, 0, DepthSpec::Infinity, path).failed || walk_entries(
            n->Dir_entries@,
            0,
            DepthSpec::Infinity,
            path,
        ).aborted,
    ensures
        ({
            let w = walk_node(n, DepthSpec::Infinity, path);
            w.outcome != WalkOutcome::Removed && forall|k: int|
                0 <= k < w.events.len() ==> #[trigger] w.events[k] != EventModel::Removed(path)
        }),
{
    let depth = DepthSpec::Infinity;
    lemma_entries_events_below(n->Dir_entries@, 0, depth, path);
    let ew = walk_entries(n->Dir_entries@, 0, depth, path);
    let w = walk_node(n, depth, path);
    assert(w.events == ew.events);
    assert forall|k: int| 0 <= k < w.events.len() implies #[trigger] w.events[k]
        != EventModel::Removed(path) by {
        assert(strictly_below(ew.events[k].path().segments, path.segments));
        if w.events[k] == EventModel::Removed(path) {
            assert(w.events[k].path() == path);
        }
    }
}

/// LAW: an enumeration failure is scoped to its own subtree's walk: in
/// a collection holding a deletable file and then an unreadable
/// directory, the file is removed, the only failure recorded is the
/// unreadable directory's, and the collection itself is not removed.
pub proof fn lemma_enumeration_failure_scoped(
    n: FsNode,
    x: DirEntryNode,
    y: DirEntryNode,
    e: FsErrorKind,
    path: PathModel,
)
    requires
        n is Dir,
        n->Dir_read_error is None,
        n->Dir_entries@ == seq![x, y],
        x.meta_error is None,
        x.node == (FsNode::File { remove_error: Option::None }),
        y.meta_error is None,
        y.node is Dir,
        y.node->Dir_read_error == Option::Some(e),
    ensures
        ({
            let w = walk_node(n, DepthSpec::Infinity, path);
            let rec = RecordModel { path: entry_path(path, y), status: file_status_of(e) };
            &&& w.outcome == WalkOutcome::Aborted
            &&& w.events[0] == EventModel::Removed(entry_path(path, x))
            &&& failures_of(w.events) == seq![rec]
            &&& finalize_spec(failures_of(w.events), path) == AggModel::PartialFailure(seq![rec])
        }),
{
    let depth = DepthSpec::Infinity;
    let es = n->Dir_entries@;
    let xpath = entry_path(path, x);
    let ypath = entry_path(path, y);
    assert(es[0] == x);
    assert(es[1] == y);
    let head = entry_walk(es[0], depth, path);
    assert(head.events == seq![EventModel::Removed(xpath)]);
    let second = entry_walk(es[1], depth, path);
    assert(second.events == seq![EventModel::Failed(ypath, file_status_of(e))]);
    assert(second.outcome == WalkOutcome::Aborted);
    let ew = walk_entries(es, 0, depth, path);
    assert(walk_entries(es, 1, depth, path).events == second.events);
    assert(ew.aborted);
    assert(ew.events =~= seq![
        EventModel::Removed(xpath),
        EventModel::Failed(ypath, file_status_of(e)),
    ]);
    lemma_failures_of_concat(head.events, second.events);
    lemma_failures_of_single_removed(xpath);
    lemma_failures_of_single_failed(ypath, file_status_of(e));
    assert(failures_of(ew.events) =~= seq![
        RecordModel { path: ypath, status: file_status_of(e) },
    ]);
    assert(ypath.segments.len() == path.segments.len() + 1);
    assert(ypath != path);
}

/// LAW: a tree whose every resource deletes successfully answers the
/// whole request with a plain 204 No Content, and the lock state under
/// the removed root is released.
pub proof fn lemma_all_deletable_response(
    depth_header: Option<Seq<char>>,
    meta: ResourceMetadata,
    target_meta: Option<ResourceMetadata>,
    root: FsNode,
    path: PathModel,
)
    requires
        parse_depth_spec(depth_header) is Ok,
        all_deletable(root, parse_depth_spec(depth_header)->Ok_0),
    ensures
        handle_delete_spec(
            depth_header,
            Result::Ok(meta),
            target_meta,
            Result::Ok(()),
            false,
            root,
            path,
        ) == (OutcomeModel {
            response: ResponseModel::Plain(crate::status::STATUS_NO_CONTENT),
            release_locks: true,
        }),
{
    let depth = parse_depth_spec(depth_header)->Ok_0;
    let marked = PathModel {
        segments: path.segments,
        collection: path.collection || resolved_collection(meta, target_meta),
    };
    lemma_all_deletable(root, depth, marked);
}

/// LAW: a lock conflict anywhere under the root rejects the whole
/// operation with a plain 423 Locked: no multi-status body, no lock
/// teardown, and the tree is never walked.
pub proof fn lemma_lock_conflict_atomic(
    depth_header: Option<Seq<char>>,
    meta: ResourceMetadata,
    target_meta: Option<ResourceMetadata>,
    root: FsNode,
    path: PathModel,
)
    requires
        parse_depth_spec(depth_header) is Ok,
    ensures
        handle_delete_spec(
            depth_header,
            Result::Ok(meta),
            target_meta,
            Result::Ok(()),
            true,
            root,
            path,
        ) == (OutcomeModel { response: ResponseModel::Plain(STATUS_LOCKED), release_locks: false }),
{
}

/// LAW: a symbolic link at the root whose target is a collection is
/// treated as a collection: the walk runs at the root path carrying the
/// trailing collection marker.
pub proof fn lemma_symlink_root_is_collection(
    meta: ResourceMetadata,
    target: ResourceMetadata,
)
    requires
        meta.is_symlink,
        target.is_collection,
    ensures
        resolved_collection(meta, Option::Some(target)),
{
}

/// LAW: a symbolic link at the root pointing to a collection follows the
/// collection rules for `Depth: 0` as well: a shallow delete of such a
/// non-empty target yields the plain 409 Conflict of a root failure, at
/// the marked root path.
pub proof fn lemma_symlink_depth_zero_nonempty(
    meta: ResourceMetadata,
    target: ResourceMetadata,
    root: FsNode,
    path: PathModel,
)
    requires
        meta.is_symlink,
        target.is_collection,
        root is Dir,
        root->Dir_remove_error == Option::Some(FsErrorKind::Exists),
    ensures
        handle_delete_spec(
            Option::Some("0"@),
            Result::Ok(meta),
            Option::Some(target),
            Result::Ok(()),
            false,
            root,
            path,
        ).response == ResponseModel::Plain(STATUS_CONFLICT),
{
    reveal_strlit("0");
    reveal_strlit("infinity");
    assert("0"@.len() == 1);
    assert("infinity"@.len() == 8);
    assert("0"@ != "infinity"@);
    assert(parse_depth_spec(Option::Some("0"@)) == Result::<DepthSpec, u16>::Ok(DepthSpec::Zero));
    let marked = PathModel { segments: path.segments, collection: true };
    lemma_depth_zero_nonempty(root, marked);
}

} // verus!
