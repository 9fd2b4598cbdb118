//! The resource tree as the engine sees it: each node carries the answers
//! that the filesystem collaborator gives for the calls the walk makes on
//! it (entry metadata, enumeration, removal). The walk itself, and the
//! outcome and event sequence it owes, are specified here.

use vstd::prelude::*;

use crate::aggregate::RecordModel;
use crate::depth::DepthSpec;
use crate::path::PathModel;
use crate::status::FsErrorKind;
use crate::status::dir_status_of;
use crate::status::file_status_of;

verus! {

/// One resource, with the filesystem's answer to each call the walk can
/// make on it. `None` means the call succeeds.
pub enum FsNode {
    /// A non-collection resource; `remove_error` is the answer to its
    /// direct removal.
    File { remove_error: Option<FsErrorKind> },
    /// A collection; `read_error` is the answer to enumerating it,
    /// `remove_error` the answer to removing it once empty.
    Dir { read_error: Option<FsErrorKind>, entries: Vec<DirEntryNode>, remove_error: Option<FsErrorKind> },
}

/// One directory entry: its name, the answer to resolving its metadata
/// (`None` means the resolution succeeds and reports the node's own
/// kind, symbolic links not followed), and the resource itself.
pub struct DirEntryNode {
    pub name: String,
    pub meta_error: Option<FsErrorKind>,
    pub node: FsNode,
}

impl FsNode {
    /// Whether this resource is a collection.
    pub open spec fn is_dir_spec(&self) -> bool {
        self is Dir
    }

    /// Whether this resource is a collection (what resolved metadata
    /// reports for it).
    pub fn is_dir(&self) -> (b: bool)
        ensures
            b == self.is_dir_spec(),
    {
        match self {
            FsNode::Dir { .. } => true,
            FsNode::File { .. } => false,
        }
    }
}

/// One outcome of the walk, in traversal order: a resource was removed,
/// or failed with a protocol status.
pub enum EventModel {
    Removed(PathModel),
    Failed(PathModel, u16),
}

impl EventModel {
    /// The path this event is about.
    pub open spec fn path(self) -> PathModel {
        match self {
            EventModel::Removed(p) => p,
            EventModel::Failed(p, _) => p,
        }
    }
}

/// How the attempt on one resource ended: removed, failed with the
/// failure recorded (siblings continue), or structurally aborted
/// (remaining siblings are not visited).
#[derive(Clone, Copy, Debug, PartialEq, Eq, Structural)]
pub enum WalkOutcome {
    Removed,
    Recorded,
    Aborted,
}

/// The walk of one node: its outcome and the outcome events it emits.
pub struct NodeWalk {
    pub outcome: WalkOutcome,
    pub events: Seq<EventModel>,
}

/// The walk of a directory's entries from index `i` on: whether any
/// entry failed, whether the walk aborted, and the events emitted.
pub struct EntriesWalk {
    pub failed: bool,
    pub aborted: bool,
    pub events: Seq<EventModel>,
}

/// The path of the directory entry `e` of a directory at `dpath`, when
/// its metadata resolved (collection marker from its kind).
pub open spec fn entry_path(dpath: PathModel, e: DirEntryNode) -> PathModel {
    PathModel { segments: dpath.segments.push(e.name@), collection: e.node.is_dir_spec() }
}

/// The path an entry is recorded at when its metadata could not be
/// resolved: its kind is unknown, so it carries no collection marker.
pub open spec fn entry_path_unresolved(dpath: PathModel, e: DirEntryNode) -> PathModel {
    PathModel { segments: dpath.segments.push(e.name@), collection: false }
}

/// The walk of one directory entry: a metadata-resolution failure is
/// recorded for the entry and does not abort; otherwise the entry is
/// walked as a resource of its own.
pub open spec fn entry_walk(e: DirEntryNode, depth: DepthSpec, dpath: PathModel) -> NodeWalk
    decreases e, 0int,
{
    match e.meta_error {
        Option::Some(err) => NodeWalk {
            outcome: WalkOutcome::Recorded,
            events: seq![EventModel::Failed(entry_path_unresolved(dpath, e), file_status_of(err))],
        },
        Option::None => walk_node(e.node, depth, entry_path(dpath, e)),
    }
}

/// The walk of a directory's entries from index `i` on, in enumeration
/// order: a recorded failure marks the directory failed and the walk
/// continues with the next sibling; an abort stops it at once.
pub open spec fn walk_entries(es: Seq<DirEntryNode>, i: int, depth: DepthSpec, dpath: PathModel) -> EntriesWalk
    decreases es, es.len() - i,
{
    if i < 0 || i >= es.len() {
        EntriesWalk { failed: false, aborted: false, events: Seq::empty() }
    } else {
        let head = entry_walk(es[i], depth, dpath);
        if head.outcome is Aborted {
            EntriesWalk { failed: true, aborted: true, events: head.events }
        } else {
            let rest = walk_entries(es, i + 1, depth, dpath);
            EntriesWalk {
                failed: (head.outcome is Recorded) || rest.failed,
                aborted: rest.aborted,
                events: head.events + rest.events,
            }
        }
    }
}

/// The whole walk of one resource, as RFC4918 asks of DELETE:
/// - a non-collection is removed directly; a failure is recorded and
///   siblings continue;
/// - a collection at depth zero is removed directly, a non-empty
///   condition mapping to 409 Conflict;
/// - otherwise the collection is enumerated (an enumeration failure is
///   recorded and aborts), its entries are walked in order, and the
///   now-empty collection is removed only if every entry was removed.
pub open spec fn walk_node(n: FsNode, depth: DepthSpec, path: PathModel) -> NodeWalk
    decreases n, 1int,
{
    match n {
        FsNode::File { remove_error } => match remove_error {
            Option::None => NodeWalk {
                outcome: WalkOutcome::Removed,
                events: seq![EventModel::Removed(path)],
            },
            Option::Some(e) => NodeWalk {
                outcome: WalkOutcome::Recorded,
                events: seq![EventModel::Failed(path, file_status_of(e))],
            },
        },
        FsNode::Dir { read_error, entries, remove_error } => {
            if depth is Zero {
                match remove_error {
                    Option::None => NodeWalk {
                        outcome: WalkOutcome::Removed,
                        events: seq![EventModel::Removed(path)],
                    },
                    Option::Some(e) => NodeWalk {
                        outcome: WalkOutcome::Recorded,
                        events: seq![EventModel::Failed(path, dir_status_of(e))],
                    },
                }
            } else {
                match read_error {
                    Option::Some(e) => NodeWalk {
                        outcome: WalkOutcome::Aborted,
                        events: seq![EventModel::Failed(path, file_status_of(e))],
                    },
                    Option::None => {
                        let ew = walk_entries(entries@, 0, depth, path);
                        if ew.aborted {
                            NodeWalk { outcome: WalkOutcome::Aborted, events: ew.events }
                        } else if ew.failed {
                            NodeWalk { outcome: WalkOutcome::Recorded, events: ew.events }
                        } else {
                            match remove_error {
                                Option::None => NodeWalk {
                                    outcome: WalkOutcome::Removed,
                                    events: ew.events.push(EventModel::Removed(path)),
                                },
                                Option::Some(e) => NodeWalk {
                                    outcome: WalkOutcome::Recorded,
                                    events: ew.events.push(EventModel::Failed(path, dir_status_of(e))),
                                },
                            }
                        }
                    },
                }
            }
        },
    }
}

/// The failures among a walk's events, in order: exactly what the
/// aggregator records.
pub open spec fn failures_of(es: Seq<EventModel>) -> Seq<RecordModel>
    decreases es.len(),
{
    if es.len() == 0 {
        Seq::empty()
    } else {
        let head = match es[0] {
            EventModel::Removed(_) => Seq::<RecordModel>::empty(),
            EventModel::Failed(p, s) => seq![RecordModel { path: p, status: s }],
        };
        head + failures_of(es.drop_first())
    }
}

/// Projecting failures distributes over concatenation of event
/// sequences.
pub proof fn lemma_failures_of_concat(a: Seq<EventModel>, b: Seq<EventModel>)
    ensures
        failures_of(a + b) == failures_of(a) + failures_of(b),
    decreases a.len(),
{
    if a.len() == 0 {
        assert(a + b =~= b);
        assert(failures_of(a) + failures_of(b) =~= failures_of(b));
    } else {
        assert((a + b).drop_first() =~= a.drop_first() + b);
        lemma_failures_of_concat(a.drop_first(), b);
        assert((a + b)[0] == a[0]);
        assert(failures_of(a + b) =~= failures_of(a) + failures_of(b));
    }
}

/// A walk that removes nothing and fails nothing emits no failure
/// records.
pub proof fn lemma_failures_of_single_removed(p: PathModel)
    ensures
        failures_of(seq![EventModel::Removed(p)]) == Seq::<RecordModel>::empty(),
{
    assert(seq![EventModel::Removed(p)].drop_first() =~= Seq::<EventModel>::empty());
    assert(failures_of(Seq::<EventModel>::empty()) == Seq::<RecordModel>::empty());
    assert(failures_of(seq![EventModel::Removed(p)]) =~= Seq::<RecordModel>::empty());
}

/// A single failure event projects to the single matching record.
pub proof fn lemma_failures_of_single_failed(p: PathModel, s: u16)
    ensures
        failures_of(seq![EventModel::Failed(p, s)]) == seq![RecordModel { path: p, status: s }],
{
    assert(seq![EventModel::Failed(p, s)].drop_first() =~= Seq::<EventModel>::empty());
    assert(failures_of(Seq::<EventModel>::empty()) == Seq::<RecordModel>::empty());
    assert(failures_of(seq![EventModel::Failed(p, s)]) =~= seq![RecordModel { path: p, status: s }]);
}

} // verus!
