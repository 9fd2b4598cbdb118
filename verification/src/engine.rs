//! The recursive delete engine: walks a resource tree bottom-up,
//! records every failure into the aggregator in traversal order, and
//! decides per error whether the walk continues or aborts.

use vstd::prelude::*;

use crate::aggregate::StatusAggregator;
use crate::depth::DepthSpec;
use crate::path::ResourcePath;
use crate::status::dir_error_status;
use crate::status::file_error_status;
use crate::tree::DirEntryNode;
use crate::tree::EventModel;
use crate::tree::FsNode;
use crate::tree::WalkOutcome;
use crate::tree::entry_path;
use crate::tree::entry_path_unresolved;
use crate::tree::entry_walk;
use crate::tree::failures_of;
use crate::tree::lemma_failures_of_concat;
use crate::tree::lemma_failures_of_single_failed;
use crate::tree::lemma_failures_of_single_removed;
use crate::tree::walk_entries;
use crate::tree::walk_node;

verus! {

/// Deletes the resource at `path` whose filesystem answers are `node`,
/// children strictly before their parent. Exactly the failures of the
/// specified walk are appended to `agg`, in traversal order, and the
/// walk's outcome is returned: `Removed` on success, `Recorded` when a
/// failure was logged but siblings may continue, `Aborted` on a
/// structural failure that stops the caller's walk as well.
#[verifier::loop_isolation(false)]
pub fn delete_node(node: &FsNode, depth: DepthSpec, path: &ResourcePath, agg: &mut StatusAggregator) -> (o: WalkOutcome)
    ensures
        o == walk_node(*node, depth, path@).outcome,
        final(agg)@ == old(agg)@ + failures_of(walk_node(*node, depth, path@).events),
    decreases *node,
{
    let ghost w = walk_node(*node, depth, path@);
    match node {
        FsNode::File { remove_error } => match remove_error {
            Option::None => {
                proof {
                    lemma_failures_of_single_removed(path@);
                    assert(agg@ =~= old(agg)@ + failures_of(w.events));
                }
                WalkOutcome::Removed
            },
            Option::Some(e) => {
                agg.record(path, file_error_status(*e));
                proof {
                    lemma_failures_of_single_failed(path@, crate::status::file_status_of(*e));
                    assert(agg@ =~= old(agg)@ + failures_of(w.events));
                }
                WalkOutcome::Recorded
            },
        },
        FsNode::Dir { read_error, entries, remove_error } => {
            proof {
                assert(*node == (FsNode::Dir {
                    read_error: *read_error,
                    entries: *entries,
                    remove_error: *remove_error,
                }));
            }
            if depth == DepthSpec::Zero {
                match remove_error {
                    Option::None => {
                        proof {
                            lemma_failures_of_single_removed(path@);
                            assert(agg@ =~= old(agg)@ + failures_of(w.events));
                        }
                        WalkOutcome::Removed
                    },
                    Option::Some(e) => {
                        agg.record(path, dir_error_status(*e));
                        proof {
                            lemma_failures_of_single_failed(path@, crate::status::dir_status_of(*e));
                            assert(agg@ =~= old(agg)@ + failures_of(w.events));
                        }
                        WalkOutcome::Recorded
                    },
                }
            } else {
                match read_error {
                    Option::Some(e) => {
                        agg.record(path, file_error_status(*e));
                        proof {
                            lemma_failures_of_single_failed(path@, crate::status::file_status_of(*e));
                            assert(agg@ =~= old(agg)@ + failures_of(w.events));
                        }
                        WalkOutcome::Aborted
                    },
                    Option::None => {
                        let ghost dpath = path@;
                        let ghost es = entries@;
                        let ghost agg0 = agg@;
                        let mut failed = false;
                        let mut i: usize = 0;
                        let ghost mut evts = Seq::<EventModel>::empty();
                        proof {
                            assert(evts + walk_entries(es, 0, depth, dpath).events
                                =~= walk_entries(es, 0, depth, dpath).events);
                            assert(agg@ =~= agg0 + failures_of(evts));
                        }
                        while i < entries.len()
                            invariant
                                0 <= i <= entries@.len(),
                                es == entries@,
                                dpath == path@,
                                walk_entries(es, 0, depth, dpath).aborted
                                    == walk_entries(es, i as int, depth, dpath).aborted,
                                walk_entries(es, 0, depth, dpath).failed
                                    == (failed || walk_entries(es, i as int, depth, dpath).failed),
                                walk_entries(es, 0, depth, dpath).events
                                    == evts + walk_entries(es, i as int, depth, dpath).events,
                                agg@ == agg0 + failures_of(evts),
                            decreases entries@.len() - i,
                        {
                            let entry = &entries[i];
                            let ghost head = entry_walk(es[i as int], depth, dpath);
                            match &entry.meta_error {
                                Option::Some(err) => {
                                    let child = path.child(&entry.name, false);
                                    proof {
                                        assert(child@ == entry_path_unresolved(dpath, es[i as int]));
                                    }
                                    agg.record(&child, file_error_status(*err));
                                    failed = true;
                                    proof {
                                        lemma_failures_of_single_failed(
                                            child@,
                                            crate::status::file_status_of(*err),
                                        );
                                        lemma_failures_of_concat(evts, head.events);
                                        evts = evts + head.events;
                                        assert(evts + walk_entries(es, i + 1, depth, dpath).events
                                            =~= (evts + Seq::<EventModel>::empty())
                                                + walk_entries(es, i + 1, depth, dpath).events);
                                    }
                                },
                                Option::None => {
                                    let child = path.child(&entry.name, entry.node.is_dir());
                                    proof {
                                        assert(child@ == entry_path(dpath, es[i as int]));
                                    }
                                    proof {
                                        assert(decreases_to!(*entries => entries@));
                                        assert(decreases_to!(entries@ => entries@[i as int]));
                                    }
                                    let o = delete_node(&entry.node, depth, &child, agg);
                                    proof {
                                        assert(head == walk_node(es[i as int].node, depth, child@));
                                        lemma_failures_of_concat(evts, head.events);
                                    }
                                    match o {
                                        WalkOutcome::Aborted => {
                                            proof {
                                                assert(walk_entries(es, 0, depth, dpath).aborted);
                                                evts = evts + head.events;
                                                assert(walk_entries(es, 0, depth, dpath).events
                                                    =~= evts);
                                                assert(w.outcome == WalkOutcome::Aborted);
                                                assert(w.events == evts);
                                                assert(agg@ =~= old(agg)@ + failures_of(w.events));
                                            }
                                            return WalkOutcome::Aborted;
                                        },
                                        WalkOutcome::Recorded => {
                                            failed = true;
                                            proof {
                                                evts = evts + head.events;
                                            }
                                        },
                                        WalkOutcome::Removed => {
                                            proof {
                                                evts = evts + head.events;
                                            }
                                        },
                                    }
                                },
                            }
                            proof {
                                assert(evts + walk_entries(es, i + 1, depth, dpath).events
                                    =~= walk_entries(es, 0, depth, dpath).events);
                            }
                            i += 1;
                        }
                        proof {
                            assert(walk_entries(es, i as int, depth, dpath).events
                                =~= Seq::<EventModel>::empty());
                            assert(evts =~= evts + Seq::<EventModel>::empty());
                            assert(evts == walk_entries(es, 0, depth, dpath).events);
                        }
                        if failed {
                            proof {
                                assert(agg@ =~= old(agg)@ + failures_of(w.events));
                            }
                            WalkOutcome::Recorded
                        } else {
                            match remove_error {
                                Option::None => {
                                    proof {
                                        assert(evts.push(EventModel::Removed(path@))
                                            =~= evts + seq![EventModel::Removed(path@)]);
                                        lemma_failures_of_concat(
                                            evts,
                                            seq![EventModel::Removed(path@)],
                                        );
                                        lemma_failures_of_single_removed(path@);
                                        assert(agg@ =~= old(agg)@ + failures_of(w.events));
                                    }
                                    WalkOutcome::Removed
                                },
                                Option::Some(e) => {
                                    agg.record(path, dir_error_status(*e));
                                    proof {
                                        let st = crate::status::dir_status_of(*e);
                                        assert(evts.push(EventModel::Failed(path@, st))
                                            =~= evts + seq![EventModel::Failed(path@, st)]);
                                        lemma_failures_of_concat(
                                            evts,
                                            seq![EventModel::Failed(path@, st)],
                                        );
                                        lemma_failures_of_single_failed(path@, st);
                                        assert(agg@ =~= old(agg)@ + failures_of(w.events));
                                    }
                                    WalkOutcome::Recorded
                                },
                            }
                        }
                    },
                }
            }
        },
    }
}

} // verus!
