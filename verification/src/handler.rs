//! The DELETE orchestration: parse the `Depth` header, resolve the root's
//! collection marker (following a symbolic link), consult the
//! precondition and lock gates, run the recursive delete engine, and
//! aggregate the outcome into the protocol response.

use vstd::prelude::*;

use crate::aggregate::AggModel;
use crate::aggregate::AggregatedResult;
use crate::aggregate::OutcomeRecord;
use crate::aggregate::RecordModel;
use crate::aggregate::StatusAggregator;
use crate::aggregate::finalize_spec;
use crate::depth::DepthSpec;
use crate::depth::parse_depth;
use crate::depth::parse_depth_spec;
use crate::engine::delete_node;
use crate::path::PathModel;
use crate::path::ResourcePath;
use crate::status::FsErrorKind;
use crate::status::STATUS_BAD_REQUEST;
use crate::status::STATUS_LOCKED;
use crate::status::STATUS_NO_CONTENT;
use crate::status::file_status_of;
use crate::status::file_error_status;
use crate::tree::FsNode;
use crate::tree::WalkOutcome;
use crate::tree::failures_of;
use crate::tree::walk_node;

verus! {

/// A snapshot of a resource's kind, captured immediately before a
/// delete decision is made.
#[derive(Clone, Copy, Debug, PartialEq, Eq, Structural)]
pub struct ResourceMetadata {
    pub is_collection: bool,
    pub is_symlink: bool,
}

/// The mathematical value of a [`DeleteResponse`].
pub enum ResponseModel {
    Plain(u16),
    MultiStatus(Seq<RecordModel>),
}

/// The response owed to the client: a plain status, or a 207
/// Multi-Status report carrying the ordered `(path, status)` entries.
pub enum DeleteResponse {
    Plain(u16),
    MultiStatus(Vec<OutcomeRecord>),
}

impl View for DeleteResponse {
    type V = ResponseModel;

    open spec fn view(&self) -> ResponseModel {
        match self {
            DeleteResponse::Plain(s) => ResponseModel::Plain(*s),
            DeleteResponse::MultiStatus(v) => (
                ResponseModel::MultiStatus(v@.map_values(|r: OutcomeRecord| r@))
            ),
        }
    }
}

/// The mathematical value of a [`DeleteOutcome`].
pub struct OutcomeModel {
    pub response: ResponseModel,
    pub release_locks: bool,
}

/// A finished delete: the response, and whether the lock state under the
/// (now removed) root should be torn down, best-effort.
pub struct DeleteOutcome {
    pub response: DeleteResponse,
    pub release_locks: bool,
}

impl View for DeleteOutcome {
    type V = OutcomeModel;

    open spec fn view(&self) -> OutcomeModel {
        OutcomeModel { response: self.response@, release_locks: self.release_locks }
    }
}

/// Whether the delete target is a collection once symbolic links are
/// resolved: a link at the root counts as a collection exactly when its
/// target is one.
pub open spec fn resolved_collection(
    meta: ResourceMetadata,
    target_meta: Option<ResourceMetadata>,
) -> bool {
    meta.is_collection || (meta.is_symlink && match target_meta {
        Option::Some(t) => t.is_collection,
        Option::None => false,
    })
}

/// What the whole DELETE handling owes, in order: a malformed `Depth`
/// header is a plain 400 before anything else; a root that cannot be
/// stat'ed is its mapped status; a precondition rejection is its own
/// status; a lock conflict anywhere under the root is a plain 423 with
/// no walk at all; otherwise the tree is walked at the marked root path
/// and the aggregated result is collapsed per the protocol rules. Lock
/// state is released exactly when the walk removed the root.
pub open spec fn handle_delete_spec(
    depth_header: Option<Seq<char>>,
    root_meta: Result<ResourceMetadata, FsErrorKind>,
    target_meta: Option<ResourceMetadata>,
    precondition: Result<(), u16>,
    lock_conflict: bool,
    root: FsNode,
    path: PathModel,
) -> OutcomeModel {
    if parse_depth_spec(depth_header) is Err {
        OutcomeModel { response: ResponseModel::Plain(STATUS_BAD_REQUEST), release_locks: false }
    } else {
        let depth = parse_depth_spec(depth_header)->Ok_0;
        match root_meta {
            Result::Err(e) => OutcomeModel {
                response: ResponseModel::Plain(file_status_of(e)),
                release_locks: false,
            },
            Result::Ok(meta) => match precondition {
                Result::Err(s) => OutcomeModel {
                    response: ResponseModel::Plain(s),
                    release_locks: false,
                },
                Result::Ok(()) => if lock_conflict {
                    OutcomeModel {
                        response: ResponseModel::Plain(STATUS_LOCKED),
                        release_locks: false,
                    }
                } else {
                    let marked = PathModel {
                        segments: path.segments,
                        collection: path.collection || resolved_collection(meta, target_meta),
                    };
                    let w = walk_node(root, depth, marked);
                    let agg = finalize_spec(failures_of(w.events), marked);
                    let response = match agg {
                        AggModel::AllSucceeded => ResponseModel::Plain(STATUS_NO_CONTENT),
                        AggModel::SingleFailure(s) => ResponseModel::Plain(s),
                        AggModel::PartialFailure(rs) => ResponseModel::MultiStatus(rs),
                    };
                    OutcomeModel { response, release_locks: w.outcome is Removed }
                },
            },
        }
    }
}

/// Handles one DELETE request, given the answers of the external
/// collaborators: the raw `Depth` header, the root's metadata snapshot
/// (and, for a symbolic link, its target's), the precondition gate's
/// decision, the lock gate's decision, and the filesystem's answers for
/// the tree under the root.
pub fn handle_delete(
    depth_header: Option<&String>,
    root_meta: Result<ResourceMetadata, FsErrorKind>,
    target_meta: Option<ResourceMetadata>,
    precondition: Result<(), u16>,
    lock_conflict: bool,
    root: &FsNode,
    path: ResourcePath,
) -> (r: DeleteOutcome)
    ensures
        r@ == handle_delete_spec(
            match depth_header {
                Option::Some(s) => Option::Some(s@),
                Option::None => Option::None,
            },
            root_meta,
            target_meta,
            precondition,
            lock_conflict,
            *root,
            path@,
        ),
{
    let depth = match parse_depth(depth_header) {
        Result::Ok(d) => d,
        Result::Err(s) => {
            return DeleteOutcome {
                response: DeleteResponse::Plain(STATUS_BAD_REQUEST),
                release_locks: false,
            };
        },
    };
    let meta = match root_meta {
        Result::Ok(m) => m,
        Result::Err(e) => {
            return DeleteOutcome {
                response: DeleteResponse::Plain(file_error_status(e)),
                release_locks: false,
            };
        },
    };
    if let Result::Err(s) = precondition {
        return DeleteOutcome { response: DeleteResponse::Plain(s), release_locks: false };
    }
    if lock_conflict {
        return DeleteOutcome {
            response: DeleteResponse::Plain(STATUS_LOCKED),
            release_locks: false,
        };
    }
    let mut path = path;
    let is_collection = meta.is_collection || (meta.is_symlink && match target_meta {
        Option::Some(t) => t.is_collection,
        Option::None => false,
    });
    path.add_slash_if(is_collection);
    let mut agg = StatusAggregator::new();
    let outcome = delete_node(root, depth, &path, &mut agg);
    proof {
        assert(agg@ =~= failures_of(
            walk_node(
                *root,
                depth,
                path@,
            ).events,
        ));
    }
    let result = agg.finalize(&path);
    let response = match result {
        AggregatedResult::AllSucceeded => DeleteResponse::Plain(STATUS_NO_CONTENT),
        AggregatedResult::SingleFailure(s) => DeleteResponse::Plain(s),
        AggregatedResult::PartialFailure(v) => DeleteResponse::MultiStatus(v),
    };
    DeleteOutcome { response, release_locks: outcome == WalkOutcome::Removed }
}

} // verus!
