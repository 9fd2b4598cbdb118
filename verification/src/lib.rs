//! Recursive WebDAV DELETE: a verified tree-deletion engine with
//! multi-status aggregation, precondition and lock gating, and the
//! protocol's partial-failure reporting rules.

use vstd::prelude::*;

mod aggregate;
mod depth;
mod engine;
mod handler;
mod laws;
mod path;
mod status;
mod tree;
mod web;

pub use aggregate::AggModel;
pub use aggregate::AggregatedResult;
pub use aggregate::OutcomeRecord;
pub use aggregate::RecordModel;
pub use aggregate::StatusAggregator;
pub use aggregate::finalize_spec;
pub use path::PathModel;
pub use path::ResourcePath;
pub use path::at_or_below;
pub use path::strictly_below;
pub use depth::DepthSpec;
pub use engine::delete_node;
pub use laws::all_deletable;
pub use laws::all_entries_deletable;
pub use laws::distinct_names;
pub use laws::lemma_all_deletable;
pub use laws::lemma_all_deletable_response;
pub use laws::lemma_entries_all_deletable;
pub use laws::lemma_enumeration_failure_scoped;
pub use laws::lemma_entries_events_below;
pub use laws::lemma_events_below;
pub use laws::lemma_failed_child_keeps_directory;
pub use laws::lemma_postorder;
pub use laws::lemma_postorder_entries;
pub use laws::wf_entries;
pub use laws::wf_node;
pub use laws::lemma_depth_zero_nonempty;
pub use laws::lemma_failing_root_leaf;
pub use laws::lemma_lock_conflict_atomic;
pub use laws::lemma_single_failing_leaf_child;
pub use laws::lemma_symlink_depth_zero_nonempty;
pub use laws::lemma_symlink_root_is_collection;
pub use handler::DeleteOutcome;
pub use handler::DeleteResponse;
pub use handler::OutcomeModel;
pub use handler::ResourceMetadata;
pub use handler::ResponseModel;
pub use handler::handle_delete;
pub use handler::handle_delete_spec;
pub use handler::resolved_collection;
pub use web::depth_from_headers;
pub use web::depth_header_of;
pub use web::response_code;
pub use web::response_code_spec;
pub use web::response_code_valid;
pub use web::response_status;
pub use depth::parse_depth;
pub use depth::parse_depth_spec;
pub use status::FsErrorKind;
pub use status::dir_error_status;
pub use status::dir_status_of;
pub use status::file_error_status;
pub use status::file_status_of;
pub use tree::DirEntryNode;
pub use tree::EntriesWalk;
pub use tree::EventModel;
pub use tree::FsNode;
pub use tree::NodeWalk;
pub use tree::WalkOutcome;
pub use tree::entry_path;
pub use tree::entry_path_unresolved;
pub use tree::entry_walk;
pub use tree::failures_of;
pub use tree::walk_entries;
pub use tree::walk_node;
