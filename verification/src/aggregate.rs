//! Per-path outcome records and their aggregation into the protocol-level
//! multi-status result.

use vstd::prelude::*;

use crate::path::PathModel;
use crate::path::ResourcePath;

verus! {

/// The mathematical value of an [`OutcomeRecord`].
pub struct RecordModel {
    pub path: PathModel,
    pub status: u16,
}

/// The result of attempting to delete one resource: its path and the
/// protocol status of the failure.
pub struct OutcomeRecord {
    pub path: ResourcePath,
    pub status: u16,
}

impl View for OutcomeRecord {
    type V = RecordModel;

    open spec fn view(&self) -> RecordModel {
        RecordModel { path: self.path@, status: self.status }
    }
}

/// The mathematical value of an [`AggregatedResult`].
pub enum AggModel {
    AllSucceeded,
    SingleFailure(u16),
    PartialFailure(Seq<RecordModel>),
}

/// The aggregator's terminal state: a clean success, a single failure at
/// the request root, or an ordered partial-failure report.
pub enum AggregatedResult {
    AllSucceeded,
    SingleFailure(u16),
    PartialFailure(Vec<OutcomeRecord>),
}

impl View for AggregatedResult {
    type V = AggModel;

    open spec fn view(&self) -> AggModel {
        match self {
            AggregatedResult::AllSucceeded => AggModel::AllSucceeded,
            AggregatedResult::SingleFailure(s) => AggModel::SingleFailure(*s),
            AggregatedResult::PartialFailure(v) => (
                AggModel::PartialFailure(v@.map_values(|r: OutcomeRecord| r@))
            ),
        }
    }
}

/// What `finalize` owes for a given record sequence and operation root:
/// no records collapse to `AllSucceeded`; exactly one record at the root
/// collapses to `SingleFailure`; anything else is a `PartialFailure`
/// preserving insertion order.
pub open spec fn finalize_spec(records: Seq<RecordModel>, root: PathModel) -> AggModel {
    if records.len() == 0 {
        AggModel::AllSucceeded
    } else if records.len() == 1 && records[0].path == root {
        AggModel::SingleFailure(records[0].status)
    } else {
        AggModel::PartialFailure(records)
    }
}

/// Accumulates per-path outcome records in traversal order.
pub struct StatusAggregator {
    pub records: Vec<OutcomeRecord>,
}

impl View for StatusAggregator {
    type V = Seq<RecordModel>;

    open spec fn view(&self) -> Seq<RecordModel> {
        self.records@.map_values(|r: OutcomeRecord| r@)
    }
}

impl StatusAggregator {
    /// An aggregator holding no records yet.
    pub fn new() -> (a: StatusAggregator)
        ensures
            a@ == Seq::<RecordModel>::empty(),
    {
        let a = StatusAggregator { records: Vec::new() };
        proof {
            assert(a@ =~= Seq::<RecordModel>::empty());
        }
        a
    }

    /// Appends one `(path, status)` record.
    pub fn record(&mut self, path: &ResourcePath, status: u16)
        ensures
            final(self)@ == old(self)@.push(RecordModel { path: path@, status: status }),
    {
        self.records.push(OutcomeRecord { path: path.clone(), status });
        proof {
            assert(self@ =~= old(self)@.push(RecordModel { path: path@, status: status }));
        }
    }

    /// Turns the accumulated records into the protocol-level result for
    /// the operation rooted at `root`.
    pub fn finalize(self, root: &ResourcePath) -> (r: AggregatedResult)
        ensures
            r@ == finalize_spec(self@, root@),
    {
        if self.records.len() == 0 {
            AggregatedResult::AllSucceeded
        } else if self.records.len() == 1 && self.records[0].path.path_eq(root) {
            AggregatedResult::SingleFailure(self.records[0].status)
        } else {
            AggregatedResult::PartialFailure(self.records)
        }
    }
}

} // verus!
