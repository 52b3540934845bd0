//! Data carried through the boiling pipeline: potatoes, the single boil
//! session, its ghost view, and the outcome taxonomy of the operations.

use vstd::prelude::*;

use crate::softness::SoftnessLevel;

verus! {

/// One potato in a batch. Only `boiled` is touched by this service, and only
/// when a finished batch is collected.
#[derive(Clone, Copy, Debug, PartialEq, Eq)]
pub struct Potato {
    /// Size of the potato; always positive.
    pub size: u64,
    /// Identifier of the oil used by the frying stage; irrelevant to boiling.
    pub oil_used: Option<u64>,
    /// Whether the potato has finished boiling.
    pub boiled: bool,
    /// Whether the potato has been fried; irrelevant to boiling.
    pub fried: bool,
    /// Whether the potato has been coated; irrelevant to boiling.
    pub coated_in_maple_syrup: bool,
}

/// A potato is well formed when its size is positive.
pub open spec fn potato_wf(p: Potato) -> bool {
    p.size >= 1
}

/// A batch is well formed when every potato in it is.
pub open spec fn batch_wf(batch: Seq<Potato>) -> bool {
    forall|i: int| 0 <= i < batch.len() ==> potato_wf(#[trigger] batch[i])
}

/// The given potato, marked as boiled; nothing else changes.
pub open spec fn boiled_potato(p: Potato) -> Potato {
    Potato { boiled: true, ..p }
}

/// The batch after collection: every potato marked boiled, order and all
/// other fields kept.
pub open spec fn boiled_batch(batch: Seq<Potato>) -> Seq<Potato> {
    batch.map_values(|p: Potato| boiled_potato(p))
}

/// Marking a batch boiled keeps it well formed.
pub proof fn lemma_boiled_batch_wf(batch: Seq<Potato>)
    requires
        batch_wf(batch),
    ensures
        batch_wf(boiled_batch(batch)),
{
    assert forall|i: int| 0 <= i < boiled_batch(batch).len() implies potato_wf(
        #[trigger] boiled_batch(batch)[i],
    ) by {
        assert(potato_wf(batch[i]));
    }
}

/// The single in-flight boil session. `started_at` is the time-unit at which
/// boiling began; `batch` is the sequence of potatoes on the stove. Both are
/// present while a boil is active and both are absent while idle.
pub struct BoilSession {
    pub started_at: Option<u64>,
    pub batch: Option<Vec<Potato>>,
}

/// Mathematical view of a session manager: the session fields with the batch
/// abstracted to a sequence, plus the configured boil duration.
pub struct SessionView {
    pub started_at: Option<u64>,
    pub batch: Option<Seq<Potato>>,
    pub duration: u64,
}

/// The both-or-neither invariant of a session, plus well-formedness of any
/// batch it holds.
pub open spec fn view_wf(v: SessionView) -> bool {
    &&& v.started_at is Some <==> v.batch is Some
    &&& v.batch matches Some(b) ==> batch_wf(b)
}

/// Everything an operation can report besides a plain success.
///
/// `AlreadyBoiling` is a business conflict: a start request arrived while an
/// unfinished boil was active. `NotReady` and `Idle` are valid poll states of
/// collection, not faults. `InternalError` is an infrastructure fault: the
/// sampled clock lies before the recorded start of the session.
#[derive(Clone, Copy, Debug, PartialEq, Eq, Structural)]
pub enum BoilingError {
    AlreadyBoiling,
    NotReady,
    Idle,
    InternalError,
}

/// Answer of a status query: either nothing is boiling, or the current
/// softness of the active batch.
#[derive(Clone, Copy, Debug, PartialEq, Eq, Structural)]
pub enum SoftnessReport {
    Idle,
    Softness(SoftnessLevel),
}

} // verus!
