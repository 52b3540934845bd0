//! The Boiling Session Manager: the single owner of the boil session,
//! exposing the three atomic operations — start a boil, query the softness
//! status, and collect the finished batch.
//!
//! Every operation takes the current time as a plain `now` argument; the
//! caller samples the clock once per operation and the manager's decisions
//! are a pure function of its state and that sample.

use vstd::prelude::*;

use crate::nordo_models::{
    batch_wf, boiled_batch, lemma_boiled_batch_wf, view_wf, BoilSession, BoilingError, Potato,
    SessionView, SoftnessReport,
};
use crate::softness::{classify, classify_spec};

verus! {

/// Default boil duration, in time-units.
pub const BOIL_TIME: u64 = 900;

/// The clock sample `now` is skewed with respect to the session `v` when a
/// boil is active and the sample lies before its recorded start: the elapsed
/// time cannot be computed.
pub open spec fn skewed_sample(v: SessionView, now: u64) -> bool {
    v.started_at matches Some(s) && now < s
}

/// A start request at `now` conflicts with the session `v` when a boil is
/// active and its full duration has not yet elapsed.
pub open spec fn start_conflicts(v: SessionView, now: u64) -> bool {
    v.started_at matches Some(s) && now >= s && now - s < v.duration
}

/// Outcome of a start request: an internal error on a skewed clock sample,
/// rejected on a conflict, accepted otherwise.
pub open spec fn start_outcome(v: SessionView, now: u64) -> Result<(), BoilingError> {
    if skewed_sample(v, now) {
        Err(BoilingError::InternalError)
    } else if start_conflicts(v, now) {
        Err(BoilingError::AlreadyBoiling)
    } else {
        Ok(())
    }
}

/// The session after a start request: unchanged unless the request was
/// accepted, and then the new batch with `started_at = now` — a previous
/// finished-but-uncollected batch is deliberately discarded (last writer
/// wins).
pub open spec fn start_next(v: SessionView, batch: Seq<Potato>, now: u64) -> SessionView {
    if start_outcome(v, now) is Ok {
        SessionView { started_at: Some(now), batch: Some(batch), duration: v.duration }
    } else {
        v
    }
}

/// Outcome of a status query at `now`: `Idle` when nothing is boiling, an
/// internal error when the clock sample lies before the session started, and
/// otherwise the classified softness of the elapsed time.
pub open spec fn status_of(v: SessionView, now: u64) -> Result<SoftnessReport, BoilingError> {
    match v.started_at {
        None => Ok(SoftnessReport::Idle),
        Some(s) => if now < s {
            Err(BoilingError::InternalError)
        } else {
            Ok(SoftnessReport::Softness(classify_spec(now - s, v.duration as int)))
        },
    }
}

/// Outcome of collecting at `now` against a boil time of `boil_time`: the
/// boiled batch once the boil time has elapsed, `NotReady` before that,
/// `Idle` when nothing is boiling, and an internal error when the clock
/// sample lies before the session started.
pub open spec fn collect_outcome(v: SessionView, boil_time: u64, now: u64) -> Result<
    Seq<Potato>,
    BoilingError,
> {
    match (v.started_at, v.batch) {
        (Some(s), Some(b)) => if now < s {
            Err(BoilingError::InternalError)
        } else if now - s < boil_time {
            Err(BoilingError::NotReady)
        } else {
            Ok(boiled_batch(b))
        },
        _ => Err(BoilingError::Idle),
    }
}

/// The session after a collect request: cleared to idle exactly when the
/// batch was handed out, untouched otherwise.
pub open spec fn collect_next(v: SessionView, boil_time: u64, now: u64) -> SessionView {
    if collect_outcome(v, boil_time, now) is Ok {
        SessionView { started_at: None, batch: None, duration: v.duration }
    } else {
        v
    }
}

/// The Boiling Session Manager. It exclusively owns the one `BoilSession` of
/// the process; all reads and writes of the session go through its methods,
/// and each method is one atomic critical section — callers serialize access
/// from the outside (for instance behind a read-write lock).
pub struct NordoHandlers {
    session: BoilSession,
    boil_duration: u64,
}

impl View for NordoHandlers {
    type V = SessionView;

    closed spec fn view(&self) -> SessionView {
        SessionView {
            started_at: self.session.started_at,
            batch: match self.session.batch {
                Some(b) => Some(b@),
                None => None,
            },
            duration: self.boil_duration,
        }
    }
}

impl NordoHandlers {
    /// The manager is well formed when its session satisfies the
    /// both-or-neither invariant and holds only well-formed potatoes.
    pub open spec fn wf(&self) -> bool {
        view_wf(self@)
    }

    /// Creates an idle manager with the given boil duration.
    pub fn new(boil_duration: u64) -> (handlers: Self)
        ensures
            handlers.wf(),
            handlers@.started_at is None,
            handlers@.batch is None,
            handlers@.duration == boil_duration,
    {
        NordoHandlers {
            session: BoilSession { started_at: None, batch: None },
            boil_duration,
        }
    }

    /// The time-unit at which the active boil started, or `None` while idle.
    pub fn started_at(&self) -> (r: Option<u64>)
        ensures
            r == self@.started_at,
    {
        self.session.started_at
    }

    /// Whether a batch is currently on the stove.
    pub fn has_batch(&self) -> (r: bool)
        ensures
            r == (self@.batch is Some),
    {
        self.session.batch.is_some()
    }

    /// How many potatoes the active batch holds, or `None` while idle.
    pub fn batch_len(&self) -> (r: Option<usize>)
        ensures
            match self@.batch {
                Some(b) => r matches Some(n) && n == b.len(),
                None => r is None,
            },
    {
        match &self.session.batch {
            Some(b) => Some(b.len()),
            None => None,
        }
    }

    /// The potato at position `i` of the active batch.
    pub fn potato_at(&self, i: usize) -> (p: Potato)
        requires
            self@.batch matches Some(b) && i < b.len(),
        ensures
            self@.batch matches Some(b) && p == b[i as int],
    {
        let batch = self.session.batch.as_ref().unwrap();
        batch[i]
    }

    /// Starts boiling a batch of potatoes at time `now`.
    ///
    /// Fails with `InternalError` — and the session left untouched — when a
    /// boil is active and the clock sample lies before its start, so that a
    /// clock fault is surfaced distinctly from business outcomes. Rejected
    /// with `AlreadyBoiling` — and the session left untouched — exactly when
    /// an unfinished boil is active; otherwise the batch is recorded with
    /// `started_at = now`, silently replacing any finished but
    /// never-collected batch.
    pub fn start_boiling_potatoes(&mut self, potatoes: Vec<Potato>, now: u64) -> (r: Result<
        (),
        BoilingError,
    >)
        requires
            old(self).wf(),
            batch_wf(potatoes@),
        ensures
            final(self).wf(),
            r == start_outcome(old(self)@, now),
            final(self)@ == start_next(old(self)@, potatoes@, now),
    {
        if let Some(time) = self.session.started_at {
            if now < time {
                return Err(BoilingError::InternalError);
            }
            if now - time < self.boil_duration {
                return Err(BoilingError::AlreadyBoiling);
            }
        }
        self.session.started_at = Some(now);
        self.session.batch = Some(potatoes);
        Ok(())
    }

    /// Reports the softness of the boiling batch at time `now`, or `Idle`
    /// when nothing is boiling. Never mutates the session: the receiver is
    /// shared, and the result is a pure function of the session view and
    /// `now`, so repeated queries with no intervening write agree.
    pub fn get_potatoes_status(&self, now: u64) -> (r: Result<SoftnessReport, BoilingError>)
        ensures
            r == status_of(self@, now),
    {
        match self.session.started_at {
            None => Ok(SoftnessReport::Idle),
            Some(s) => {
                if now < s {
                    Err(BoilingError::InternalError)
                } else {
                    Ok(SoftnessReport::Softness(classify(now - s, self.boil_duration)))
                }
            },
        }
    }

    /// Collects the batch at time `now` once it has boiled for the configured
    /// duration: every potato comes back marked `boiled` and the session is
    /// cleared to idle, exactly once. Before that the call reports `NotReady`
    /// and leaves the batch untouched; with no active session it reports
    /// `Idle`.
    pub fn get_boiled_potatoes(&mut self, now: u64) -> (r: Result<Vec<Potato>, BoilingError>)
        requires
            old(self).wf(),
        ensures
            final(self).wf(),
            final(self)@ == collect_next(old(self)@, old(self)@.duration, now),
            r is Ok <==> collect_outcome(old(self)@, old(self)@.duration, now) is Ok,
            r matches Ok(b) ==> b@ == collect_outcome(old(self)@, old(self)@.duration, now)->Ok_0
                && batch_wf(b@),
            r matches Err(e) ==> e == collect_outcome(old(self)@, old(self)@.duration, now)->Err_0,
    {
        let boil_time = self.boil_duration;
        self.get_boiled_potatoes_helper(boil_time, now)
    }

    /// As `get_boiled_potatoes`, with the boil time to check against given
    /// explicitly instead of taken from the configuration.
    pub fn get_boiled_potatoes_helper(&mut self, boil_time: u64, now: u64) -> (r: Result<
        Vec<Potato>,
        BoilingError,
    >)
        requires
            old(self).wf(),
        ensures
            final(self).wf(),
            final(self)@ == collect_next(old(self)@, boil_time, now),
            r is Ok <==> collect_outcome(old(self)@, boil_time, now) is Ok,
            r matches Ok(b) ==> b@ == collect_outcome(old(self)@, boil_time, now)->Ok_0
                && batch_wf(b@),
            r matches Err(e) ==> e == collect_outcome(old(self)@, boil_time, now)->Err_0,
    {
        match self.session.started_at {
            None => Err(BoilingError::Idle),
            Some(s) => {
                if now < s {
                    Err(BoilingError::InternalError)
                } else if now - s < boil_time {
                    Err(BoilingError::NotReady)
                } else {
                    let taken = self.session.batch.take();
                    let mut potatoes = taken.unwrap();
                    self.session.started_at = None;
                    proof {
                        lemma_boiled_batch_wf(potatoes@);
                    }
                    mark_all_boiled(&mut potatoes);
                    Ok(potatoes)
                }
            },
        }
    }
}

/// A start request during an active, unfinished boil is always rejected with
/// `AlreadyBoiling`, and the prior batch and timestamp are left unchanged,
/// whatever batch the request carried.
pub proof fn lemma_start_conflict_preserves_session(v: SessionView, batch: Seq<Potato>, now: u64)
    requires
        v.started_at matches Some(s) && s <= now && now - s < v.duration,
    ensures
        start_outcome(v, now) == Err::<(), BoilingError>(BoilingError::AlreadyBoiling),
        start_next(v, batch, now) == v,
{
}

/// Collecting is idempotent-to-idle: once a collect succeeds, the session is
/// idle, and any immediately following collect — at any later sample of the
/// clock — reports `Idle` and changes nothing. The batch is handed out
/// exactly once.
pub proof fn lemma_collect_idempotent_to_idle(v: SessionView, boil_time: u64, now1: u64, now2: u64)
    requires
        collect_outcome(v, boil_time, now1) is Ok,
    ensures
        collect_next(v, boil_time, now1).started_at is None,
        collect_next(v, boil_time, now1).batch is None,
        collect_outcome(collect_next(v, boil_time, now1), boil_time, now2) == Err::<
            Seq<Potato>,
            BoilingError,
        >(BoilingError::Idle),
        collect_next(collect_next(v, boil_time, now1), boil_time, now2) == collect_next(
            v,
            boil_time,
            now1,
        ),
{
}

/// Marks every potato in the batch as boiled, changing nothing else.
fn mark_all_boiled(potatoes: &mut Vec<Potato>)
    ensures
        final(potatoes)@ == boiled_batch(old(potatoes)@),
{
    let ghost orig = potatoes@;
    let n = potatoes.len();
    let mut i: usize = 0;
    while i < n
        invariant
            i <= n,
            n == orig.len(),
            potatoes@.len() == orig.len(),
            forall|j: int| 0 <= j < i ==> potatoes@[j] == crate::nordo_models::boiled_potato(orig[j]),
            forall|j: int| i <= j < n ==> potatoes@[j] == orig[j],
        decreases n - i,
    {
        let mut p = potatoes[i];
        p.boiled = true;
        potatoes.set(i, p);
        i = i + 1;
    }
    assert(potatoes@ =~= boiled_batch(orig));
}

} // verus!
