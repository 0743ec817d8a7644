use crate::calibration::Calibration;
use crate::error::RaplError;
use crate::governor::{GovernorView, IterationGovernor};
use crate::record::{paired, Record, Snapshot, SnapshotView};
use crate::vendor::Vendor;
use vstd::prelude::*;

verus! {

/// When the clock is read for a snapshot: before the energy counters, so
/// that the time of a start is not later than its readings, or after them,
/// so that the time of a stop is not earlier than its readings.
#[derive(Clone, Copy, Debug, PartialEq, Eq, Structural)]
pub enum ClockOrder {
    BeforeRegisters,
    AfterRegisters,
}

/// What the caller has to read for a snapshot, in this order: the
/// power-unit register, if it is asked for; then the clock and the energy
/// counters, the clock first or last.
#[derive(Clone, Debug, PartialEq, Eq)]
pub struct SamplePlan {
    /// The address of the power-unit register, where the calibration
    /// constant is not known yet.
    pub power_unit: Option<u64>,
    /// When the clock is read.
    pub clock: ClockOrder,
    /// The addresses of the energy counters, in reading order.
    pub registers: Vec<u64>,
}

/// The measurement session as a mathematical value.
pub struct SessionView {
    pub vendor: Vendor,
    pub governor: GovernorView,
    /// The calibration constant, once the power-unit register was read.
    pub calibration: Option<u64>,
    /// Whether a sampling `start` is waiting for its readings.
    pub sampling: bool,
    /// The start snapshot that no `stop` has used yet.
    pub pending: Option<SnapshotView>,
}

impl SessionView {
    /// A session on which nothing was called yet.
    pub open spec fn fresh(vendor: Vendor, max_iterations: nat) -> SessionView {
        SessionView {
            vendor,
            governor: GovernorView { max: max_iterations, calls: 0 },
            calibration: None,
            sampling: false,
            pending: None,
        }
    }

    /// Whether the session is well formed: a pending start snapshot has one
    /// reading for each energy domain of the family.
    pub open spec fn wf(self) -> bool {
        self.pending matches Some(snapshot) ==> snapshot.fits(self.vendor)
    }

    /// Whether the next `start` samples.
    pub open spec fn samples(self) -> bool {
        self.governor.allows()
    }

    /// The register that a sampling `start` asks for first, if any: the
    /// power-unit register, as long as no calibration constant is known.
    pub open spec fn calibration_read(self) -> Option<u64> {
        if self.calibration is None {
            Some(self.vendor.spec_power_unit_register())
        } else {
            None
        }
    }

    /// The session after a `start`. The call is counted. A sampling one
    /// drops a start snapshot that no `stop` has used and waits for its
    /// readings; another one changes nothing else.
    pub open spec fn started(self) -> SessionView {
        if self.samples() {
            SessionView {
                vendor: self.vendor,
                governor: self.governor.next(),
                calibration: self.calibration,
                sampling: true,
                pending: None,
            }
        } else {
            SessionView {
                vendor: self.vendor,
                governor: self.governor.next(),
                calibration: self.calibration,
                sampling: self.sampling,
                pending: self.pending,
            }
        }
    }

    /// Whether the readings of a sampling `start` are taken in: one is
    /// waited for, the snapshot has one reading for each domain, and the
    /// calibration constant is known or comes with them.
    pub open spec fn accepts_start(self, power_unit: Option<u64>, snapshot: SnapshotView) -> bool {
        &&& self.sampling
        &&& snapshot.fits(self.vendor)
        &&& (self.calibration is Some || power_unit is Some)
    }

    /// The calibration constant after a reading of the power-unit register
    /// was handed in: the first reading ever handed in.
    pub open spec fn calibrated(self, power_unit: Option<u64>) -> Option<u64> {
        match self.calibration {
            Some(first) => Some(first),
            None => power_unit,
        }
    }

    /// The session after the readings of a sampling `start` were taken in.
    pub open spec fn stored(self, power_unit: Option<u64>, snapshot: SnapshotView) -> SessionView {
        SessionView {
            vendor: self.vendor,
            governor: self.governor,
            calibration: self.calibrated(power_unit),
            sampling: false,
            pending: Some(snapshot),
        }
    }

    /// Whether a `stop` with this end snapshot makes a record: a start
    /// snapshot is pending, and it and the end snapshot have one reading for
    /// each domain.
    pub open spec fn accepts_stop(self, end: SnapshotView) -> bool {
        &&& self.pending matches Some(start) && start.fits(self.vendor)
        &&& end.fits(self.vendor)
    }

    /// The session after a `stop` that made a record.
    pub open spec fn stopped(self) -> SessionView {
        SessionView {
            vendor: self.vendor,
            governor: self.governor,
            calibration: self.calibration,
            sampling: self.sampling,
            pending: None,
        }
    }
}

/// One call on a session, with what is handed in.
pub enum SessionCall {
    /// `start_rapl`.
    Start,
    /// `store_start` with a reading of the power-unit register, or none, and
    /// the start snapshot.
    StoreStart(Option<u64>, SnapshotView),
    /// `stop_rapl` with the end snapshot.
    Stop(SnapshotView),
}

impl SessionView {
    /// The session after one call. A call that is a contract violation
    /// leaves it as it is.
    pub open spec fn after(self, call: SessionCall) -> SessionView {
        match call {
            SessionCall::Start => self.started(),
            SessionCall::StoreStart(power_unit, snapshot) => if self.accepts_start(
                power_unit,
                snapshot,
            ) {
                self.stored(power_unit, snapshot)
            } else {
                self
            },
            SessionCall::Stop(end) => if self.accepts_stop(end) {
                self.stopped()
            } else {
                self
            },
        }
    }

    /// The session after some calls, one after the other.
    pub open spec fn after_all(self, calls: Seq<SessionCall>) -> SessionView
        decreases calls.len(),
    {
        if calls.len() == 0 {
            self
        } else {
            self.after_all(calls.drop_last()).after(calls.last())
        }
    }

    /// How many of some calls, made one after the other, are a `stop` that
    /// makes a record.
    pub open spec fn records_made(self, calls: Seq<SessionCall>) -> nat
        decreases calls.len(),
    {
        if calls.len() == 0 {
            0
        } else {
            let before = self.after_all(calls.drop_last());
            self.records_made(calls.drop_last()) + match calls.last() {
                SessionCall::Stop(end) => if before.accepts_stop(end) {
                    1nat
                } else {
                    0nat
                },
                _ => 0nat,
            }
        }
    }

    /// Whether a sampling start is under way: waiting for its readings, or
    /// for its `stop`.
    pub open spec fn in_flight(self) -> bool {
        self.sampling || self.pending is Some
    }
}

/// How many of some calls are a `start`.
pub open spec fn starts_in(calls: Seq<SessionCall>) -> nat
    decreases calls.len(),
{
    if calls.len() == 0 {
        0
    } else {
        starts_in(calls.drop_last()) + match calls.last() {
            SessionCall::Start => 1nat,
            _ => 0nat,
        }
    }
}

/// The measurement session: the iteration governor, the calibration
/// constant and the start snapshot that is waiting for its `stop`. One
/// session is made at process start and handed to every operation.
pub struct Session {
    vendor: Vendor,
    governor: IterationGovernor,
    calibration: Calibration,
    sampling: bool,
    pending: Option<Snapshot>,
}

impl View for Session {
    type V = SessionView;

    closed spec fn view(&self) -> SessionView {
        SessionView {
            vendor: self.vendor,
            governor: self.governor@,
            calibration: self.calibration@,
            sampling: self.sampling,
            pending: match self.pending {
                Some(snapshot) => Some(snapshot@),
                None => None,
            },
        }
    }
}

impl Session {
    /// A session for a CPU family that lets `max_iterations` starts sample.
    pub fn new(vendor: Vendor, max_iterations: usize) -> (session: Session)
        ensures
            session@ == SessionView::fresh(vendor, max_iterations as nat),
            session@.wf(),
    {
        Session {
            vendor,
            governor: IterationGovernor::new(max_iterations),
            calibration: Calibration::new(),
            sampling: false,
            pending: None,
        }
    }

    /// The CPU family of the session.
    pub fn vendor(&self) -> (vendor: Vendor)
        ensures
            vendor == self@.vendor,
    {
        self.vendor
    }

    /// The calibration constant, if the power-unit register was read.
    pub fn power_units(&self) -> (constant: Option<u64>)
        ensures
            constant == self@.calibration,
    {
        self.calibration.get()
    }

    /// Whether a start snapshot is waiting for its `stop`.
    pub fn is_started(&self) -> (started: bool)
        ensures
            started == (self@.pending is Some),
    {
        self.pending.is_some()
    }

    /// Whether a sampling `start` is waiting for its readings.
    pub fn is_sampling(&self) -> (sampling: bool)
        ensures
            sampling == self@.sampling,
    {
        self.sampling
    }

    /// The number of sampling starts so far.
    pub fn iterations_sampled(&self) -> (count: usize)
        ensures
            count as nat == self@.governor.sampled(),
    {
        self.governor.sampled()
    }

    /// Begins a start/stop cycle. The call is counted; if it is one of the
    /// first `max_iterations`, the result is the registers that the caller
    /// has to read now, and the caller is to continue. Otherwise the result
    /// is `None`: nothing is to be read, and the caller is to stop iterating.
    pub fn start_rapl(&mut self) -> (plan: Option<SamplePlan>)
        ensures
            old(self)@.wf() ==> final(self)@.wf(),
            final(self)@ == old(self)@.after(SessionCall::Start),
            final(self)@ == old(self)@.started(),
            plan is Some <==> old(self)@.samples(),
            plan matches Some(reads) ==> reads.power_unit == old(self)@.calibration_read()
                && reads.clock == ClockOrder::BeforeRegisters && reads.registers@ == old(
                self,
            )@.vendor.spec_domain_registers(),
    {
        if !self.governor.next_iteration() {
            return None;
        }
        self.pending = None;
        self.sampling = true;
        let power_unit = if self.calibration.needs_read() {
            Some(self.vendor.power_unit_register())
        } else {
            None
        };
        Some(
            SamplePlan {
                power_unit,
                clock: ClockOrder::BeforeRegisters,
                registers: self.vendor.domain_registers(),
            },
        )
    }

    /// Takes in what was read for a sampling `start`: the power-unit
    /// register, where the plan asked for it, and the start snapshot. The
    /// first power-unit reading ever handed in becomes the calibration
    /// constant; the snapshot becomes the pending one. Handing in readings
    /// that were not asked for, or that do not fit, is a contract violation
    /// and changes nothing.
    pub fn store_start(&mut self, power_unit: Option<u64>, snapshot: Snapshot) -> (stored: Result<
        (),
        RaplError,
    >)
        ensures
            old(self)@.wf() ==> final(self)@.wf(),
            final(self)@ == old(self)@.after(SessionCall::StoreStart(power_unit, snapshot@)),
            match stored {
                Ok(_) => old(self)@.accepts_start(power_unit, snapshot@) && final(self)@ == old(
                    self,
                )@.stored(power_unit, snapshot@),
                Err(error) => !old(self)@.accepts_start(power_unit, snapshot@) && error
                    == RaplError::ContractViolation && final(self)@ == old(self)@,
            },
    {
        if !self.sampling || snapshot.readings.len() != self.vendor.domain_count() {
            return Err(RaplError::ContractViolation);
        }
        match power_unit {
            Some(reading) => {
                self.calibration.calibrate(reading);
            },
            None => {
                if self.calibration.needs_read() {
                    return Err(RaplError::ContractViolation);
                }
            },
        }
        self.sampling = false;
        self.pending = Some(snapshot);
        Ok(())
    }

    /// What the caller has to read for the end snapshot: the energy
    /// counters, then the clock. Without a pending start there is nothing to
    /// read: a `stop` would be a contract violation.
    pub fn prepare_stop(&self) -> (plan: Result<SamplePlan, RaplError>)
        ensures
            match plan {
                Ok(reads) => {
                    &&& self@.pending is Some
                    &&& reads.power_unit is None
                    &&& reads.clock == ClockOrder::AfterRegisters
                    &&& reads.registers@ == self@.vendor.spec_domain_registers()
                },
                Err(error) => self@.pending is None && error == RaplError::ContractViolation,
            },
    {
        if self.pending.is_none() {
            return Err(RaplError::ContractViolation);
        }
        Ok(
            SamplePlan {
                power_unit: None,
                clock: ClockOrder::AfterRegisters,
                registers: self.vendor.domain_registers(),
            },
        )
    }

    /// Ends a start/stop cycle: pairs the pending start snapshot with the
    /// end snapshot, and clears the pending one. A `stop` without a `start`
    /// before it, or with a snapshot that does not fit, is a contract
    /// violation and changes nothing.
    pub fn stop_rapl(&mut self, end: Snapshot) -> (record: Result<Record, RaplError>)
        ensures
            old(self)@.wf() ==> final(self)@.wf(),
            final(self)@ == old(self)@.after(SessionCall::Stop(end@)),
            match record {
                Ok(made) => {
                    &&& old(self)@.accepts_stop(end@)
                    &&& made@ == paired(old(self)@.pending->0, end@)
                    &&& made@.fits(old(self)@.vendor)
                    &&& final(self)@ == old(self)@.stopped()
                },
                Err(error) => !old(self)@.accepts_stop(end@) && error
                    == RaplError::ContractViolation && final(self)@ == old(self)@,
            },
    {
        let count = self.vendor.domain_count();
        let fitting = match &self.pending {
            Some(start) => start.readings.len() == count && end.readings.len() == count,
            None => false,
        };
        if !fitting {
            return Err(RaplError::ContractViolation);
        }
        match self.pending.take() {
            Some(start) => match Record::pair(&start, &end) {
                Some(made) => Ok(made),
                None => Err(RaplError::ContractViolation),
            },
            None => Err(RaplError::ContractViolation),
        }
    }
}

/// A well-formed session stays well formed, whatever is called on it.
pub proof fn lemma_session_stays_wf(session: SessionView, calls: Seq<SessionCall>)
    requires
        session.wf(),
    ensures
        session.after_all(calls).wf(),
    decreases calls.len(),
{
    if calls.len() > 0 {
        lemma_session_stays_wf(session, calls.drop_last());
    }
}

/// On a well-formed session a `stop` needs no more than a pending start and
/// an end snapshot that fits the family.
pub proof fn lemma_stop_needs_a_start(session: SessionView, end: SnapshotView)
    requires
        session.wf(),
    ensures
        session.accepts_stop(end) <==> session.pending is Some && end.fits(session.vendor),
{
}

/// Every `start` is counted, and nothing else is: after any calls on a new
/// session the governor has seen as many calls as there were starts. So the
/// next `start` samples if and only if fewer than `max_iterations` starts
/// came before it: exactly the first `max_iterations` starts ask for
/// hardware reads, and the one after them does not.
pub proof fn lemma_exactly_max_starts_sample(
    vendor: Vendor,
    max_iterations: nat,
    calls: Seq<SessionCall>,
)
    ensures
        SessionView::fresh(vendor, max_iterations).after_all(calls).governor == (GovernorView {
            max: max_iterations,
            calls: starts_in(calls),
        }),
        SessionView::fresh(vendor, max_iterations).after_all(calls).samples() <==> starts_in(calls)
            < max_iterations,
    decreases calls.len(),
{
    if calls.len() > 0 {
        lemma_exactly_max_starts_sample(vendor, max_iterations, calls.drop_last());
    }
}

/// No more records are made than starts have sampled, and so never more than
/// `max_iterations`: each record uses up the snapshot of one sampling start.
pub proof fn lemma_records_bounded_by_samples(
    vendor: Vendor,
    max_iterations: nat,
    calls: Seq<SessionCall>,
)
    ensures
        ({
            let fresh = SessionView::fresh(vendor, max_iterations);
            let last = fresh.after_all(calls);
            &&& fresh.records_made(calls) + (if last.in_flight() {
                1nat
            } else {
                0nat
            }) <= last.governor.sampled()
            &&& last.governor.sampled() <= max_iterations
            &&& !(last.sampling && last.pending is Some)
        }),
    decreases calls.len(),
{
    lemma_exactly_max_starts_sample(vendor, max_iterations, calls);
    if calls.len() > 0 {
        lemma_records_bounded_by_samples(vendor, max_iterations, calls.drop_last());
    }
}

/// The calibration constant is written once: a session that has one keeps
/// it, whatever is called on it, and never asks for the power-unit register
/// again.
pub proof fn lemma_constant_is_kept(session: SessionView, calls: Seq<SessionCall>)
    requires
        session.calibration is Some,
    ensures
        session.after_all(calls).calibration == session.calibration,
        session.after_all(calls).calibration_read() is None,
    decreases calls.len(),
{
    if calls.len() > 0 {
        lemma_constant_is_kept(session, calls.drop_last());
    }
}

/// One full cycle: a `start`, the readings it asked for, and a `stop`.
pub open spec fn cycle(power_unit: u64, start: SnapshotView, end: SnapshotView) -> Seq<
    SessionCall,
> {
    seq![
        SessionCall::Start,
        SessionCall::StoreStart(Some(power_unit), start),
        SessionCall::Stop(end),
    ]
}

/// Some full cycles, one after the other, with a start and an end snapshot
/// for each.
pub open spec fn cycles(power_unit: u64, starts: Seq<SnapshotView>, ends: Seq<SnapshotView>) -> Seq<
    SessionCall,
>
    decreases starts.len(),
{
    if starts.len() == 0 {
        Seq::empty()
    } else {
        cycles(power_unit, starts.drop_last(), ends.drop_last()) + cycle(
            power_unit,
            starts.last(),
            ends.last(),
        )
    }
}

/// Of `n` full cycles run back to back on a new session, exactly the first
/// `max_iterations` make a record; the others make none. After each cycle
/// nothing is in flight.
pub proof fn lemma_cycles_make_exactly_max_records(
    vendor: Vendor,
    max_iterations: nat,
    power_unit: u64,
    starts: Seq<SnapshotView>,
    ends: Seq<SnapshotView>,
)
    requires
        starts.len() == ends.len(),
        forall|i: int| 0 <= i < starts.len() ==> (#[trigger] starts[i]).fits(vendor),
        forall|i: int| 0 <= i < ends.len() ==> (#[trigger] ends[i]).fits(vendor),
    ensures
        ({
            let fresh = SessionView::fresh(vendor, max_iterations);
            let calls = cycles(power_unit, starts, ends);
            &&& fresh.records_made(calls) == if starts.len() <= max_iterations {
                starts.len()
            } else {
                max_iterations
            }
            &&& fresh.after_all(calls).governor.calls == starts.len()
            &&& fresh.after_all(calls).vendor == vendor
            &&& !fresh.after_all(calls).in_flight()
        }),
    decreases starts.len(),
{
    let fresh = SessionView::fresh(vendor, max_iterations);
    if starts.len() > 0 {
        lemma_cycles_make_exactly_max_records(
            vendor,
            max_iterations,
            power_unit,
            starts.drop_last(),
            ends.drop_last(),
        );
        let earlier = cycles(power_unit, starts.drop_last(), ends.drop_last());
        lemma_exactly_max_starts_sample(vendor, max_iterations, earlier);
        let one = earlier.push(SessionCall::Start);
        let two = one.push(SessionCall::StoreStart(Some(power_unit), starts.last()));
        let three = two.push(SessionCall::Stop(ends.last()));
        assert(cycles(power_unit, starts, ends) =~= three);
        assert(one.drop_last() =~= earlier);
        assert(two.drop_last() =~= one);
        assert(three.drop_last() =~= two);
        assert(fresh.records_made(two) == fresh.records_made(one));
    }
}

} // verus!
