//! Recorder of how long the named phases of a session run took.
//!
//! A caller measures each phase and hands its duration in, as whole
//! nanoseconds. The total of the run is measured by the recorder itself,
//! from the moment it was made.

use vstd::prelude::*;

use crate::clock::Stopwatch;

verus! {

/// One recorded phase: its name and how long it took.
#[derive(Debug)]
pub struct StepRecord {
    /// Name of the phase.
    pub name: String,
    /// Duration of the phase in nanoseconds.
    pub nanos: u128,
}

/// Snapshot of a recorder: the phases in the order in which they were
/// recorded, and the total once the run was completed.
#[derive(Debug)]
pub struct BenchmarkReport {
    /// Name of the protocol that was measured.
    pub protocol: String,
    /// Index of the party that ran it.
    pub party_index: u16,
    /// Session that the run belonged to.
    pub session_id: String,
    /// The recorded phases, oldest first.
    pub steps: Vec<StepRecord>,
    /// Total duration of the run in nanoseconds; `None` until the run is
    /// completed.
    pub total_nanos: Option<u128>,
}

impl BenchmarkReport {
    /// Whether this report is the snapshot of `recorder` after its run was
    /// completed with the given total.
    pub open spec fn completed_from(&self, recorder: BenchmarkRecorder, total_nanos: u128) -> bool {
        &&& self.protocol@ == recorder.protocol()
        &&& self.party_index == recorder.party_index()
        &&& self.session_id@ == recorder.session_id()
        &&& self.steps@ == recorder.steps()
        &&& self.total_nanos == match recorder.total_nanos() {
            Some(t) => Some(t),
            None => Some(total_nanos),
        }
    }

    /// Whether this report is the snapshot of `recorder` after one more
    /// phase was recorded and its run was completed with the given total.
    pub open spec fn completed_from_with(
        &self,
        recorder: BenchmarkRecorder,
        name: Seq<char>,
        nanos: u128,
        total_nanos: u128,
    ) -> bool {
        &&& self.protocol@ == recorder.protocol()
        &&& self.party_index == recorder.party_index()
        &&& self.session_id@ == recorder.session_id()
        &&& self.steps@.len() == recorder.steps().len() + 1
        &&& self.steps@.drop_last() == recorder.steps()
        &&& self.steps@.last().name@ == name
        &&& self.steps@.last().nanos == nanos
        &&& self.total_nanos == match recorder.total_nanos() {
            Some(t) => Some(t),
            None => Some(total_nanos),
        }
    }
}

/// Append-only log of phase durations for one session run.
#[derive(Debug)]
pub struct BenchmarkRecorder {
    protocol: String,
    party_index: u16,
    session_id: String,
    steps: Vec<StepRecord>,
    total_nanos: Option<u128>,
    started: Stopwatch,
}

impl BenchmarkRecorder {
    /// Name of the protocol being measured.
    pub closed spec fn protocol(&self) -> Seq<char> {
        self.protocol@
    }

    /// Index of the party that runs the protocol.
    pub closed spec fn party_index(&self) -> u16 {
        self.party_index
    }

    /// Session that the run belongs to.
    pub closed spec fn session_id(&self) -> Seq<char> {
        self.session_id@
    }

    /// The phases recorded so far, oldest first.
    pub closed spec fn steps(&self) -> Seq<StepRecord> {
        self.steps@
    }

    /// The frozen total, once the run was completed.
    pub closed spec fn total_nanos(&self) -> Option<u128> {
        self.total_nanos
    }

    /// The measurement of the run, which started when the recorder was
    /// made.
    pub closed spec fn started(&self) -> Stopwatch {
        self.started
    }

    /// Whether a report is the snapshot of this recorder.
    pub open spec fn reports(&self, report: BenchmarkReport) -> bool {
        &&& report.protocol@ == self.protocol()
        &&& report.party_index == self.party_index()
        &&& report.session_id@ == self.session_id()
        &&& report.steps@ == self.steps()
        &&& report.total_nanos == self.total_nanos()
    }

    /// Whether this recorder is `before` with one more phase at the end of
    /// its log, and nothing else changed.
    pub open spec fn extends(&self, before: BenchmarkRecorder, name: Seq<char>, nanos: u128) -> bool {
        &&& self.steps().len() == before.steps().len() + 1
        &&& self.steps().drop_last() == before.steps()
        &&& self.steps().last().name@ == name
        &&& self.steps().last().nanos == nanos
        &&& self.protocol() == before.protocol()
        &&& self.party_index() == before.party_index()
        &&& self.session_id() == before.session_id()
        &&& self.total_nanos() == before.total_nanos()
        &&& self.started() == before.started()
    }

    /// Whether this recorder is `before` after its run was completed with
    /// the given total: a total that was frozen earlier stays.
    pub open spec fn completes(&self, before: BenchmarkRecorder, elapsed_nanos: u128) -> bool {
        &&& self.total_nanos() == match before.total_nanos() {
            Some(t) => Some(t),
            None => Some(elapsed_nanos),
        }
        &&& self.steps() == before.steps()
        &&& self.protocol() == before.protocol()
        &&& self.party_index() == before.party_index()
        &&& self.session_id() == before.session_id()
        &&& self.started() == before.started()
    }

    /// Whether this recorder is `before` after its run was completed,
    /// whatever the total came to: there is a total, and one that was
    /// frozen earlier stays.
    pub open spec fn completed(&self, before: BenchmarkRecorder) -> bool {
        &&& self.total_nanos().is_some()
        &&& before.total_nanos().is_some() ==> self.total_nanos() == before.total_nanos()
        &&& self.steps() == before.steps()
        &&& self.protocol() == before.protocol()
        &&& self.party_index() == before.party_index()
        &&& self.session_id() == before.session_id()
        &&& self.started() == before.started()
    }

    /// A recorder with an empty log and no total, whose run starts now.
    pub fn new(protocol: &str, party_index: u16, session_id: &str) -> (r: Self)
        ensures
            r.protocol() == protocol@,
            r.party_index() == party_index,
            r.session_id() == session_id@,
            r.steps() == Seq::<StepRecord>::empty(),
            r.total_nanos().is_none(),
    {
        BenchmarkRecorder {
            protocol: String::from_str(protocol),
            party_index,
            session_id: String::from_str(session_id),
            steps: Vec::new(),
            total_nanos: None,
            started: Stopwatch::start(),
        }
    }

    /// The nanoseconds that have passed since the recorder was made.
    pub fn elapsed_nanos(&self) -> u128 {
        self.started.elapsed_nanos()
    }

    /// Appends one phase to the log. Nothing that was recorded before changes.
    pub fn record_step(&mut self, name: &str, nanos: u128)
        ensures
            final(self).extends(*old(self), name@, nanos),
    {
        self.steps.push(StepRecord { name: String::from_str(name), nanos });
        assert(self.steps@.drop_last() =~= old(self).steps@);
    }

    /// Freezes the total duration of the run at the time that has passed
    /// since the recorder was made. The first call decides: a total that is
    /// frozen stays as it is.
    pub fn complete(&mut self)
        ensures
            final(self).completed(*old(self)),
    {
        let elapsed_nanos = self.elapsed_nanos();
        self.complete_at(elapsed_nanos);
    }

    /// Freezes the total duration of the run at the given number of
    /// nanoseconds. The first call decides: a total that is frozen stays as
    /// it is.
    pub fn complete_at(&mut self, elapsed_nanos: u128)
        ensures
            final(self).completes(*old(self), elapsed_nanos),
    {
        if self.total_nanos.is_none() {
            self.total_nanos = Some(elapsed_nanos);
        }
    }

    /// Takes a snapshot of the log and the total. The recorder is unchanged.
    pub fn report(&self) -> (r: BenchmarkReport)
        ensures
            self.reports(r),
    {
        let mut steps: Vec<StepRecord> = Vec::with_capacity(self.steps.len());
        let mut i: usize = 0;
        while i < self.steps.len()
            invariant
                i <= self.steps@.len(),
                steps@ == self.steps@.subrange(0, i as int),
            decreases self.steps@.len() - i,
        {
            let step = &self.steps[i];
            steps.push(StepRecord { name: step.name.clone(), nanos: step.nanos });
            assert(steps@ =~= self.steps@.subrange(0, i + 1));
            i += 1;
        }
        assert(steps@ =~= self.steps@);
        BenchmarkReport {
            protocol: self.protocol.clone(),
            party_index: self.party_index,
            session_id: self.session_id.clone(),
            steps,
            total_nanos: self.total_nanos,
        }
    }
}

} // verus!
