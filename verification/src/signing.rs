//! Threshold signing sessions: the signature they produce, the result record
//! of a run, and the bookkeeping of a run from its first phase to its result.

use vstd::prelude::*;

use crate::bench::{BenchmarkRecorder, BenchmarkReport};
use crate::clock::Stopwatch;
use crate::encoding::{x_only, spec_x_only, X_ONLY_LEN};
use crate::text::{decimal, describe, spec_decimal, spec_describe};

pub use crate::envelope::ProtocolMessage;

verus! {

/// Length in bytes of a serialized BIP-340 signature.
pub const SIGNATURE_LEN: usize = 64;

/// Schnorr signature as Taproot takes it: the x-only coordinate of the
/// point `R`, and the scalar `s` in big-endian bytes.
#[derive(Debug, Clone)]
pub struct SchnorrSignature {
    /// The `R` component (32 bytes, x-only).
    pub r: Vec<u8>,
    /// The `s` component (32 bytes).
    pub s: Vec<u8>,
}

impl SchnorrSignature {
    /// Both components have the 32 bytes that BIP-340 gives them.
    pub open spec fn well_formed(&self) -> bool {
        self.r@.len() == X_ONLY_LEN && self.s@.len() == X_ONLY_LEN
    }

    /// The serialized signature: `r` followed by `s`.
    pub open spec fn spec_to_bytes(&self) -> Seq<u8> {
        self.r@ + self.s@
    }

    /// Serializes the signature as `r` followed by `s`.
    pub fn to_bytes(&self) -> (bytes: Vec<u8>)
        ensures
            bytes@ == self.spec_to_bytes(),
    {
        let mut sig: Vec<u8> = Vec::with_capacity(SIGNATURE_LEN);
        sig.extend_from_slice(self.r.as_slice());
        sig.extend_from_slice(self.s.as_slice());
        assert(sig@ =~= self.r@ + self.s@);
        sig
    }
}

/// A well-formed signature serializes to exactly 64 bytes, of which the
/// first 32 are `r` and the last 32 are `s`.
pub proof fn lemma_signature_layout(sig: SchnorrSignature)
    requires
        sig.well_formed(),
    ensures
        sig.spec_to_bytes().len() == SIGNATURE_LEN,
        sig.spec_to_bytes().subrange(0, X_ONLY_LEN as int) == sig.r@,
        sig.spec_to_bytes().subrange(X_ONLY_LEN as int, SIGNATURE_LEN as int) == sig.s@,
{
    assert(sig.spec_to_bytes().subrange(0, X_ONLY_LEN as int) =~= sig.r@);
    assert(sig.spec_to_bytes().subrange(X_ONLY_LEN as int, SIGNATURE_LEN as int) =~= sig.s@);
}

/// Outcome of one signing run. Exactly one is produced per run.
#[derive(Debug)]
pub struct FrostSigningResult {
    /// Whether the run produced a signature.
    pub success: bool,
    /// The signature of a successful run.
    pub signature: Option<SchnorrSignature>,
    /// What went wrong in a failed run.
    pub error: Option<String>,
    /// Duration of the run in nanoseconds.
    pub duration_nanos: u128,
    /// Durations of the phases of the run, where they were recorded.
    pub benchmark: Option<BenchmarkReport>,
}

impl FrostSigningResult {
    /// A failed run: no signature, the given description, the given duration.
    pub open spec fn is_failure(&self, description: Seq<char>, elapsed_nanos: u128) -> bool {
        &&& !self.success
        &&& self.signature.is_none()
        &&& self.error matches Some(e) && e@ == description
        &&& self.duration_nanos == elapsed_nanos
    }

    /// A successful run: the given signature components, no description,
    /// the given duration.
    pub open spec fn is_success(&self, r: Seq<u8>, s: Seq<u8>, elapsed_nanos: u128) -> bool {
        &&& self.success
        &&& self.signature matches Some(sig) && sig.r@ == r && sig.s@ == s
        &&& self.error.is_none()
        &&& self.duration_nanos == elapsed_nanos
    }

    /// What holds of every result: a success carries a well-formed
    /// signature and no description, a failure a description that is not
    /// empty and no signature.
    pub open spec fn well_formed(&self) -> bool {
        if self.success {
            &&& self.signature matches Some(sig) && sig.well_formed()
            &&& self.error.is_none()
        } else {
            &&& self.signature.is_none()
            &&& self.error matches Some(e) && e@.len() > 0
        }
    }
}

/// Name under which signing runs are recorded.
pub open spec fn protocol_name() -> Seq<char> {
    "FROST-Signing"@
}

/// Description of a run whose key share could not be read.
pub open spec fn key_share_error(cause: Seq<char>) -> Seq<char> {
    spec_describe("Key share deserialization error: "@, cause)
}

/// Description of a run whose key share took no Taproot tweak.
pub open spec fn tweak_error(cause: Seq<char>) -> Seq<char> {
    spec_describe("Failed to set taproot tweak: "@, cause)
}

/// Description of a run that the protocol engine gave up.
pub open spec fn protocol_error(cause: Seq<char>) -> Seq<char> {
    spec_describe("Protocol error: "@, cause)
}

/// Description of a run whose `R` had neither 32 nor 33 bytes.
pub open spec fn r_length_error(len: nat) -> Seq<char> {
    spec_describe("Unexpected R point length: "@, spec_decimal(len))
}

/// Description of a run whose components did not both come to 32 bytes.
pub open spec fn component_length_error(r_len: nat, s_len: nat) -> Seq<char> {
    "Unexpected signature lengths: R="@ + spec_decimal(r_len) + ", s="@ + spec_decimal(s_len)
}

/// Stage of a run whose key share is yet to be read from its bytes.
#[derive(Debug)]
pub struct AwaitingKeyShare;

/// Stage of a run whose adapters and party are yet to be set up.
#[derive(Debug)]
pub struct AwaitingTransport;

/// Stage of a run whose signing builder is yet to be made.
#[derive(Debug)]
pub struct AwaitingBuilder;

/// Stage of a run whose key share is yet to take the Taproot tweak.
#[derive(Debug)]
pub struct AwaitingTweak;

/// Stage of a run whose protocol engine is yet to return.
#[derive(Debug)]
pub struct AwaitingProtocol;

/// Stage of a run whose protocol engine has returned.
#[derive(Debug)]
pub struct AwaitingSignature;

/// Bookkeeping of one signing run at the stage `S`: whether its phases are
/// recorded, and the record so far. A caller does the work of each phase
/// and tells the session how it ended; the session says what the run comes
/// to. The phases come in one order: each stage offers only the steps that
/// can follow it, and a step that goes on gives the session of the next
/// stage.
#[derive(Debug)]
pub struct SigningSession<S> {
    benchmarking: bool,
    recorder: BenchmarkRecorder,
    stage: S,
}

impl<S> SigningSession<S> {
    /// Whether the phases of this run are recorded.
    pub closed spec fn benchmarking(&self) -> bool {
        self.benchmarking
    }

    /// The record of this run so far.
    pub closed spec fn recorder(&self) -> BenchmarkRecorder {
        self.recorder
    }

    /// Whether this session is `before` after a phase ended well: with
    /// benchmarking the phase is at the end of the record, without it the
    /// record is as it was.
    pub open spec fn records<T>(&self, before: SigningSession<T>, name: Seq<char>, nanos: u128) -> bool {
        &&& self.benchmarking() == before.benchmarking()
        &&& if before.benchmarking() {
            self.recorder().extends(before.recorder(), name, nanos)
        } else {
            self.recorder() == before.recorder()
        }
    }

    /// Whether `benchmark` is what a run that ends in this state attaches to
    /// its result: with benchmarking the completed record, else nothing.
    pub open spec fn attaches(&self, benchmark: Option<BenchmarkReport>, total_nanos: u128) -> bool {
        if self.benchmarking() {
            benchmark matches Some(b) && b.completed_from(self.recorder(), total_nanos)
        } else {
            benchmark.is_none()
        }
    }

    /// Whether `benchmark` is what a run attaches to its result that ends
    /// in this state after one more phase.
    pub open spec fn attaches_with(
        &self,
        benchmark: Option<BenchmarkReport>,
        name: Seq<char>,
        nanos: u128,
        total_nanos: u128,
    ) -> bool {
        if self.benchmarking() {
            benchmark matches Some(b) && b.completed_from_with(
                self.recorder(),
                name,
                nanos,
                total_nanos,
            )
        } else {
            benchmark.is_none()
        }
    }

    /// As `records`, for whatever the phase took.
    pub open spec fn records_phase<T>(&self, before: SigningSession<T>, name: Seq<char>) -> bool {
        self.records(before, name, self.recorder().steps().last().nanos)
    }

    /// As `attaches`, for whatever the total came to.
    pub open spec fn attaches_report(&self, benchmark: Option<BenchmarkReport>) -> bool {
        match benchmark {
            Some(b) => self.attaches(benchmark, b.total_nanos.unwrap_or(0)),
            None => !self.benchmarking(),
        }
    }

    /// As `attaches_with`, for whatever the phase took and the total came
    /// to.
    pub open spec fn attaches_report_with(
        &self,
        benchmark: Option<BenchmarkReport>,
        name: Seq<char>,
    ) -> bool {
        match benchmark {
            Some(b) => self.attaches_with(
                benchmark,
                name,
                b.steps@.last().nanos,
                b.total_nanos.unwrap_or(0),
            ),
            None => !self.benchmarking(),
        }
    }

    /// The nanoseconds that have passed since the bookkeeping started.
    pub fn recorded_nanos(&self) -> u128 {
        self.recorder.elapsed_nanos()
    }

    fn record<T>(self, name: &str, nanos: u128, stage: T) -> (next: SigningSession<T>)
        ensures
            next.records(self, name@, nanos),
    {
        let mut recorder = self.recorder;
        if self.benchmarking {
            recorder.record_step(name, nanos);
        }
        SigningSession { benchmarking: self.benchmarking, recorder, stage }
    }

    fn report(self, total_nanos: u128) -> (benchmark: Option<BenchmarkReport>)
        ensures
            self.attaches(benchmark, total_nanos),
    {
        if self.benchmarking {
            let mut recorder = self.recorder;
            recorder.complete_at(total_nanos);
            Some(recorder.report())
        } else {
            None
        }
    }

    fn failure(self, error: String, elapsed_nanos: u128, total_nanos: u128) -> (result:
        FrostSigningResult)
        ensures
            result.is_failure(error@, elapsed_nanos),
            self.attaches(result.benchmark, total_nanos),
    {
        FrostSigningResult {
            success: false,
            signature: None,
            error: Some(error),
            duration_nanos: elapsed_nanos,
            benchmark: self.report(total_nanos),
        }
    }
}

impl SigningSession<AwaitingKeyShare> {
    /// Starts the bookkeeping of a run: nothing is recorded yet.
    pub fn begin(party_index: u16, session_id: &str, enable_benchmark: bool) -> (session: Self)
        ensures
            session.benchmarking() == enable_benchmark,
            session.recorder().protocol() == protocol_name(),
            session.recorder().party_index() == party_index,
            session.recorder().session_id() == session_id@,
            session.recorder().steps() == Seq::<crate::bench::StepRecord>::empty(),
            session.recorder().total_nanos().is_none(),
    {
        SigningSession {
            benchmarking: enable_benchmark,
            recorder: BenchmarkRecorder::new("FROST-Signing", party_index, session_id),
            stage: AwaitingKeyShare,
        }
    }

    /// The key share could not be read from its bytes: the run ends at
    /// once, and since no phase was completed its result carries no report.
    pub fn key_share_rejected(self, cause: &str, elapsed_nanos: u128) -> (result: FrostSigningResult)
        ensures
            result.is_failure(key_share_error(cause@), elapsed_nanos),
            result.benchmark.is_none(),
            result.well_formed(),
    {
        proof {
            reveal_strlit("Key share deserialization error: ");
        }
        FrostSigningResult {
            success: false,
            signature: None,
            error: Some(describe("Key share deserialization error: ", cause)),
            duration_nanos: elapsed_nanos,
            benchmark: None,
        }
    }

    /// The key share was read from its bytes.
    pub fn key_share_loaded(self, nanos: u128) -> (next: SigningSession<AwaitingTransport>)
        ensures
            next.records(self, "1. Deserialize key_share"@, nanos),
    {
        self.record("1. Deserialize key_share", nanos, AwaitingTransport)
    }
}

impl SigningSession<AwaitingTransport> {
    /// The adapters and the party of the protocol engine were set up.
    pub fn transport_ready(self, nanos: u128) -> (next: SigningSession<AwaitingBuilder>)
        ensures
            next.records(self, "2. Protocol setup (channels, party)"@, nanos),
    {
        self.record("2. Protocol setup (channels, party)", nanos, AwaitingBuilder)
    }
}

impl SigningSession<AwaitingBuilder> {
    /// The signing builder was made.
    pub fn builder_ready(self, nanos: u128) -> (next: SigningSession<AwaitingTweak>)
        ensures
            next.records(self, "3. Create signing builder"@, nanos),
    {
        self.record("3. Create signing builder", nanos, AwaitingTweak)
    }
}

impl SigningSession<AwaitingTweak> {
    /// The key share took no Taproot tweak: the run ends.
    pub fn tweak_rejected(self, cause: &str, elapsed_nanos: u128, total_nanos: u128) -> (result:
        FrostSigningResult)
        ensures
            result.is_failure(tweak_error(cause@), elapsed_nanos),
            self.attaches(result.benchmark, total_nanos),
            result.well_formed(),
    {
        proof {
            reveal_strlit("Failed to set taproot tweak: ");
        }
        let error = describe("Failed to set taproot tweak: ", cause);
        self.failure(error, elapsed_nanos, total_nanos)
    }

    /// The Taproot tweak was applied to the key share.
    pub fn tweak_applied(self, nanos: u128) -> (next: SigningSession<AwaitingProtocol>)
        ensures
            next.records(self, "4. Set taproot tweak (BIP-341)"@, nanos),
    {
        self.record("4. Set taproot tweak (BIP-341)", nanos, AwaitingProtocol)
    }
}

impl SigningSession<AwaitingProtocol> {
    /// The protocol engine returned, with a signature or without.
    pub fn protocol_finished(self, nanos: u128) -> (next: SigningSession<AwaitingSignature>)
        ensures
            next.records(self, "5. MPC signing protocol"@, nanos),
    {
        self.record("5. MPC signing protocol", nanos, AwaitingSignature)
    }
}

impl SigningSession<AwaitingSignature> {
    /// The protocol engine gave the run up: the run ends.
    pub fn protocol_failed(self, cause: &str, elapsed_nanos: u128, total_nanos: u128) -> (result:
        FrostSigningResult)
        ensures
            result.is_failure(protocol_error(cause@), elapsed_nanos),
            self.attaches(result.benchmark, total_nanos),
            result.well_formed(),
    {
        proof {
            reveal_strlit("Protocol error: ");
        }
        let error = describe("Protocol error: ", cause);
        self.failure(error, elapsed_nanos, total_nanos)
    }

    /// The protocol engine produced a signature, whose components arrive
    /// as the engine encodes them: the point `R`, compressed or x-only, and
    /// the scalar in big-endian bytes. The run succeeds where `R` reduces
    /// to 32 bytes and the scalar has 32 bytes, and fails otherwise.
    pub fn signed(
        self,
        r_bytes: &[u8],
        z_bytes: &[u8],
        extract_nanos: u128,
        elapsed_nanos: u128,
        total_nanos: u128,
    ) -> (result: FrostSigningResult)
        ensures
            match spec_x_only(r_bytes@) {
                None => {
                    &&& result.is_failure(r_length_error(r_bytes@.len()), elapsed_nanos)
                    &&& self.attaches(result.benchmark, total_nanos)
                },
                Some(r) => if z_bytes@.len() == X_ONLY_LEN {
                    &&& result.is_success(r, z_bytes@, elapsed_nanos)
                    &&& self.attaches_with(
                        result.benchmark,
                        "6. Extract signature components"@,
                        extract_nanos,
                        total_nanos,
                    )
                } else {
                    &&& result.is_failure(
                        component_length_error(r.len(), z_bytes@.len()),
                        elapsed_nanos,
                    )
                    &&& self.attaches(result.benchmark, total_nanos)
                },
            },
            result.well_formed(),
    {
        let r = match x_only(r_bytes) {
            Ok(r) => r,
            Err(e) => {
                proof {
                    reveal_strlit("Unexpected R point length: ");
                }
                let len = decimal(e.len);
                let error = describe("Unexpected R point length: ", len.as_str());
                return self.failure(error, elapsed_nanos, total_nanos);
            },
        };
        let s = crate::encoding::copy_range(z_bytes, 0, z_bytes.len());
        assert(s@ =~= z_bytes@);
        if r.len() != X_ONLY_LEN || s.len() != X_ONLY_LEN {
            proof {
                reveal_strlit("Unexpected signature lengths: R=");
            }
            let r_len = decimal(r.len());
            let s_len = decimal(s.len());
            let error = describe("Unexpected signature lengths: R=", r_len.as_str()).concat(
                ", s=",
            ).concat(s_len.as_str());
            return self.failure(error, elapsed_nanos, total_nanos);
        }
        let done = self.record("6. Extract signature components", extract_nanos, AwaitingSignature);
        FrostSigningResult {
            success: true,
            signature: Some(SchnorrSignature { r, s }),
            error: None,
            duration_nanos: elapsed_nanos,
            benchmark: done.report(total_nanos),
        }
    }
}

/// Whether signing runs record their phases where the caller does not say.
pub const BENCHMARK_BY_DEFAULT: bool = true;

/// One signing run on the clock, at the stage `S`. The run measures its own
/// duration; the caller starts a stopwatch at the beginning of each phase
/// and hands it over when the phase has ended.
#[derive(Debug)]
pub struct SigningRun<S> {
    session: SigningSession<S>,
    started: Stopwatch,
}

/// One signing run on the clock, after the return of the protocol engine.
#[derive(Debug)]
pub struct FinishedSigningRun {
    session: SigningSession<AwaitingSignature>,
    elapsed_nanos: u128,
}

impl<S> SigningRun<S> {
    /// The bookkeeping of the run.
    pub closed spec fn session(&self) -> SigningSession<S> {
        self.session
    }

    /// The measurement of the run, which started when the run began.
    pub closed spec fn started(&self) -> Stopwatch {
        self.started
    }
}

impl SigningRun<AwaitingKeyShare> {
    /// Starts a run now.
    pub fn begin(party_index: u16, session_id: &str, enable_benchmark: bool) -> (run: Self)
        ensures
            run.session().benchmarking() == enable_benchmark,
            run.session().recorder().protocol() == protocol_name(),
            run.session().recorder().party_index() == party_index,
            run.session().recorder().session_id() == session_id@,
            run.session().recorder().steps() == Seq::<crate::bench::StepRecord>::empty(),
            run.session().recorder().total_nanos().is_none(),
    {
        let started = Stopwatch::start();
        SigningRun { session: SigningSession::begin(party_index, session_id, enable_benchmark), started }
    }

    /// The key share could not be read from its bytes: the run ends at
    /// once, and its result carries no report.
    pub fn key_share_rejected(self, cause: &str) -> (result: FrostSigningResult)
        ensures
            result.is_failure(key_share_error(cause@), result.duration_nanos),
            result.benchmark.is_none(),
            result.well_formed(),
    {
        let elapsed_nanos = self.started.elapsed_nanos();
        self.session.key_share_rejected(cause, elapsed_nanos)
    }

    /// The key share was read from its bytes, in the time on `phase`.
    pub fn key_share_loaded(self, phase: &Stopwatch) -> (next: SigningRun<AwaitingTransport>)
        ensures
            next.session().records_phase(self.session(), "1. Deserialize key_share"@),
            next.started() == self.started(),
    {
        SigningRun {
            session: self.session.key_share_loaded(phase.elapsed_nanos()),
            started: self.started,
        }
    }
}

impl SigningRun<AwaitingTransport> {
    /// The adapters and the party of the protocol engine were set up, in
    /// the time on `phase`.
    pub fn transport_ready(self, phase: &Stopwatch) -> (next: SigningRun<AwaitingBuilder>)
        ensures
            next.session().records_phase(self.session(), "2. Protocol setup (channels, party)"@),
            next.started() == self.started(),
    {
        SigningRun {
            session: self.session.transport_ready(phase.elapsed_nanos()),
            started: self.started,
        }
    }
}

impl SigningRun<AwaitingBuilder> {
    /// The signing builder was made, in the time on `phase`.
    pub fn builder_ready(self, phase: &Stopwatch) -> (next: SigningRun<AwaitingTweak>)
        ensures
            next.session().records_phase(self.session(), "3. Create signing builder"@),
            next.started() == self.started(),
    {
        SigningRun {
            session: self.session.builder_ready(phase.elapsed_nanos()),
            started: self.started,
        }
    }
}

impl SigningRun<AwaitingTweak> {
    /// The key share took no Taproot tweak: the run ends.
    pub fn tweak_rejected(self, cause: &str) -> (result: FrostSigningResult)
        ensures
            result.is_failure(tweak_error(cause@), result.duration_nanos),
            self.session().attaches_report(result.benchmark),
            result.well_formed(),
    {
        let elapsed_nanos = self.started.elapsed_nanos();
        let total_nanos = self.session.recorded_nanos();
        self.session.tweak_rejected(cause, elapsed_nanos, total_nanos)
    }

    /// The Taproot tweak was applied to the key share, in the time on
    /// `phase`.
    pub fn tweak_applied(self, phase: &Stopwatch) -> (next: SigningRun<AwaitingProtocol>)
        ensures
            next.session().records_phase(self.session(), "4. Set taproot tweak (BIP-341)"@),
            next.started() == self.started(),
    {
        SigningRun {
            session: self.session.tweak_applied(phase.elapsed_nanos()),
            started: self.started,
        }
    }
}

impl SigningRun<AwaitingProtocol> {
    /// The protocol engine returned, with a signature or without, in the
    /// time on `phase`. The duration of the run is taken now.
    pub fn protocol_finished(self, phase: &Stopwatch) -> (finished: FinishedSigningRun)
        ensures
            finished.session().records_phase(self.session(), "5. MPC signing protocol"@),
    {
        let session = self.session.protocol_finished(phase.elapsed_nanos());
        FinishedSigningRun { session, elapsed_nanos: self.started.elapsed_nanos() }
    }
}

impl FinishedSigningRun {
    /// The bookkeeping of the run.
    pub closed spec fn session(&self) -> SigningSession<AwaitingSignature> {
        self.session
    }

    /// Duration of the run in nanoseconds.
    pub closed spec fn elapsed_nanos(&self) -> u128 {
        self.elapsed_nanos
    }

    /// The protocol engine gave the run up: the run ends.
    pub fn failed(self, cause: &str) -> (result: FrostSigningResult)
        ensures
            result.is_failure(protocol_error(cause@), self.elapsed_nanos()),
            self.session().attaches_report(result.benchmark),
            result.well_formed(),
    {
        let total_nanos = self.session.recorded_nanos();
        self.session.protocol_failed(cause, self.elapsed_nanos, total_nanos)
    }

    /// The protocol engine produced a signature, whose components were
    /// taken out of it in the time on `phase`. The run succeeds where `R`
    /// reduces to 32 bytes and the scalar has 32 bytes, and fails otherwise.
    pub fn signed(self, r_bytes: &[u8], z_bytes: &[u8], phase: &Stopwatch) -> (result:
        FrostSigningResult)
        ensures
            match spec_x_only(r_bytes@) {
                None => {
                    &&& result.is_failure(r_length_error(r_bytes@.len()), self.elapsed_nanos())
                    &&& self.session().attaches_report(result.benchmark)
                },
                Some(r) => if z_bytes@.len() == X_ONLY_LEN {
                    &&& result.is_success(r, z_bytes@, self.elapsed_nanos())
                    &&& self.session().attaches_report_with(
                        result.benchmark,
                        "6. Extract signature components"@,
                    )
                } else {
                    &&& result.is_failure(
                        component_length_error(r.len(), z_bytes@.len()),
                        self.elapsed_nanos(),
                    )
                    &&& self.session().attaches_report(result.benchmark)
                },
            },
            result.well_formed(),
    {
        let extract_nanos = phase.elapsed_nanos();
        let total_nanos = self.session.recorded_nanos();
        self.session.signed(r_bytes, z_bytes, extract_nanos, self.elapsed_nanos, total_nanos)
    }
}

} // verus!
