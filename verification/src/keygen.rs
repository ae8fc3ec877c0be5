//! Distributed key generation sessions: the result record of a run, and the
//! steps that lead from what the protocol engine returned to that record.

use vstd::prelude::*;

use crate::clock::Stopwatch;
use crate::encoding::{x_only, spec_x_only, X_ONLY_LEN};
use crate::text::{decimal, describe, spec_decimal, spec_describe};

pub use crate::envelope::ProtocolMessage;

verus! {

/// Outcome of one key generation run. Exactly one is produced per run.
#[derive(Debug)]
pub struct FrostKeygenResult {
    /// Whether the run produced a key share.
    pub success: bool,
    /// The serialized key share of a successful run, to be stored.
    pub key_share_data: Option<Vec<u8>>,
    /// The group's public key of a successful run (x-only, 32 bytes).
    pub public_key: Option<Vec<u8>>,
    /// What went wrong in a failed run.
    pub error: Option<String>,
    /// Duration of the run in nanoseconds.
    pub duration_nanos: u128,
}

impl FrostKeygenResult {
    /// A failed run: no key share, no public key, the given description,
    /// the given duration.
    pub open spec fn is_failure(&self, description: Seq<char>, elapsed_nanos: u128) -> bool {
        &&& !self.success
        &&& self.key_share_data.is_none()
        &&& self.public_key.is_none()
        &&& self.error matches Some(e) && e@ == description
        &&& self.duration_nanos == elapsed_nanos
    }

    /// A successful run: the given key share and public key, no
    /// description, the given duration.
    pub open spec fn is_success(
        &self,
        key_share_data: Seq<u8>,
        public_key: Seq<u8>,
        elapsed_nanos: u128,
    ) -> bool {
        &&& self.success
        &&& self.key_share_data matches Some(d) && d@ == key_share_data
        &&& self.public_key matches Some(k) && k@ == public_key
        &&& self.error.is_none()
        &&& self.duration_nanos == elapsed_nanos
    }

    /// What holds of every result: a success carries a key share and a
    /// 32-byte public key and no description, a failure a description that
    /// is not empty and nothing else.
    pub open spec fn well_formed(&self) -> bool {
        if self.success {
            &&& self.key_share_data.is_some()
            &&& self.public_key matches Some(k) && k@.len() == X_ONLY_LEN
            &&& self.error.is_none()
        } else {
            &&& self.key_share_data.is_none()
            &&& self.public_key.is_none()
            &&& self.error matches Some(e) && e@.len() > 0
        }
    }
}

/// Description of a run that the protocol engine gave up.
pub open spec fn protocol_error(cause: Seq<char>) -> Seq<char> {
    spec_describe("Protocol error: "@, cause)
}

/// Description of a run whose public key had neither 32 nor 33 bytes.
pub open spec fn public_key_length_error(len: nat) -> Seq<char> {
    spec_describe("Unexpected public key length: "@, spec_decimal(len))
}

/// Description of a run whose key share could not be serialized.
pub open spec fn serialization_error(cause: Seq<char>) -> Seq<char> {
    spec_describe("Serialization error: "@, cause)
}

/// The protocol engine gave the run up: the run ends.
pub fn protocol_failed(cause: &str, elapsed_nanos: u128) -> (result: FrostKeygenResult)
    ensures
        result.is_failure(protocol_error(cause@), elapsed_nanos),
        result.well_formed(),
{
    proof {
        reveal_strlit("Protocol error: ");
    }
    failure(describe("Protocol error: ", cause), elapsed_nanos)
}

fn failure(error: String, elapsed_nanos: u128) -> (result: FrostKeygenResult)
    ensures
        result.is_failure(error@, elapsed_nanos),
{
    FrostKeygenResult {
        success: false,
        key_share_data: None,
        public_key: None,
        error: Some(error),
        duration_nanos: elapsed_nanos,
    }
}

/// A run whose protocol engine returned a key share, and whose public key
/// reduced to its x-only coordinate. What is left is to serialize the share.
#[derive(Debug)]
pub struct GeneratedKey {
    public_key: Vec<u8>,
    elapsed_nanos: u128,
}

impl GeneratedKey {
    #[verifier::type_invariant]
    spec fn inv(&self) -> bool {
        self.public_key@.len() == X_ONLY_LEN
    }

    /// The group's public key (x-only).
    pub closed spec fn public_key(&self) -> Seq<u8> {
        self.public_key@
    }

    /// Duration of the run in nanoseconds.
    pub closed spec fn elapsed_nanos(&self) -> u128 {
        self.elapsed_nanos
    }

    /// The protocol engine returned a key share, whose public key arrives
    /// as the engine encodes it, compressed or x-only. The run goes on where
    /// the key reduces to 32 bytes; otherwise it ends with the failure
    /// returned.
    pub fn generated(public_key_bytes: &[u8], elapsed_nanos: u128) -> (r: Result<
        GeneratedKey,
        FrostKeygenResult,
    >)
        ensures
            match r {
                Ok(key) => {
                    &&& spec_x_only(public_key_bytes@) == Some(key.public_key())
                    &&& key.elapsed_nanos() == elapsed_nanos
                },
                Err(result) => {
                    &&& spec_x_only(public_key_bytes@).is_none()
                    &&& result.is_failure(
                        public_key_length_error(public_key_bytes@.len()),
                        elapsed_nanos,
                    )
                    &&& result.well_formed()
                },
            },
    {
        match x_only(public_key_bytes) {
            Ok(public_key) => Ok(GeneratedKey { public_key, elapsed_nanos }),
            Err(e) => {
                proof {
                    reveal_strlit("Unexpected public key length: ");
                }
                let len = decimal(e.len);
                Err(failure(describe("Unexpected public key length: ", len.as_str()), elapsed_nanos))
            },
        }
    }

    /// The x-only public key of the run.
    pub fn x_only_public_key(&self) -> (key: &Vec<u8>)
        ensures
            key@ == self.public_key(),
            key@.len() == X_ONLY_LEN,
    {
        proof {
            use_type_invariant(self);
        }
        &self.public_key
    }

    /// The key share was serialized: the run succeeds.
    pub fn stored(self, key_share_data: Vec<u8>) -> (result: FrostKeygenResult)
        ensures
            result.is_success(key_share_data@, self.public_key(), self.elapsed_nanos()),
            result.well_formed(),
    {
        proof {
            use_type_invariant(&self);
        }
        FrostKeygenResult {
            success: true,
            key_share_data: Some(key_share_data),
            public_key: Some(self.public_key),
            error: None,
            duration_nanos: self.elapsed_nanos,
        }
    }

    /// The key share could not be serialized: the run ends.
    pub fn not_stored(self, cause: &str) -> (result: FrostKeygenResult)
        ensures
            result.is_failure(serialization_error(cause@), self.elapsed_nanos()),
            result.well_formed(),
    {
        proof {
            reveal_strlit("Serialization error: ");
        }
        failure(describe("Serialization error: ", cause), self.elapsed_nanos)
    }
}

/// One key generation run on the clock: it measures its own duration, up
/// to the return of the protocol engine.
#[derive(Debug)]
pub struct KeygenRun {
    started: Stopwatch,
}

impl KeygenRun {
    /// Starts a run now.
    pub fn begin() -> KeygenRun {
        KeygenRun { started: Stopwatch::start() }
    }

    /// The protocol engine gave the run up: the run ends.
    pub fn protocol_failed(self, cause: &str) -> (result: FrostKeygenResult)
        ensures
            result.is_failure(protocol_error(cause@), result.duration_nanos),
            result.well_formed(),
    {
        protocol_failed(cause, self.started.elapsed_nanos())
    }

    /// The protocol engine returned a key share, whose public key arrives
    /// as the engine encodes it, compressed or x-only. The run goes on where
    /// the key reduces to 32 bytes; otherwise it ends with the failure
    /// returned.
    pub fn generated(self, public_key_bytes: &[u8]) -> (r: Result<GeneratedKey, FrostKeygenResult>)
        ensures
            match r {
                Ok(key) => spec_x_only(public_key_bytes@) == Some(key.public_key()),
                Err(result) => {
                    &&& spec_x_only(public_key_bytes@).is_none()
                    &&& result.is_failure(
                        public_key_length_error(public_key_bytes@.len()),
                        result.duration_nanos,
                    )
                    &&& result.well_formed()
                },
            },
    {
        GeneratedKey::generated(public_key_bytes, self.started.elapsed_nanos())
    }
}

} // verus!
