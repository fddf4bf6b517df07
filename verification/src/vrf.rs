use vstd::prelude::*;

use crate::errors::CoreError;
use crate::identity::{identity_eq, Identity};

verus! {

/// Status of a randomness request record.
#[derive(Clone, Copy, Debug, PartialEq, Eq, Structural)]
pub enum RandomnessStatus {
    /// Requested; the oracle has not called back yet.
    Pending,
    /// The oracle's one authorized callback went through.
    Fulfilled,
}

/// A randomness request record. Its address is derived from the requester
/// identity, so each requester holds one such record, reset on every new
/// request.
#[derive(Clone, Copy, Debug, PartialEq, Eq)]
pub struct VrfResult {
    /// Who asked for randomness.
    pub requester_key: Identity,
    /// The oracle's bytes once fulfilled; all-zero sentinel while pending.
    /// The sentinel is not a valid random value and callers must not treat
    /// it as one.
    pub random_value: [u8; 32],
    pub status: RandomnessStatus,
    /// When the request was made.
    pub created_at: i64,
}

/// Deployment-time oracle wiring, injected rather than compiled in so that
/// the core can run against any oracle deployment.
#[derive(Clone, Copy, Debug, PartialEq, Eq)]
pub struct OracleConfig {
    /// The one well-known identity whose fulfillment callbacks are
    /// accepted, fixed at deployment time and shared by every record.
    pub callback_identity: Identity,
    /// The queue the outbound request is written into.
    pub queue: Identity,
}

/// The outbound, fire-and-forget request handed to the oracle queue. The
/// oracle later calls back into `consume_randomness` on the record at the
/// address derived from `payer`.
#[derive(Clone, Copy, Debug, PartialEq, Eq)]
pub struct RandomnessRequest {
    /// Who pays for and receives the randomness.
    pub payer: Identity,
    /// Destination queue, from the injected configuration.
    pub oracle_queue: Identity,
    /// The caller's one seed byte expanded to a full seed buffer.
    pub caller_seed: [u8; 32],
}

/// True of the all-zero placeholder a pending record holds.
pub open spec fn is_zero_sentinel(bytes: Seq<u8>) -> bool {
    &&& bytes.len() == 32
    &&& forall|i: int| 0 <= i < 32 ==> bytes[i] == 0u8
}

/// The record a new request leaves behind: pending over the zero sentinel.
pub open spec fn fresh_vrf_record(requester: Identity, now: i64) -> VrfResult {
    VrfResult {
        requester_key: requester,
        random_value: vstd::array::spec_array_fill_for_copy_type::<u8, 32>(0u8),
        status: RandomnessStatus::Pending,
        created_at: now,
    }
}

/// The record after an authorized fulfillment: the supplied bytes, marked
/// fulfilled. Applied whatever the prior status: a later authorized
/// callback deliberately overwrites an already fulfilled record — making
/// `Fulfilled` terminal is an explicit non-choice of this protocol.
pub open spec fn fulfilled_vrf_record(record: VrfResult, random_value: [u8; 32]) -> VrfResult {
    VrfResult {
        random_value,
        status: RandomnessStatus::Fulfilled,
        ..record
    }
}

/// Record well-formedness: while the request is pending, the stored value
/// is still the zero sentinel.
pub open spec fn vrf_wf(record: VrfResult) -> bool {
    record.status == RandomnessStatus::Pending ==> is_zero_sentinel(record.random_value@)
}

/// Create or reset the requester's randomness record and build the
/// outbound oracle request.
///
/// The returned record overwrites whatever sat at the derived address —
/// a new request deliberately resets an old result. The returned request
/// carries the seed byte expanded into the full seed buffer and is
/// fire-and-forget: nothing here waits for the oracle.
pub fn request_randomness(
    requester: Identity,
    client_seed: u8,
    config: &OracleConfig,
    now: i64,
) -> (r: (VrfResult, RandomnessRequest))
    ensures
        r.0 == fresh_vrf_record(requester, now),
        vrf_wf(r.0),
        r.1.payer == requester,
        r.1.oracle_queue == config.queue,
        forall|i: int| 0 <= i < 32 ==> r.1.caller_seed@[i] == client_seed,
{
    let record = VrfResult {
        requester_key: requester,
        random_value: [0u8; 32],
        status: RandomnessStatus::Pending,
        created_at: now,
    };
    let request = RandomnessRequest {
        payer: requester,
        oracle_queue: config.queue,
        caller_seed: [client_seed; 32],
    };
    (record, request)
}

/// Accept the oracle's fulfillment callback.
///
/// The single admission rule: the caller must be the deployment's one
/// oracle callback identity — per-record keys play no part, and any other
/// caller is rejected with the record left untouched. On success the
/// supplied bytes are stored exactly and the record is marked fulfilled.
pub fn consume_randomness(
    record: &mut VrfResult,
    caller_identity: &Identity,
    random_value: [u8; 32],
    config: &OracleConfig,
) -> (r: Result<(), CoreError>)
    ensures
        *caller_identity != config.callback_identity ==> {
            &&& r == Err::<(), CoreError>(CoreError::Unauthorized)
            &&& *final(record) == *old(record)
        },
        *caller_identity == config.callback_identity ==> {
            &&& r == Ok::<(), CoreError>(())
            &&& *final(record) == fulfilled_vrf_record(*old(record), random_value)
        },
        vrf_wf(*old(record)) ==> vrf_wf(*final(record)),
{
    if !identity_eq(caller_identity, &config.callback_identity) {
        return Err(CoreError::Unauthorized);
    }
    record.random_value = random_value;
    record.status = RandomnessStatus::Fulfilled;
    Ok(())
}

/// Law: a request followed by an authorized fulfillment moves the record
/// from `Pending` over the zero sentinel to `Fulfilled` holding exactly the
/// supplied bytes, with the requester and request time kept.
pub proof fn lemma_request_then_fulfill(requester: Identity, now: i64, random_value: [u8; 32])
    ensures
        ({
            let pending = fresh_vrf_record(requester, now);
            let done = fulfilled_vrf_record(pending, random_value);
            &&& pending.status == RandomnessStatus::Pending
            &&& is_zero_sentinel(pending.random_value@)
            &&& done.status == RandomnessStatus::Fulfilled
            &&& done.random_value == random_value
            &&& done.requester_key == requester
            &&& done.created_at == now
        }),
{
    assert(is_zero_sentinel(fresh_vrf_record(requester, now).random_value@)) by {
        let filled = vstd::array::spec_array_fill_for_copy_type::<u8, 32>(0u8);
        assert(forall|i: int| 0 <= i < 32 ==> filled.view()[i] == 0u8);
    }
}

} // verus!
