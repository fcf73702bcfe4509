//! The ingestion endpoint's decision.
//!
//! `ingest` is the synchronous part of accepting one payload: validate it,
//! and on success try to enqueue the decoded record. The outcome is the
//! acknowledgment owed to the caller, and doubles as the observability event
//! for the payload: accepted, rejected with the reason, or refused under
//! backpressure. The HTTP layer outside the library maps each outcome to its
//! response status through `status_code` and never blocks on downstream
//! delivery: enqueueing is the only step after validation.

use vstd::prelude::*;

use crate::queue::DeliveryQueue;
use crate::queue::enqueue_model;
use crate::record::RawRecord;
use crate::record::record_decodes;
use crate::validate::ValidationError;
use crate::validate::first_error;
use crate::validate::validate;

verus! {

/// The synchronous acknowledgment for one submitted payload.
#[derive(Clone, Copy, Debug, PartialEq, Eq, Structural)]
pub enum IngestOutcome {
    /// The record passed validation and was buffered for delivery. This is
    /// the durability boundary as the caller perceives it: delivery to the
    /// sink is asynchronous and best-effort from here on.
    Accepted,
    /// The payload violated the schema; the record was never queued.
    Rejected(ValidationError),
    /// The payload was valid but the queue is saturated; the record was
    /// dropped and the caller should retry later.
    Backpressure,
}

/// Accept one decoded payload: validate it, and on success enqueue the
/// record. A rejected or refused payload leaves the queue unchanged; an
/// accepted record is appended behind the records already buffered.
pub fn ingest(raw: &RawRecord, queue: &mut DeliveryQueue) -> (out: IngestOutcome)
    requires
        old(queue).wf(),
    ensures
        final(queue).wf(),
        final(queue).spec_capacity() == old(queue).spec_capacity(),
        match out {
            IngestOutcome::Rejected(e) => first_error(*raw) == Some(e) && final(queue)@ == old(
                queue,
            )@,
            IngestOutcome::Accepted => {
                &&& first_error(*raw) is None
                &&& old(queue)@.len() < old(queue).spec_capacity()
                &&& final(queue)@.len() == old(queue)@.len() + 1
                &&& final(queue)@.subrange(0, old(queue)@.len() as int) == old(queue)@
                &&& record_decodes(*raw, final(queue)@.last())
            },
            IngestOutcome::Backpressure => {
                &&& first_error(*raw) is None
                &&& old(queue)@.len() >= old(queue).spec_capacity()
                &&& final(queue)@ == old(queue)@
            },
        },
{
    match validate(raw) {
        Err(e) => IngestOutcome::Rejected(e),
        Ok(rec) => {
            let ghost before = queue@;
            let ghost cap = queue.spec_capacity();
            let ghost record = rec;
            match queue.try_enqueue(rec) {
                Ok(()) => {
                    proof {
                        assert(queue@ == enqueue_model(before, cap, record));
                        assert(queue@.subrange(0, before.len() as int) =~= before);
                    }
                    IngestOutcome::Accepted
                },
                Err(_) => IngestOutcome::Backpressure,
            }
        },
    }
}

/// The HTTP status for each ingestion outcome: 202 for an accepted record,
/// 400 for a schema violation, 429 for backpressure.
pub fn status_code(out: &IngestOutcome) -> (code: u16)
    ensures
        code == match out {
            IngestOutcome::Accepted => 202u16,
            IngestOutcome::Rejected(_) => 400u16,
            IngestOutcome::Backpressure => 429u16,
        },
{
    match out {
        IngestOutcome::Accepted => 202,
        IngestOutcome::Rejected(_) => 400,
        IngestOutcome::Backpressure => 429,
    }
}

} // verus!
