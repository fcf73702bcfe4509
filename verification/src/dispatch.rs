//! The consumer dispatcher's per-record state machine.
//!
//! Each record moves through `Queued -> Delivering -> {Delivered, Dropped}`.
//! The dispatcher loop outside the library performs the sink call and the
//! backoff sleeps; the library decides every transition. Delivery is
//! best-effort: after `MAX_DELIVERY_ATTEMPTS` failed sink calls the record is
//! dropped and reported, never retried again. The terminal states absorb
//! every event, so a dropped record can never re-enter the queue.

use vstd::prelude::*;

verus! {

/// How many sink calls are attempted for one record before it is dropped.
pub const MAX_DELIVERY_ATTEMPTS: u32 = 3;

/// Where one record stands on its way to the sink. The attempt counts are
/// the sink calls already made for the record.
#[derive(Clone, Copy, Debug, PartialEq, Eq, Structural)]
pub enum DeliveryState {
    /// Buffered, not yet picked up by the dispatcher.
    Queued,
    /// Picked up; the given number of sink calls have failed so far.
    Delivering(u32),
    /// The sink acknowledged the record. Terminal.
    Delivered,
    /// Every attempt failed; the record was given up after the given number
    /// of sink calls. Terminal.
    Dropped(u32),
}

/// One sink call's outcome, handed back by the dispatcher loop.
#[derive(Clone, Copy, Debug, PartialEq, Eq, Structural)]
pub enum SinkResult {
    /// The sink acknowledged the record.
    Ack,
    /// The sink failed or timed out for this attempt.
    Failed,
}

/// What the dispatcher loop must do next for a record in a given state.
#[derive(Clone, Copy, Debug, PartialEq, Eq, Structural)]
pub enum DispatchAction {
    /// Call the sink (with the per-attempt timeout) and report the result.
    Attempt,
    /// The record is delivered; nothing more to do.
    Done,
    /// The record was dropped; emit the observability event with the
    /// attempt count, then nothing more to do.
    Report(u32),
}

/// A state the machine can actually reach: while delivering, fewer than the
/// maximum attempts have failed; a dropped record spent exactly the maximum.
pub open spec fn state_wf(s: DeliveryState) -> bool {
    match s {
        DeliveryState::Delivering(n) => n < MAX_DELIVERY_ATTEMPTS,
        DeliveryState::Dropped(n) => n == MAX_DELIVERY_ATTEMPTS,
        _ => true,
    }
}

/// A state that no event leaves: the record's fate is settled.
pub open spec fn is_terminal(s: DeliveryState) -> bool {
    s is Delivered || s is Dropped
}

/// The transition relation: a sink result moves a delivering record to
/// `Delivered` on acknowledgment, to another attempt while attempts remain,
/// and to `Dropped` when they are exhausted; every other state ignores it.
pub open spec fn next_state(s: DeliveryState, r: SinkResult) -> DeliveryState {
    match s {
        DeliveryState::Delivering(n) => match r {
            SinkResult::Ack => DeliveryState::Delivered,
            SinkResult::Failed => {
                if n + 1 < MAX_DELIVERY_ATTEMPTS {
                    DeliveryState::Delivering((n + 1) as u32)
                } else {
                    DeliveryState::Dropped(MAX_DELIVERY_ATTEMPTS)
                }
            },
        },
        _ => s,
    }
}

/// The dispatcher picked the record up from the queue: delivery begins with
/// no failed attempts yet.
pub fn begin_delivery(s: DeliveryState) -> (next: DeliveryState)
    requires
        s is Queued,
    ensures
        next == DeliveryState::Delivering(0u32),
        state_wf(next),
{
    DeliveryState::Delivering(0)
}

/// Advance a record's state by one sink result, as `next_state` says.
pub fn dispatch_step(s: DeliveryState, r: SinkResult) -> (next: DeliveryState)
    requires
        state_wf(s),
    ensures
        next == next_state(s, r),
        state_wf(next),
{
    match s {
        DeliveryState::Delivering(n) => match r {
            SinkResult::Ack => DeliveryState::Delivered,
            SinkResult::Failed => {
                if n + 1 < MAX_DELIVERY_ATTEMPTS {
                    DeliveryState::Delivering(n + 1)
                } else {
                    DeliveryState::Dropped(MAX_DELIVERY_ATTEMPTS)
                }
            },
        },
        other => other,
    }
}

/// What the dispatcher loop must do for a record in a given state.
pub fn next_action(s: &DeliveryState) -> (a: DispatchAction)
    ensures
        a == match *s {
            DeliveryState::Delivered => DispatchAction::Done,
            DeliveryState::Dropped(n) => DispatchAction::Report(n),
            _ => DispatchAction::Attempt,
        },
{
    match s {
        DeliveryState::Delivered => DispatchAction::Done,
        DeliveryState::Dropped(n) => DispatchAction::Report(*n),
        _ => DispatchAction::Attempt,
    }
}

/// The pause before the first retry, in milliseconds.
pub const RETRY_BASE_MILLIS: u64 = 100;

/// The retry backoff is exponential: the pause doubles with every further
/// failed attempt, starting from `RETRY_BASE_MILLIS`.
pub open spec fn backoff_millis_model(failed_attempts: u32) -> int
    decreases failed_attempts,
{
    if failed_attempts <= 1 {
        RETRY_BASE_MILLIS as int
    } else {
        2 * backoff_millis_model((failed_attempts - 1) as u32)
    }
}

/// How long the dispatcher pauses before the next sink call, after the given
/// number of failed attempts on a record that is still being delivered.
pub fn backoff_millis(failed_attempts: u32) -> (ms: u64)
    requires
        0 < failed_attempts < MAX_DELIVERY_ATTEMPTS,
    ensures
        ms == backoff_millis_model(failed_attempts),
{
    proof {
        reveal_with_fuel(backoff_millis_model, 4);
    }
    if failed_attempts == 1 {
        RETRY_BASE_MILLIS
    } else {
        2 * RETRY_BASE_MILLIS
    }
}

/// The terminal states are absorbing: once a record is delivered or dropped,
/// no sink result changes its state — in particular, nothing ever moves it
/// back to `Queued`.
pub proof fn lemma_terminal_absorbing(s: DeliveryState, r: SinkResult)
    requires
        is_terminal(s),
    ensures
        next_state(s, r) == s,
{
}

/// The retry policy is bounded: from any reachable state, a transition stays
/// reachable, never records more than `MAX_DELIVERY_ATTEMPTS` sink calls, and
/// only ever re-enters `Queued` if it never left it.
pub proof fn lemma_bounded_retries(s: DeliveryState, r: SinkResult)
    requires
        state_wf(s),
    ensures
        state_wf(next_state(s, r)),
        !(next_state(s, r) is Queued) || s is Queued,
        match next_state(s, r) {
            DeliveryState::Delivering(n) => n <= MAX_DELIVERY_ATTEMPTS,
            DeliveryState::Dropped(n) => n <= MAX_DELIVERY_ATTEMPTS,
            _ => true,
        },
{
}

} // verus!
