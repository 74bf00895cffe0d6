//! What holds of every stream and of every ledger, stated over the model and
//! proved.

use vstd::prelude::*;
use crate::engine::LedgerState;
use crate::stream::Stream;
use crate::types::{Principal, Settlement, StreamError, StreamStatus};

verus! {

/// Every step of a stream's life leads from a valid record to a valid record.
/// In particular the withdrawn amount stays between nothing and the deposit.
pub proof fn steps_keep_records_valid(s: Stream, now: u64)
    requires
        s.wf(),
    ensures
        s.pause_outcome(now) matches Ok(next) ==> next.wf(),
        s.resume_outcome(now) matches Ok(next) ==> next.wf(),
        s.withdraw_outcome(now) matches Ok(next) ==> next.0.wf(),
        s.cancel_outcome(now) matches Ok(next) ==> next.0.wf(),
{
    s.lemma_accrued_bounds(now);
}

/// In a valid ledger every stream has withdrawn at least nothing and at most
/// its deposit.
pub proof fn withdrawn_within_deposit(ledger: LedgerState, id: u64)
    requires
        ledger.wf(),
        ledger.records.contains_key(id),
    ensures
        0 <= ledger.records[id].withdrawn_amount <= ledger.records[id].deposit_amount,
{
}

/// While a stream is not paused, what has accrued never shrinks as time goes on.
pub proof fn accrued_never_shrinks(s: Stream, earlier: u64, later: u64)
    requires
        s.wf(),
        s.status != StreamStatus::Paused,
        earlier <= later,
    ensures
        s.accrued(earlier) <= s.accrued(later),
{
    s.lemma_accrued_bounds(earlier);
    s.lemma_accrued_bounds(later);
    assert(s.elapsed(earlier) * s.rate_per_second <= s.elapsed(later) * s.rate_per_second)
        by (nonlinear_arith)
        requires
            s.elapsed(earlier) <= s.elapsed(later),
            0 < s.rate_per_second,
    ;
}

/// While a stream is paused, what has accrued is the same at every time from
/// the pause on. Over all times it is the same at two of them exactly when both
/// lie on one side of the cliff, or nothing was frozen.
pub proof fn accrued_frozen_while_paused(s: Stream, t1: u64, t2: u64)
    requires
        s.wf(),
        s.status == StreamStatus::Paused,
    ensures
        s.paused_at <= t1 && s.paused_at <= t2 ==> s.accrued(t1) == s.accrued(t2),
        s.accrued(t1) == s.accrued(t2) <==> ((t1 < s.cliff_time) == (t2 < s.cliff_time)
            || s.accrued_at_pause == 0),
{
}

/// A pause freezes the amount that had accrued when it began.
pub proof fn pause_freezes_accrued(s: Stream, paused_at: u64, now: u64)
    requires
        s.wf(),
        s.pause_outcome(paused_at) is Ok,
        paused_at <= now,
    ensures
        s.pause_outcome(paused_at).unwrap().accrued(now) == s.accrued(paused_at),
{
    s.lemma_accrued_bounds(paused_at);
}

/// A pause delays the schedule by its length and changes nothing else: a
/// stream paused at `paused_at` and resumed at `resumed_at` has accrued at `now`
/// what it would have accrued, never paused, that many seconds before.
pub proof fn pause_delays_schedule(s: Stream, paused_at: u64, resumed_at: u64, now: u64)
    requires
        s.wf(),
        paused_at <= resumed_at <= now,
        s.pause_outcome(paused_at) is Ok,
        s.pause_outcome(paused_at).unwrap().resume_outcome(resumed_at) is Ok,
    ensures
        s.pause_outcome(paused_at).unwrap().resume_outcome(resumed_at).unwrap().accrued(now)
            == s.accrued((now - (resumed_at - paused_at)) as u64),
{
    let resumed = s.pause_outcome(paused_at).unwrap().resume_outcome(resumed_at).unwrap();
    let before = (now - (resumed_at - paused_at)) as u64;
    assert(resumed.elapsed(now) == s.elapsed(before));
}

/// A stream that has reached a final status has given out exactly its deposit:
/// what the recipient withdrew and what the sender got back add up to it.
pub proof fn terminal_stream_conserves_deposit(s: Stream)
    requires
        s.wf(),
        s.status.terminal(),
    ensures
        s.withdrawn_amount + s.refunded_amount == s.deposit_amount,
{
}

/// A cancellation splits what the stream still holds between the recipient and
/// the sender, to the last unit: both shares are at least nothing, and with what
/// was withdrawn before they add up to the deposit.
pub proof fn cancellation_conserves_deposit(s: Stream, now: u64)
    requires
        s.wf(),
        s.cancel_outcome(now) is Ok,
    ensures
        ({
            let (cancelled, paid) = s.cancel_outcome(now).unwrap();
            &&& cancelled.status == StreamStatus::Cancelled
            &&& 0 <= paid.due_to_recipient
            &&& 0 <= paid.refund_to_sender
            &&& s.withdrawn_amount + paid.due_to_recipient + paid.refund_to_sender
                == s.deposit_amount
            &&& cancelled.withdrawn_amount == s.withdrawn_amount + paid.due_to_recipient
            &&& cancelled.refunded_amount == paid.refund_to_sender
        }),
{
    s.lemma_accrued_bounds(now);
}

/// Where what has accrued is at least what was withdrawn, as it is whenever the
/// clock has not run backwards, a cancellation settles at the accrued amount:
/// the recipient gets the accrued amount less what was withdrawn, the sender the
/// deposit less the accrued amount.
pub proof fn cancellation_settles_at_accrued(s: Stream, now: u64)
    requires
        s.wf(),
        s.cancel_outcome(now) is Ok,
        s.accrued(now) >= s.withdrawn_amount,
    ensures
        ({
            let (cancelled, paid) = s.cancel_outcome(now).unwrap();
            &&& paid.due_to_recipient == s.accrued(now) - s.withdrawn_amount
            &&& paid.refund_to_sender == s.deposit_amount - s.accrued(now)
            &&& cancelled.withdrawn_amount == s.accrued(now)
        }),
{
    s.lemma_accrued_bounds(now);
}

/// A withdrawal pays more than nothing, adds what it pays to the withdrawn
/// amount, and completes the stream exactly when the whole deposit is paid.
pub proof fn withdrawal_pays_what_is_due(s: Stream, now: u64)
    requires
        s.wf(),
        s.withdraw_outcome(now) is Ok,
    ensures
        ({
            let (next, paid) = s.withdraw_outcome(now).unwrap();
            &&& 0 < paid
            &&& paid == s.accrued(now) - s.withdrawn_amount
            &&& next.withdrawn_amount == s.withdrawn_amount + paid
            &&& (next.status == StreamStatus::Completed) == (next.withdrawn_amount
                == s.deposit_amount)
        }),
{
    s.lemma_accrued_bounds(now);
}

/// In a valid record the amounts of every step fit: a pause, a withdrawal or a
/// cancellation is refused with `Overflow` only where the rate times the elapsed
/// seconds leaves 128 bits.
pub proof fn amounts_fit(s: Stream, now: u64)
    requires
        s.wf(),
        !s.overflows(now),
    ensures
        s.pause_outcome(now) != Err::<Stream, StreamError>(StreamError::Overflow),
        s.withdraw_outcome(now) != Err::<(Stream, i128), StreamError>(StreamError::Overflow),
        s.cancel_outcome(now) != Err::<(Stream, Settlement), StreamError>(StreamError::Overflow),
{
    s.lemma_accrued_bounds(now);
}

/// Before the cliff nothing has accrued, whatever the stream's status.
pub proof fn nothing_accrued_before_cliff(s: Stream, now: u64)
    requires
        now < s.cliff_time,
    ensures
        s.accrued(now) == 0,
        !s.overflows(now),
{
}

/// At the cliff, a stream whose cliff lies after its start has accrued more
/// than nothing, unless a pause froze it at nothing.
pub proof fn something_accrued_at_cliff(s: Stream)
    requires
        s.wf(),
        s.cliff_time > s.start_time,
        s.status == StreamStatus::Paused ==> s.accrued_at_pause > 0,
    ensures
        s.accrued(s.cliff_time) > 0,
{
    assert(s.elapsed(s.cliff_time) * s.rate_per_second > 0) by (nonlinear_arith)
        requires
            0 < s.elapsed(s.cliff_time),
            0 < s.rate_per_second,
    ;
}

/// Keeping a record under one identifier leaves the ledger valid, where the
/// record is valid and the identifier was issued, and leaves every other stream,
/// the configuration and the counter as they were.
pub proof fn keeping_a_record_touches_no_other(ledger: LedgerState, stream: Stream, other: u64)
    requires
        ledger.wf(),
        stream.wf(),
        1 <= stream.stream_id < ledger.next_id,
        other != stream.stream_id,
    ensures
        ledger.with_record(stream.stream_id, stream).wf(),
        ledger.with_record(stream.stream_id, stream).lookup(other) == ledger.lookup(other),
        ledger.with_record(stream.stream_id, stream).config == ledger.config,
        ledger.with_record(stream.stream_id, stream).next_id == ledger.next_id,
{
}

/// Payments are the host's to make: no operation of the ledger is refused with
/// `TransferFailed`.
pub proof fn ledger_reports_no_transfer_failure(
    ledger: LedgerState,
    caller: Principal,
    id: u64,
    now: u64,
)
    ensures
        ledger.pause_outcome(caller, id, now) != Err::<Stream, StreamError>(
            StreamError::TransferFailed,
        ),
        ledger.resume_outcome(caller, id, now) != Err::<Stream, StreamError>(
            StreamError::TransferFailed,
        ),
        ledger.withdraw_outcome(caller, id, now) != Err::<(Stream, i128), StreamError>(
            StreamError::TransferFailed,
        ),
        ledger.cancel_outcome(caller, id, now) != Err::<(Stream, Settlement), StreamError>(
            StreamError::TransferFailed,
        ),
        ledger.lookup(id) != Err::<Stream, StreamError>(StreamError::TransferFailed),
{
}

/// Identifiers are never reused: a valid ledger keeps nothing under the
/// identifier that it issues next, nor under any later one.
pub proof fn next_identifier_is_fresh(ledger: LedgerState, id: u64)
    requires
        ledger.wf(),
        id >= ledger.next_id,
    ensures
        !ledger.records.contains_key(id),
{
}

} // verus!
