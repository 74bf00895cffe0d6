//! One stream: its record, what has accrued at a given time, and the steps of
//! its life as functions from a record to the next one.

use vstd::prelude::*;
use crate::types::{Principal, Settlement, StreamError, StreamStatus};

verus! {

/// A streaming agreement.
#[derive(Clone, Copy, Debug, PartialEq, Eq, Structural)]
pub struct Stream {
    pub stream_id: u64,
    pub sender: Principal,
    pub recipient: Principal,
    /// The amount locked when the stream was opened.
    pub deposit_amount: i128,
    pub rate_per_second: i128,
    pub start_time: u64,
    pub cliff_time: u64,
    pub end_time: u64,
    /// Paid to the recipient so far.
    pub withdrawn_amount: i128,
    /// Returned to the sender by a cancellation.
    pub refunded_amount: i128,
    /// When the running pause began; 0 while not paused.
    pub paused_at: u64,
    /// The accrued amount that the running pause froze; 0 while not paused.
    pub accrued_at_pause: i128,
    pub status: StreamStatus,
}

impl Stream {
    /// The amounts and times that a new stream may have.
    pub open spec fn valid_parameters(
        deposit_amount: i128,
        rate_per_second: i128,
        start_time: u64,
        cliff_time: u64,
        end_time: u64,
    ) -> bool {
        &&& deposit_amount > 0
        &&& rate_per_second > 0
        &&& start_time <= cliff_time
        &&& cliff_time <= end_time
    }

    /// What holds of every record that the ledger keeps.
    pub open spec fn wf(self) -> bool {
        &&& Self::valid_parameters(
            self.deposit_amount,
            self.rate_per_second,
            self.start_time,
            self.cliff_time,
            self.end_time,
        )
        &&& 0 <= self.withdrawn_amount <= self.deposit_amount
        &&& 0 <= self.refunded_amount
        &&& (self.status.terminal() ==> self.withdrawn_amount + self.refunded_amount
            == self.deposit_amount)
        &&& (!self.status.terminal() ==> self.refunded_amount == 0)
        &&& (self.status == StreamStatus::Completed ==> self.refunded_amount == 0)
        &&& (self.status == StreamStatus::Paused ==> {
            &&& 0 <= self.accrued_at_pause <= self.deposit_amount
            &&& (self.paused_at < self.cliff_time ==> self.accrued_at_pause == 0)
        })
    }

    /// Whole seconds of the schedule that have passed at `now`: from the start to
    /// `now`, or to the end where `now` lies beyond it.
    pub open spec fn elapsed(self, now: u64) -> int {
        let until = if now < self.end_time { now } else { self.end_time };
        if until > self.start_time { until - self.start_time } else { 0 }
    }

    /// What the rate has unlocked at `now`, before the deposit caps it.
    pub open spec fn unlocked(self, now: u64) -> int {
        self.elapsed(now) * self.rate_per_second
    }

    /// The accrued amount at `now`: nothing before the cliff, the frozen amount
    /// while paused, else what the rate has unlocked, at most the deposit.
    pub open spec fn accrued(self, now: u64) -> int {
        if now < self.cliff_time {
            0
        } else if self.status == StreamStatus::Paused {
            self.accrued_at_pause as int
        } else if self.unlocked(now) < self.deposit_amount {
            self.unlocked(now)
        } else {
            self.deposit_amount as int
        }
    }

    /// The accrued amount at `now` cannot be computed in 128 bits.
    pub open spec fn overflows(self, now: u64) -> bool {
        &&& now >= self.cliff_time
        &&& self.status != StreamStatus::Paused
        &&& !(i128::MIN <= self.unlocked(now) <= i128::MAX)
    }

    /// The record of a new stream, or why there is none.
    pub open spec fn open_outcome(
        stream_id: u64,
        sender: Principal,
        recipient: Principal,
        deposit_amount: i128,
        rate_per_second: i128,
        start_time: u64,
        cliff_time: u64,
        end_time: u64,
    ) -> Result<Stream, StreamError> {
        if Self::valid_parameters(deposit_amount, rate_per_second, start_time, cliff_time, end_time) {
            Ok(
                Stream {
                    stream_id,
                    sender,
                    recipient,
                    deposit_amount,
                    rate_per_second,
                    start_time,
                    cliff_time,
                    end_time,
                    withdrawn_amount: 0,
                    refunded_amount: 0,
                    paused_at: 0,
                    accrued_at_pause: 0,
                    status: StreamStatus::Active,
                },
            )
        } else {
            Err(StreamError::InvalidParameters)
        }
    }

    /// The record after a pause at `now`, or why it is refused.
    pub open spec fn pause_outcome(self, now: u64) -> Result<Stream, StreamError> {
        if self.status != StreamStatus::Active {
            Err(StreamError::InvalidState)
        } else if self.overflows(now) {
            Err(StreamError::Overflow)
        } else {
            Ok(
                Stream {
                    status: StreamStatus::Paused,
                    paused_at: now,
                    accrued_at_pause: self.accrued(now) as i128,
                    ..self
                },
            )
        }
    }

    /// How long the running pause has lasted at `now`.
    pub open spec fn pause_length(self, now: u64) -> int {
        if now > self.paused_at { now - self.paused_at } else { 0 }
    }

    /// The record after a resume at `now`, or why it is refused. The whole
    /// schedule moves forward by the length of the pause, so the paused seconds
    /// unlock nothing.
    pub open spec fn resume_outcome(self, now: u64) -> Result<Stream, StreamError> {
        let shift = self.pause_length(now);
        if self.status != StreamStatus::Paused {
            Err(StreamError::InvalidState)
        } else if self.start_time + shift > u64::MAX || self.cliff_time + shift > u64::MAX
            || self.end_time + shift > u64::MAX {
            Err(StreamError::Overflow)
        } else {
            Ok(
                Stream {
                    status: StreamStatus::Active,
                    start_time: (self.start_time + shift) as u64,
                    cliff_time: (self.cliff_time + shift) as u64,
                    end_time: (self.end_time + shift) as u64,
                    paused_at: 0,
                    accrued_at_pause: 0,
                    ..self
                },
            )
        }
    }

    /// The record after a withdrawal at `now` with the amount paid, or why it is
    /// refused.
    pub open spec fn withdraw_outcome(self, now: u64) -> Result<(Stream, i128), StreamError> {
        if self.status.terminal() {
            Err(StreamError::InvalidState)
        } else if self.overflows(now) {
            Err(StreamError::Overflow)
        } else if self.accrued(now) <= self.withdrawn_amount {
            Err(StreamError::NothingDue)
        } else if self.accrued(now) - self.withdrawn_amount > i128::MAX {
            Err(StreamError::Overflow)
        } else {
            Ok(
                (
                    Stream {
                        withdrawn_amount: self.accrued(now) as i128,
                        status: if self.accrued(now) == self.deposit_amount {
                            StreamStatus::Completed
                        } else {
                            self.status
                        },
                        ..self
                    },
                    (self.accrued(now) - self.withdrawn_amount) as i128,
                ),
            )
        }
    }

    /// The amount at which a cancellation at `now` settles: what has accrued, and
    /// never less than what was already paid.
    pub open spec fn settled(self, now: u64) -> int {
        if self.accrued(now) > self.withdrawn_amount {
            self.accrued(now)
        } else {
            self.withdrawn_amount as int
        }
    }

    /// The record after a cancellation at `now` with what it pays out, or why it
    /// is refused.
    pub open spec fn cancel_outcome(self, now: u64) -> Result<(Stream, Settlement), StreamError> {
        if self.status.terminal() {
            Err(StreamError::InvalidState)
        } else if self.overflows(now) {
            Err(StreamError::Overflow)
        } else if !(i128::MIN <= self.settled(now) - self.withdrawn_amount <= i128::MAX) || !(
        i128::MIN <= self.deposit_amount - self.settled(now) <= i128::MAX) {
            Err(StreamError::Overflow)
        } else {
            Ok(
                (
                    Stream {
                        withdrawn_amount: self.settled(now) as i128,
                        refunded_amount: (self.deposit_amount - self.settled(now)) as i128,
                        status: StreamStatus::Cancelled,
                        ..self
                    },
                    Settlement {
                        due_to_recipient: (self.settled(now) - self.withdrawn_amount) as i128,
                        refund_to_sender: (self.deposit_amount - self.settled(now)) as i128,
                    },
                ),
            )
        }
    }

    /// The rate unlocks nothing negative, and the accrued amount of a valid
    /// record lies between nothing and the deposit.
    pub proof fn lemma_accrued_bounds(self, now: u64)
        requires
            self.wf(),
        ensures
            0 <= self.unlocked(now),
            0 <= self.accrued(now) <= self.deposit_amount,
    {
        assert(0 <= self.elapsed(now) * self.rate_per_second) by (nonlinear_arith)
            requires
                0 <= self.elapsed(now),
                0 < self.rate_per_second,
        ;
    }

    /// Whether the record is one that the ledger may keep.
    pub fn is_valid(&self) -> (r: bool)
        ensures
            r == self.wf(),
    {
        if self.deposit_amount <= 0 || self.rate_per_second <= 0 || self.start_time
            > self.cliff_time || self.cliff_time > self.end_time {
            return false;
        }
        if self.withdrawn_amount < 0 || self.withdrawn_amount > self.deposit_amount
            || self.refunded_amount < 0 {
            return false;
        }
        match self.status {
            StreamStatus::Active => self.refunded_amount == 0,
            StreamStatus::Paused => self.refunded_amount == 0 && 0 <= self.accrued_at_pause
                && self.accrued_at_pause <= self.deposit_amount && (self.paused_at
                >= self.cliff_time || self.accrued_at_pause == 0),
            StreamStatus::Completed => self.refunded_amount == 0 && self.withdrawn_amount
                == self.deposit_amount,
            StreamStatus::Cancelled => self.refunded_amount == self.deposit_amount
                - self.withdrawn_amount,
        }
    }

    /// Opens a stream: `Active`, with nothing withdrawn.
    pub fn open(
        stream_id: u64,
        sender: Principal,
        recipient: Principal,
        deposit_amount: i128,
        rate_per_second: i128,
        start_time: u64,
        cliff_time: u64,
        end_time: u64,
    ) -> (r: Result<Stream, StreamError>)
        ensures
            r == Self::open_outcome(
                stream_id,
                sender,
                recipient,
                deposit_amount,
                rate_per_second,
                start_time,
                cliff_time,
                end_time,
            ),
            r matches Ok(s) ==> s.wf(),
    {
        if deposit_amount <= 0 || rate_per_second <= 0 || start_time > cliff_time || cliff_time
            > end_time {
            return Err(StreamError::InvalidParameters);
        }
        Ok(
            Stream {
                stream_id,
                sender,
                recipient,
                deposit_amount,
                rate_per_second,
                start_time,
                cliff_time,
                end_time,
                withdrawn_amount: 0,
                refunded_amount: 0,
                paused_at: 0,
                accrued_at_pause: 0,
                status: StreamStatus::Active,
            },
        )
    }

    /// The accrued amount at `now`, or `Overflow` where the rate times the
    /// elapsed seconds does not fit in 128 bits.
    pub fn accrued_at(&self, now: u64) -> (r: Result<i128, StreamError>)
        ensures
            match r {
                Ok(amount) => !self.overflows(now) && amount == self.accrued(now),
                Err(e) => self.overflows(now) && e == StreamError::Overflow,
            },
    {
        if now < self.cliff_time {
            return Ok(0);
        }
        if self.status == StreamStatus::Paused {
            return Ok(self.accrued_at_pause);
        }
        let until: u64 = if now < self.end_time { now } else { self.end_time };
        let elapsed: u64 = if until > self.start_time { until - self.start_time } else { 0 };
        match (elapsed as i128).checked_mul(self.rate_per_second) {
            None => Err(StreamError::Overflow),
            Some(unlocked) => if unlocked < self.deposit_amount {
                Ok(unlocked)
            } else {
                Ok(self.deposit_amount)
            },
        }
    }

    /// Pauses an active stream at `now`, freezing what has accrued.
    pub fn pause(&self, now: u64) -> (r: Result<Stream, StreamError>)
        ensures
            r == self.pause_outcome(now),
            self.wf() ==> (r matches Ok(s) ==> s.wf()),
    {
        if self.status != StreamStatus::Active {
            return Err(StreamError::InvalidState);
        }
        let accrued: i128 = match self.accrued_at(now) {
            Ok(a) => a,
            Err(e) => { return Err(e); },
        };
        proof {
            if self.wf() {
                self.lemma_accrued_bounds(now);
            }
        }
        Ok(
            Stream {
                stream_id: self.stream_id,
                sender: self.sender,
                recipient: self.recipient,
                deposit_amount: self.deposit_amount,
                rate_per_second: self.rate_per_second,
                start_time: self.start_time,
                cliff_time: self.cliff_time,
                end_time: self.end_time,
                withdrawn_amount: self.withdrawn_amount,
                refunded_amount: self.refunded_amount,
                paused_at: now,
                accrued_at_pause: accrued,
                status: StreamStatus::Paused,
            },
        )
    }

    /// Resumes a paused stream at `now`.
    pub fn resume(&self, now: u64) -> (r: Result<Stream, StreamError>)
        ensures
            r == self.resume_outcome(now),
            self.wf() ==> (r matches Ok(s) ==> s.wf()),
    {
        if self.status != StreamStatus::Paused {
            return Err(StreamError::InvalidState);
        }
        let shift: u64 = if now > self.paused_at { now - self.paused_at } else { 0 };
        let start_time: u64 = match self.start_time.checked_add(shift) {
            Some(t) => t,
            None => { return Err(StreamError::Overflow); },
        };
        let cliff_time: u64 = match self.cliff_time.checked_add(shift) {
            Some(t) => t,
            None => { return Err(StreamError::Overflow); },
        };
        let end_time: u64 = match self.end_time.checked_add(shift) {
            Some(t) => t,
            None => { return Err(StreamError::Overflow); },
        };
        Ok(
            Stream {
                stream_id: self.stream_id,
                sender: self.sender,
                recipient: self.recipient,
                deposit_amount: self.deposit_amount,
                rate_per_second: self.rate_per_second,
                start_time,
                cliff_time,
                end_time,
                withdrawn_amount: self.withdrawn_amount,
                refunded_amount: self.refunded_amount,
                paused_at: 0,
                accrued_at_pause: 0,
                status: StreamStatus::Active,
            },
        )
    }

    /// Withdraws at `now` all that has accrued and was not yet paid. The stream is
    /// completed once the whole deposit is paid.
    pub fn withdraw(&self, now: u64) -> (r: Result<(Stream, i128), StreamError>)
        ensures
            r == self.withdraw_outcome(now),
            self.wf() ==> (r matches Ok(p) ==> p.0.wf() && 0 < p.1 && p.0.withdrawn_amount
                == self.withdrawn_amount + p.1),
            self.wf() && r == Err::<(Stream, i128), StreamError>(StreamError::Overflow)
                ==> self.overflows(now),
    {
        if self.status.is_terminal() {
            return Err(StreamError::InvalidState);
        }
        let accrued: i128 = match self.accrued_at(now) {
            Ok(a) => a,
            Err(e) => { return Err(e); },
        };
        if accrued <= self.withdrawn_amount {
            return Err(StreamError::NothingDue);
        }
        let payable: i128 = match accrued.checked_sub(self.withdrawn_amount) {
            Some(p) => p,
            None => { return Err(StreamError::Overflow); },
        };
        proof {
            if self.wf() {
                self.lemma_accrued_bounds(now);
            }
        }
        let status = if accrued == self.deposit_amount {
            StreamStatus::Completed
        } else {
            self.status
        };
        Ok(
            (
                Stream {
                    stream_id: self.stream_id,
                    sender: self.sender,
                    recipient: self.recipient,
                    deposit_amount: self.deposit_amount,
                    rate_per_second: self.rate_per_second,
                    start_time: self.start_time,
                    cliff_time: self.cliff_time,
                    end_time: self.end_time,
                    withdrawn_amount: accrued,
                    refunded_amount: self.refunded_amount,
                    paused_at: self.paused_at,
                    accrued_at_pause: self.accrued_at_pause,
                    status,
                },
                payable,
            ),
        )
    }

    /// Cancels the stream at `now`: what has accrued and was not yet paid goes to
    /// the recipient, the rest of the deposit back to the sender.
    pub fn cancel(&self, now: u64) -> (r: Result<(Stream, Settlement), StreamError>)
        ensures
            r == self.cancel_outcome(now),
            self.wf() ==> (r matches Ok(p) ==> {
                &&& p.0.wf()
                &&& 0 <= p.1.due_to_recipient
                &&& 0 <= p.1.refund_to_sender
                &&& self.withdrawn_amount + p.1.due_to_recipient + p.1.refund_to_sender
                    == self.deposit_amount
            }),
            self.wf() && r == Err::<(Stream, Settlement), StreamError>(StreamError::Overflow)
                ==> self.overflows(now),
    {
        if self.status.is_terminal() {
            return Err(StreamError::InvalidState);
        }
        let accrued: i128 = match self.accrued_at(now) {
            Ok(a) => a,
            Err(e) => { return Err(e); },
        };
        proof {
            if self.wf() {
                self.lemma_accrued_bounds(now);
            }
        }
        let settled: i128 = if accrued > self.withdrawn_amount {
            accrued
        } else {
            self.withdrawn_amount
        };
        let due_to_recipient: i128 = match settled.checked_sub(self.withdrawn_amount) {
            Some(d) => d,
            None => { return Err(StreamError::Overflow); },
        };
        let refund_to_sender: i128 = match self.deposit_amount.checked_sub(settled) {
            Some(d) => d,
            None => { return Err(StreamError::Overflow); },
        };
        Ok(
            (
                Stream {
                    stream_id: self.stream_id,
                    sender: self.sender,
                    recipient: self.recipient,
                    deposit_amount: self.deposit_amount,
                    rate_per_second: self.rate_per_second,
                    start_time: self.start_time,
                    cliff_time: self.cliff_time,
                    end_time: self.end_time,
                    withdrawn_amount: settled,
                    refunded_amount: refund_to_sender,
                    paused_at: self.paused_at,
                    accrued_at_pause: self.accrued_at_pause,
                    status: StreamStatus::Cancelled,
                },
                Settlement { due_to_recipient, refund_to_sender },
            ),
        )
    }
}

} // verus!
