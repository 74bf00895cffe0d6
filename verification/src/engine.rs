//! The ledger: every operation looks the stream up, checks the caller and the
//! status, computes the amounts, and keeps the new record. An operation that is
//! refused leaves the ledger as it was.

use vstd::prelude::*;
use crate::store::StreamStore;
use crate::stream::Stream;
use crate::types::{Config, DataKey, Principal, Settlement, StreamError};

verus! {

/// The ledger as a mathematical value.
pub struct LedgerState {
    pub config: Option<Config>,
    pub next_id: u64,
    pub records: Map<u64, Stream>,
}

impl LedgerState {
    /// The state with `stream` kept under `id`.
    pub open spec fn with_record(self, id: u64, stream: Stream) -> LedgerState {
        LedgerState { records: self.records.insert(id, stream), ..self }
    }

    /// The record under `id`, or `NotFound`.
    pub open spec fn lookup(self, id: u64) -> Result<Stream, StreamError> {
        if self.records.contains_key(id) {
            Ok(self.records[id])
        } else {
            Err(StreamError::NotFound)
        }
    }

    /// The sender of a stream manages it, and so does the admin once one is set.
    pub open spec fn may_manage(self, caller: Principal, stream: Stream) -> bool {
        caller == stream.sender || match self.config {
            Some(c) => c.admin == caller,
            None => false,
        }
    }

    /// Identifiers are issued from 1 upward and never twice, each record is kept
    /// under its own identifier, and each record is valid.
    pub open spec fn wf(self) -> bool {
        &&& self.next_id >= 1
        &&& forall|id: u64| #[trigger]
            self.records.contains_key(id) ==> {
                &&& 1 <= id < self.next_id
                &&& self.records[id].stream_id == id
                &&& self.records[id].wf()
            }
    }

    /// What `create_stream` answers: the new identifier, or why none is issued.
    pub open spec fn create_outcome(
        self,
        caller: Principal,
        sender: Principal,
        recipient: Principal,
        deposit_amount: i128,
        rate_per_second: i128,
        start_time: u64,
        cliff_time: u64,
        end_time: u64,
    ) -> Result<Stream, StreamError> {
        if caller != sender {
            Err(StreamError::Unauthorized)
        } else if !Stream::valid_parameters(
            deposit_amount,
            rate_per_second,
            start_time,
            cliff_time,
            end_time,
        ) {
            Err(StreamError::InvalidParameters)
        } else if self.next_id == u64::MAX {
            Err(StreamError::Overflow)
        } else {
            Stream::open_outcome(
                self.next_id,
                sender,
                recipient,
                deposit_amount,
                rate_per_second,
                start_time,
                cliff_time,
                end_time,
            )
        }
    }

    /// The record after `caller` pauses stream `id` at `now`, or the refusal.
    pub open spec fn pause_outcome(self, caller: Principal, id: u64, now: u64) -> Result<
        Stream,
        StreamError,
    > {
        match self.lookup(id) {
            Err(e) => Err(e),
            Ok(s) => if self.may_manage(caller, s) {
                s.pause_outcome(now)
            } else {
                Err(StreamError::Unauthorized)
            },
        }
    }

    /// The record after `caller` resumes stream `id` at `now`, or the refusal.
    pub open spec fn resume_outcome(self, caller: Principal, id: u64, now: u64) -> Result<
        Stream,
        StreamError,
    > {
        match self.lookup(id) {
            Err(e) => Err(e),
            Ok(s) => if self.may_manage(caller, s) {
                s.resume_outcome(now)
            } else {
                Err(StreamError::Unauthorized)
            },
        }
    }

    /// The record and the payout after `caller` cancels stream `id` at `now`, or
    /// the refusal.
    pub open spec fn cancel_outcome(self, caller: Principal, id: u64, now: u64) -> Result<
        (Stream, Settlement),
        StreamError,
    > {
        match self.lookup(id) {
            Err(e) => Err(e),
            Ok(s) => if self.may_manage(caller, s) {
                s.cancel_outcome(now)
            } else {
                Err(StreamError::Unauthorized)
            },
        }
    }

    /// The record and the amount paid after `caller` withdraws from stream `id`
    /// at `now`, or the refusal. Only the recipient withdraws.
    pub open spec fn withdraw_outcome(self, caller: Principal, id: u64, now: u64) -> Result<
        (Stream, i128),
        StreamError,
    > {
        match self.lookup(id) {
            Err(e) => Err(e),
            Ok(s) => if caller == s.recipient {
                s.withdraw_outcome(now)
            } else {
                Err(StreamError::Unauthorized)
            },
        }
    }
}

/// The payment-streaming ledger.
pub struct FluxoraStream {
    store: StreamStore,
}

impl View for FluxoraStream {
    type V = LedgerState;

    closed spec fn view(&self) -> LedgerState {
        LedgerState {
            config: self.store.config(),
            next_id: self.store.next_id(),
            records: self.store.records(),
        }
    }
}

impl FluxoraStream {
    /// The ledger's invariant.
    pub open spec fn wf(self) -> bool {
        self@.wf()
    }

    /// A ledger that was not set up yet and holds no stream.
    pub fn new() -> (ledger: FluxoraStream)
        ensures
            ledger.wf(),
            ledger@ == (LedgerState {
                config: None,
                next_id: 1,
                records: Map::<u64, Stream>::empty(),
            }),
    {
        FluxoraStream { store: StreamStore::new() }
    }

    /// A ledger without streams, with the configuration and the counter that a
    /// host has kept. A counter of 0 was never issued and is refused.
    pub fn restore(config: Option<Config>, next_stream_id: u64) -> (r: Result<
        FluxoraStream,
        StreamError,
    >)
        ensures
            match r {
                Ok(ledger) => {
                    &&& next_stream_id >= 1
                    &&& ledger.wf()
                    &&& ledger@ == (LedgerState {
                        config,
                        next_id: next_stream_id,
                        records: Map::<u64, Stream>::empty(),
                    })
                },
                Err(e) => next_stream_id == 0 && e == StreamError::InvalidParameters,
            },
    {
        if next_stream_id == 0 {
            return Err(StreamError::InvalidParameters);
        }
        Ok(FluxoraStream { store: StreamStore::restore(config, next_stream_id) })
    }

    /// Whether the ledger may take `stream` over: a valid record under an
    /// identifier that was issued.
    pub open spec fn admits(self, stream: Stream) -> bool {
        stream.wf() && 1 <= stream.stream_id < self@.next_id
    }

    /// Takes over a record that a host has kept, under the record's own
    /// identifier. A record that the ledger could not have written is refused
    /// with `InvalidParameters`.
    pub fn load_stream(&mut self, stream: Stream) -> (r: Result<(), StreamError>)
        requires
            old(self).wf(),
        ensures
            final(self).wf(),
            old(self).admits(stream) ==> {
                &&& r == Ok::<(), StreamError>(())
                &&& final(self)@ == old(self)@.with_record(stream.stream_id, stream)
            },
            !old(self).admits(stream) ==> {
                &&& r == Err::<(), StreamError>(StreamError::InvalidParameters)
                &&& final(self)@ == old(self)@
            },
    {
        if !stream.is_valid() || stream.stream_id < 1 || stream.stream_id
            >= self.store.peek_id() {
            return Err(StreamError::InvalidParameters);
        }
        self.store.put(stream.stream_id, stream);
        Ok(())
    }

    /// The identifier that the next stream gets.
    pub fn next_stream_id(&self) -> (r: u64)
        ensures
            r == self@.next_id,
    {
        self.store.peek_id()
    }

    /// Sets the ledger up, once: fixes the token and the admin.
    pub fn init(&mut self, token: Principal, admin: Principal) -> (r: Result<(), StreamError>)
        ensures
            old(self).wf() ==> final(self).wf(),
            old(self)@.config.is_some() ==> {
                &&& r == Err::<(), StreamError>(StreamError::AlreadyInitialized)
                &&& final(self)@ == old(self)@
            },
            old(self)@.config.is_none() ==> {
                &&& r == Ok::<(), StreamError>(())
                &&& final(self)@ == (LedgerState {
                    config: Some(Config { token, admin }),
                    ..old(self)@
                })
            },
    {
        if self.store.has(&DataKey::Config) {
            return Err(StreamError::AlreadyInitialized);
        }
        self.store.put_config(Config { token, admin });
        Ok(())
    }

    /// The configuration, once the ledger was set up.
    pub fn get_config(&self) -> (r: Option<Config>)
        ensures
            r == self@.config,
    {
        self.store.get_config()
    }

    /// Whether `caller` may pause, resume and cancel `stream`.
    fn manages(&self, caller: Principal, stream: &Stream) -> (r: bool)
        ensures
            r == self@.may_manage(caller, *stream),
    {
        if caller == stream.sender {
            return true;
        }
        match self.store.get_config() {
            Some(c) => c.admin == caller,
            None => false,
        }
    }

    /// Opens a stream for `sender`, who must be the caller, and answers with its
    /// identifier. The host debits the deposit from the sender.
    pub fn create_stream(
        &mut self,
        caller: Principal,
        sender: Principal,
        recipient: Principal,
        deposit_amount: i128,
        rate_per_second: i128,
        start_time: u64,
        cliff_time: u64,
        end_time: u64,
    ) -> (r: Result<u64, StreamError>)
        requires
            old(self).wf(),
        ensures
            final(self).wf(),
            match old(self)@.create_outcome(
                caller,
                sender,
                recipient,
                deposit_amount,
                rate_per_second,
                start_time,
                cliff_time,
                end_time,
            ) {
                Ok(s) => {
                    &&& r == Ok::<u64, StreamError>(old(self)@.next_id)
                    &&& final(self)@ == (LedgerState {
                        config: old(self)@.config,
                        next_id: (old(self)@.next_id + 1) as u64,
                        records: old(self)@.records.insert(old(self)@.next_id, s),
                    })
                },
                Err(e) => r == Err::<u64, StreamError>(e) && final(self)@ == old(self)@,
            },
    {
        if caller != sender {
            return Err(StreamError::Unauthorized);
        }
        let stream = match Stream::open(
            self.store.peek_id(),
            sender,
            recipient,
            deposit_amount,
            rate_per_second,
            start_time,
            cliff_time,
            end_time,
        ) {
            Ok(s) => s,
            Err(e) => { return Err(e); },
        };
        let id: u64 = match self.store.allocate_id() {
            Some(id) => id,
            None => { return Err(StreamError::Overflow); },
        };
        self.store.put(id, stream);
        Ok(id)
    }

    /// Pauses stream `stream_id` at `now`. Only its sender or the admin may.
    pub fn pause_stream(&mut self, caller: Principal, stream_id: u64, now: u64) -> (r: Result<
        (),
        StreamError,
    >)
        requires
            old(self).wf(),
        ensures
            final(self).wf(),
            match old(self)@.pause_outcome(caller, stream_id, now) {
                Ok(s) => {
                    &&& r == Ok::<(), StreamError>(())
                    &&& final(self)@ == old(self)@.with_record(stream_id, s)
                },
                Err(e) => r == Err::<(), StreamError>(e) && final(self)@ == old(self)@,
            },
    {
        let stream = match self.store.get(stream_id) {
            Some(s) => s,
            None => { return Err(StreamError::NotFound); },
        };
        if !self.manages(caller, &stream) {
            return Err(StreamError::Unauthorized);
        }
        let paused = match stream.pause(now) {
            Ok(s) => s,
            Err(e) => { return Err(e); },
        };
        self.store.put(stream_id, paused);
        Ok(())
    }

    /// Resumes stream `stream_id` at `now`. Only its sender or the admin may.
    pub fn resume_stream(&mut self, caller: Principal, stream_id: u64, now: u64) -> (r: Result<
        (),
        StreamError,
    >)
        requires
            old(self).wf(),
        ensures
            final(self).wf(),
            match old(self)@.resume_outcome(caller, stream_id, now) {
                Ok(s) => {
                    &&& r == Ok::<(), StreamError>(())
                    &&& final(self)@ == old(self)@.with_record(stream_id, s)
                },
                Err(e) => r == Err::<(), StreamError>(e) && final(self)@ == old(self)@,
            },
    {
        let stream = match self.store.get(stream_id) {
            Some(s) => s,
            None => { return Err(StreamError::NotFound); },
        };
        if !self.manages(caller, &stream) {
            return Err(StreamError::Unauthorized);
        }
        let resumed = match stream.resume(now) {
            Ok(s) => s,
            Err(e) => { return Err(e); },
        };
        self.store.put(stream_id, resumed);
        Ok(())
    }

    /// Cancels stream `stream_id` at `now` and answers with what the host has to
    /// pay: the accrued rest to the recipient, the remainder to the sender. Only
    /// the stream's sender or the admin may.
    pub fn cancel_stream(&mut self, caller: Principal, stream_id: u64, now: u64) -> (r: Result<
        Settlement,
        StreamError,
    >)
        requires
            old(self).wf(),
        ensures
            final(self).wf(),
            match old(self)@.cancel_outcome(caller, stream_id, now) {
                Ok(p) => {
                    &&& r == Ok::<Settlement, StreamError>(p.1)
                    &&& final(self)@ == old(self)@.with_record(stream_id, p.0)
                },
                Err(e) => r == Err::<Settlement, StreamError>(e) && final(self)@ == old(self)@,
            },
    {
        let stream = match self.store.get(stream_id) {
            Some(s) => s,
            None => { return Err(StreamError::NotFound); },
        };
        if !self.manages(caller, &stream) {
            return Err(StreamError::Unauthorized);
        }
        let (cancelled, settlement) = match stream.cancel(now) {
            Ok(p) => p,
            Err(e) => { return Err(e); },
        };
        self.store.put(stream_id, cancelled);
        Ok(settlement)
    }

    /// Withdraws from stream `stream_id` at `now` and answers with the amount that
    /// the host has to pay to the recipient. Only the recipient may.
    pub fn withdraw(&mut self, caller: Principal, stream_id: u64, now: u64) -> (r: Result<
        i128,
        StreamError,
    >)
        requires
            old(self).wf(),
        ensures
            final(self).wf(),
            match old(self)@.withdraw_outcome(caller, stream_id, now) {
                Ok(p) => {
                    &&& r == Ok::<i128, StreamError>(p.1)
                    &&& final(self)@ == old(self)@.with_record(stream_id, p.0)
                },
                Err(e) => r == Err::<i128, StreamError>(e) && final(self)@ == old(self)@,
            },
    {
        let stream = match self.store.get(stream_id) {
            Some(s) => s,
            None => { return Err(StreamError::NotFound); },
        };
        if caller != stream.recipient {
            return Err(StreamError::Unauthorized);
        }
        let (updated, payable) = match stream.withdraw(now) {
            Ok(p) => p,
            Err(e) => { return Err(e); },
        };
        self.store.put(stream_id, updated);
        Ok(payable)
    }

    /// What has accrued on stream `stream_id` at `now`.
    pub fn calculate_accrued(&self, stream_id: u64, now: u64) -> (r: Result<i128, StreamError>)
        ensures
            match self@.lookup(stream_id) {
                Err(e) => r == Err::<i128, StreamError>(e),
                Ok(s) => if s.overflows(now) {
                    r == Err::<i128, StreamError>(StreamError::Overflow)
                } else {
                    r matches Ok(amount) && amount == s.accrued(now)
                },
            },
    {
        match self.store.get(stream_id) {
            Some(s) => s.accrued_at(now),
            None => Err(StreamError::NotFound),
        }
    }

    /// The record of stream `stream_id`.
    pub fn get_stream_state(&self, stream_id: u64) -> (r: Result<Stream, StreamError>)
        ensures
            r == self@.lookup(stream_id),
    {
        match self.store.get(stream_id) {
            Some(s) => Ok(s),
            None => Err(StreamError::NotFound),
        }
    }
}

} // verus!
