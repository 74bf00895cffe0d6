//! Where the ledger keeps its state: the configuration, the stream records by
//! identifier, and the counter that issues identifiers.

use vstd::prelude::*;
use std::collections::HashMap;
use crate::stream::Stream;
use crate::types::{Config, DataKey};

verus! {

broadcast use vstd::std_specs::hash::group_hash_axioms;

/// The ledger's state. The store validates nothing: it keeps what it is given.
pub struct StreamStore {
    config: Option<Config>,
    next_stream_id: u64,
    streams: HashMap<u64, Stream>,
}

impl StreamStore {
    /// The configuration, once it was set.
    pub closed spec fn config(self) -> Option<Config> {
        self.config
    }

    /// The identifier that the next allocation issues.
    pub closed spec fn next_id(self) -> u64 {
        self.next_stream_id
    }

    /// The records, by identifier.
    pub closed spec fn records(self) -> Map<u64, Stream> {
        self.streams@
    }

    /// Whether anything is kept under a key.
    pub open spec fn holds(self, key: DataKey) -> bool {
        match key {
            DataKey::Config => self.config().is_some(),
            DataKey::NextStreamId => true,
            DataKey::Stream(id) => self.records().contains_key(id),
        }
    }

    /// An empty store, whose first identifier is 1.
    pub fn new() -> (s: StreamStore)
        ensures
            s.config().is_none(),
            s.next_id() == 1,
            s.records() == Map::<u64, Stream>::empty(),
    {
        StreamStore { config: None, next_stream_id: 1, streams: HashMap::new() }
    }

    /// A store without records, with the configuration and the counter that were
    /// kept elsewhere.
    pub fn restore(config: Option<Config>, next_stream_id: u64) -> (s: StreamStore)
        ensures
            s.config() == config,
            s.next_id() == next_stream_id,
            s.records() == Map::<u64, Stream>::empty(),
    {
        StreamStore { config, next_stream_id, streams: HashMap::new() }
    }

    /// Whether anything is kept under `key`. The counter is always there.
    pub fn has(&self, key: &DataKey) -> (r: bool)
        ensures
            r == self.holds(*key),
    {
        match key {
            DataKey::Config => self.config.is_some(),
            DataKey::NextStreamId => true,
            DataKey::Stream(id) => self.streams.contains_key(id),
        }
    }

    /// The configuration, if it was set.
    pub fn get_config(&self) -> (r: Option<Config>)
        ensures
            r == self.config(),
    {
        self.config
    }

    /// Sets the configuration, replacing an earlier one.
    pub fn put_config(&mut self, config: Config)
        ensures
            final(self).config() == Some(config),
            final(self).next_id() == old(self).next_id(),
            final(self).records() == old(self).records(),
    {
        self.config = Some(config);
    }

    /// The identifier that the next allocation issues, without allocating.
    pub fn peek_id(&self) -> (r: u64)
        ensures
            r == self.next_id(),
    {
        self.next_stream_id
    }

    /// Issues the next identifier and moves the counter past it. Answers `None`,
    /// and changes nothing, once the last identifier that would leave the counter
    /// in range was issued.
    pub fn allocate_id(&mut self) -> (r: Option<u64>)
        ensures
            final(self).config() == old(self).config(),
            final(self).records() == old(self).records(),
            old(self).next_id() < u64::MAX ==> r == Some(old(self).next_id())
                && final(self).next_id() == old(self).next_id() + 1,
            old(self).next_id() == u64::MAX ==> r.is_none()
                && final(self).next_id() == old(self).next_id(),
    {
        if self.next_stream_id == u64::MAX {
            return None;
        }
        let id: u64 = self.next_stream_id;
        self.next_stream_id = id + 1;
        Some(id)
    }

    /// Keeps `stream` under `id`, replacing the record that was there.
    pub fn put(&mut self, id: u64, stream: Stream)
        ensures
            final(self).records() == old(self).records().insert(id, stream),
            final(self).config() == old(self).config(),
            final(self).next_id() == old(self).next_id(),
    {
        self.streams.insert(id, stream);
    }

    /// The record kept under `id`, if there is one.
    pub fn get(&self, id: u64) -> (r: Option<Stream>)
        ensures
            r == if self.records().contains_key(id) {
                Some(self.records()[id])
            } else {
                None
            },
    {
        match self.streams.get(&id) {
            Some(s) => Some(*s),
            None => None,
        }
    }
}

} // verus!
