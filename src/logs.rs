use vstd::prelude::*;
use crate::context::H160;
use crate::cost::{log_costs, log_cost, log_cost_fits};
use crate::outcome::{is_out_of_gas, EvmResult};

verus! {

/// A 32-byte log topic.
#[derive(Clone, Copy, Debug, PartialEq, Eq)]
pub struct H256(pub [u8; 32]);

/// A log event: the emitting address, up to four topics, and free-form data.
#[derive(Clone, Debug, PartialEq, Eq)]
pub struct Log {
    pub address: H160,
    pub topics: Vec<H256>,
    pub data: Vec<u8>,
}

impl Log {
    /// The gas cost of emitting this log, by the log cost schedule.
    pub fn compute_cost(&self) -> (r: EvmResult<u64>)
        ensures
            r.is_ok() <==> log_cost_fits(self.topics@.len() as int, self.data@.len() as int),
            r matches Ok(c) ==> c == log_cost(self.topics@.len() as int, self.data@.len() as int),
            r matches Err(f) ==> is_out_of_gas(f),
    {
        log_costs(self.topics.len(), self.data.len())
    }
}

/// Builds logs emitted from one address.
#[derive(Clone, Copy, Debug)]
pub struct LogsBuilder {
    pub address: H160,
}

impl LogsBuilder {
    /// A builder for logs emitted from `address`.
    pub fn new(address: H160) -> (r: LogsBuilder)
        ensures
            r.address == address,
    {
        LogsBuilder { address }
    }

    /// A log without topics.
    pub fn log0(&self, data: Vec<u8>) -> (r: Log)
        ensures
            r.address == self.address,
            r.topics@ == Seq::<H256>::empty(),
            r.data@ == data@,
    {
        Log { address: self.address, topics: Vec::new(), data }
    }

    /// A log with one topic.
    pub fn log1(&self, topic0: H256, data: Vec<u8>) -> (r: Log)
        ensures
            r.address == self.address,
            r.topics@ == seq![topic0],
            r.data@ == data@,
    {
        let mut topics: Vec<H256> = Vec::new();
        topics.push(topic0);
        Log { address: self.address, topics, data }
    }

    /// A log with two topics, in the order given.
    pub fn log2(&self, topic0: H256, topic1: H256, data: Vec<u8>) -> (r: Log)
        ensures
            r.address == self.address,
            r.topics@ == seq![topic0, topic1],
            r.data@ == data@,
    {
        let mut topics: Vec<H256> = Vec::new();
        topics.push(topic0);
        topics.push(topic1);
        Log { address: self.address, topics, data }
    }

    /// A log with three topics, in the order given.
    pub fn log3(&self, topic0: H256, topic1: H256, topic2: H256, data: Vec<u8>) -> (r: Log)
        ensures
            r.address == self.address,
            r.topics@ == seq![topic0, topic1, topic2],
            r.data@ == data@,
    {
        let mut topics: Vec<H256> = Vec::new();
        topics.push(topic0);
        topics.push(topic1);
        topics.push(topic2);
        Log { address: self.address, topics, data }
    }

    /// A log with four topics, in the order given.
    pub fn log4(
        &self,
        topic0: H256,
        topic1: H256,
        topic2: H256,
        topic3: H256,
        data: Vec<u8>,
    ) -> (r: Log)
        ensures
            r.address == self.address,
            r.topics@ == seq![topic0, topic1, topic2, topic3],
            r.data@ == data@,
    {
        let mut topics: Vec<H256> = Vec::new();
        topics.push(topic0);
        topics.push(topic1);
        topics.push(topic2);
        topics.push(topic3);
        Log { address: self.address, topics, data }
    }
}

} // verus!
