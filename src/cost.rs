use vstd::prelude::*;
use crate::outcome::{out_of_gas, is_out_of_gas, EvmResult};

verus! {

/// Base gas cost of emitting a log.
pub const G_LOG: u64 = 375;

/// Gas cost of each topic of a log.
pub const G_LOGTOPIC: u64 = 375;

/// Gas cost of each byte of a log's data.
pub const G_LOGDATA: u64 = 8;

/// The gas cost of a log with `topics` topics and `data_len` bytes of data,
/// as an unbounded integer.
pub open spec fn log_cost(topics: int, data_len: int) -> int {
    G_LOG + G_LOGTOPIC * topics + G_LOGDATA * data_len
}

/// The outcome of pricing a log: its cost where that fits in 64 bits, else
/// out of gas.
pub open spec fn log_cost_fits(topics: int, data_len: int) -> bool {
    log_cost(topics, data_len) <= u64::MAX
}

/// Gas cost of a log with `topics` topics and `data_len` bytes of data.
/// Fails with out of gas where any step of the computation overflows 64 bits.
pub fn log_costs(topics: usize, data_len: usize) -> (r: EvmResult<u64>)
    ensures
        r.is_ok() <==> log_cost_fits(topics as int, data_len as int),
        r matches Ok(c) ==> c == log_cost(topics as int, data_len as int),
        r matches Err(f) ==> is_out_of_gas(f),
{
    let topic_cost = match G_LOGTOPIC.checked_mul(topics as u64) {
        Some(c) => c,
        None => return Err(out_of_gas()),
    };
    let data_cost = match G_LOGDATA.checked_mul(data_len as u64) {
        Some(c) => c,
        None => return Err(out_of_gas()),
    };
    let base = match G_LOG.checked_add(topic_cost) {
        Some(c) => c,
        None => return Err(out_of_gas()),
    };
    match base.checked_add(data_cost) {
        Some(c) => Ok(c),
        None => Err(out_of_gas()),
    }
}

} // verus!
