use vstd::prelude::*;
use crate::cost::log_cost;
use crate::dispatch::{settles, NativeOperationResult};
use crate::gas::GasBudget;
use crate::handle::charge_logs;
use crate::logs::Log;
use crate::outcome::{EvmResult, PrecompileOutput};

verus! {

/// Building a success twice from the same bytes gives two outcomes that
/// carry the same bytes: `succeed` depends on its input alone.
pub proof fn succeed_is_deterministic(bytes: Seq<u8>, a: PrecompileOutput, b: PrecompileOutput)
    requires
        a.output@ == bytes,
        b.output@ == bytes,
    ensures
        a.output@ == b.output@,
{
}

/// Charging a batch of logs never adds gas: what is left afterwards is at
/// most what was there before.
pub proof fn log_charges_never_refund(remaining: int, logs: Seq<Log>)
    ensures
        charge_logs(remaining, logs).1 <= remaining,
    decreases logs.len(),
{
    if logs.len() > 0 {
        log_charges_never_refund(
            remaining - log_cost(logs[0].topics@.len() as int, logs[0].data@.len() as int),
            logs.drop_first(),
        );
    }
}

/// Settling a dispatched operation never adds gas, and a failed settlement
/// leaves the budget as it was.
pub proof fn dispatch_never_refunds(
    before: GasBudget,
    required_gas: u64,
    outcome: Result<NativeOperationResult, String>,
    after: GasBudget,
    r: EvmResult,
)
    requires
        settles(before, required_gas, outcome, after, r),
    ensures
        after.remaining <= before.remaining,
        outcome is Ok && r is Err ==> after == before,
{
}

} // verus!
