use vstd::prelude::*;
use crate::context::{check_function_modifier, static_violation, payment_violation, static_call_message, not_payable_message, FunctionModifier, PrecompileCallContext};
use crate::cost::{log_cost, log_cost_fits, log_costs};
use crate::gas::GasBudget;
use crate::logs::Log;
use crate::outcome::{fails_out_of_gas, reverts_with, EvmResult};
use crate::selector::{first_match, has_selector, read_selector, selector_of, short_input_message, short_selector_message, unknown_selector_message, EvmDataReader};

verus! {

/// The gas that charging, one after the other, the costs of `logs` leaves
/// from `remaining`, and whether every charge went through. The first log
/// whose cost overflows or exceeds what is left stops the charging; what was
/// charged before it stays charged.
pub open spec fn charge_logs(remaining: int, logs: Seq<Log>) -> (bool, int)
    decreases logs.len(),
{
    if logs.len() == 0 {
        (true, remaining)
    } else {
        let cost = log_cost(logs[0].topics@.len() as int, logs[0].data@.len() as int);
        if log_cost_fits(logs[0].topics@.len() as int, logs[0].data@.len() as int) && cost
            <= remaining {
            charge_logs(remaining - cost, logs.drop_first())
        } else {
            (false, remaining)
        }
    }
}

/// One call into a precompiled contract: its context, its input, its gas
/// budget, and the logs it has emitted so far.
#[derive(Clone, Debug)]
pub struct CallHandle {
    pub context: PrecompileCallContext,
    pub input: Vec<u8>,
    pub gas: GasBudget,
    pub logs: Vec<Log>,
}

impl CallHandle {
    /// A call in `context` on `input`, with `gas_limit` gas and no logs.
    pub fn new(context: PrecompileCallContext, input: Vec<u8>, gas_limit: u64) -> (r: CallHandle)
        ensures
            r.context == context,
            r.input@ == input@,
            r.gas.remaining == gas_limit,
            r.logs@.len() == 0,
    {
        CallHandle { context, input, gas: GasBudget::new(gas_limit), logs: Vec::new() }
    }

    /// The gas left to the call.
    pub fn remaining_gas(&self) -> (r: u64)
        ensures
            r == self.gas.remaining,
    {
        self.gas.remaining()
    }

    /// Charges `cost` to the call's budget; see `GasBudget::check_and_charge`.
    pub fn record_cost(&mut self, cost: u64) -> (r: EvmResult)
        ensures
            r.is_ok() <==> cost <= old(self).gas.remaining,
            r.is_ok() ==> final(self).gas.remaining == old(self).gas.remaining - cost,
            !r.is_ok() ==> fails_out_of_gas(r) && final(self).gas == old(self).gas,
            final(self).context == old(self).context,
            final(self).input@ == old(self).input@,
            final(self).logs@ == old(self).logs@,
    {
        self.gas.check_and_charge(cost)
    }

    /// Charges the cost of a log with `topics` topics and `data_len` bytes
    /// of data, ahead of emitting it. Nothing is charged where the cost
    /// overflows or exceeds what is left.
    pub fn record_log_costs_manual(&mut self, topics: usize, data_len: usize) -> (r: EvmResult)
        ensures
            r.is_ok() <==> log_cost_fits(topics as int, data_len as int) && log_cost(
                topics as int,
                data_len as int,
            ) <= old(self).gas.remaining,
            r.is_ok() ==> final(self).gas.remaining == old(self).gas.remaining - log_cost(
                topics as int,
                data_len as int,
            ),
            !r.is_ok() ==> fails_out_of_gas(r) && final(self).gas == old(self).gas,
            final(self).context == old(self).context,
            final(self).input@ == old(self).input@,
            final(self).logs@ == old(self).logs@,
    {
        let cost = log_costs(topics, data_len)?;
        self.record_cost(cost)
    }

    /// Charges the costs of `logs`, one after the other, ahead of emitting
    /// them. Stops with out of gas at the first that cannot be paid; the
    /// charges made before it are kept.
    pub fn record_log_costs(&mut self, logs: &[Log]) -> (r: EvmResult)
        ensures
            r.is_ok() == charge_logs(old(self).gas.remaining as int, logs@).0,
            final(self).gas.remaining == charge_logs(old(self).gas.remaining as int, logs@).1,
            !r.is_ok() ==> fails_out_of_gas(r),
            final(self).context == old(self).context,
            final(self).input@ == old(self).input@,
            final(self).logs@ == old(self).logs@,
    {
        let ghost start = self.gas.remaining as int;
        let mut i: usize = 0;
        assert(logs@.subrange(0, logs@.len() as int) =~= logs@);
        while i < logs.len()
            invariant
                i <= logs@.len(),
                start == old(self).gas.remaining as int,
                charge_logs(start, logs@) == charge_logs(
                    self.gas.remaining as int,
                    logs@.subrange(i as int, logs@.len() as int),
                ),
                self.context == old(self).context,
                self.input@ == old(self).input@,
                self.logs@ == old(self).logs@,
            decreases logs@.len() - i,
        {
            let ghost rest = logs@.subrange(i as int, logs@.len() as int);
            assert(rest.drop_first() =~= logs@.subrange(i as int + 1, logs@.len() as int));
            assert(rest[0] == logs@[i as int]);
            let res = self.record_log_costs_manual(logs[i].topics.len(), logs[i].data.len());
            if res.is_err() {
                return res;
            }
            i = i + 1;
        }
        assert(logs@.subrange(i as int, logs@.len() as int) =~= Seq::<Log>::empty());
        Ok(())
    }

    /// Checks that a method with `modifier` may be called in this call's
    /// context; see `check_function_modifier`.
    pub fn check_function_modifier(&self, modifier: FunctionModifier) -> (r: EvmResult)
        ensures
            r.is_ok() <==> !static_violation(self.context, modifier) && !payment_violation(self.context, modifier),
            static_violation(self.context, modifier) ==> reverts_with(
                r,
                static_call_message(),
            ),
            payment_violation(self.context, modifier) ==> reverts_with(
                r,
                not_payable_message(),
            ),
    {
        check_function_modifier(&self.context, modifier)
    }

    /// The method that the call's input selects among `methods`; see
    /// `read_selector`.
    pub fn read_selector<M: Copy>(&self, methods: &[(u32, M)]) -> (r: EvmResult<M>)
        ensures
            self.input@.len() < 4 ==> reverts_with(r, short_selector_message()),
            self.input@.len() >= 4 && !has_selector(methods@, selector_of(self.input@))
                ==> reverts_with(r, unknown_selector_message()),
            r.is_ok() <==> self.input@.len() >= 4 && has_selector(
                methods@,
                selector_of(self.input@),
            ),
            r matches Ok(m) ==> exists|i: int|
                first_match(methods@, selector_of(self.input@), i) && methods@[i].1 == m,
    {
        read_selector(self.input.as_slice(), methods)
    }

    /// A reader of the call's arguments, past the selector.
    pub fn read_input(&self) -> (r: EvmResult<EvmDataReader>)
        ensures
            r.is_ok() <==> self.input@.len() >= 4,
            self.input@.len() < 4 ==> reverts_with(r, short_input_message()),
            r matches Ok(reader) ==> reader.input@ == self.input@ && reader.cursor == 4,
    {
        EvmDataReader::new_skip_selector(self.input.as_slice())
    }
}

impl Log {
    /// Charges this log's cost to the call and, only once that is paid,
    /// emits it. Where the cost cannot be paid, nothing is charged and
    /// nothing is emitted.
    pub fn record(self, handle: &mut CallHandle) -> (r: EvmResult)
        ensures
            r.is_ok() <==> log_cost_fits(self.topics@.len() as int, self.data@.len() as int)
                && log_cost(self.topics@.len() as int, self.data@.len() as int)
                <= old(handle).gas.remaining,
            r.is_ok() ==> final(handle).gas.remaining == old(handle).gas.remaining - log_cost(
                self.topics@.len() as int,
                self.data@.len() as int,
            ) && final(handle).logs@ == old(handle).logs@.push(self),
            !r.is_ok() ==> fails_out_of_gas(r) && final(handle).gas == old(handle).gas
                && final(handle).logs@ == old(handle).logs@,
            final(handle).context == old(handle).context,
            final(handle).input@ == old(handle).input@,
    {
        let cost = self.compute_cost()?;
        handle.record_cost(cost)?;
        handle.logs.push(self);
        Ok(())
    }
}

} // verus!
