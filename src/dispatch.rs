use vstd::prelude::*;
use crate::gas::GasBudget;
use crate::outcome::{is_error_with, fails_out_of_gas, out_of_gas, PrecompileFailure, ExitError, EvmResult};

verus! {

/// What the native side reports after running an operation.
#[derive(Clone, Copy, Debug, PartialEq, Eq)]
pub struct NativeOperationResult {
    /// The gas the operation really used, where the native side knows it
    /// more tightly than the estimate.
    pub actual_cost: Option<u64>,
}

/// The gas charged for a dispatched operation: the outcome's own cost when
/// the native side reported one, else the estimate.
pub open spec fn dispatch_charge(required_gas: u64, outcome: Result<NativeOperationResult, String>) -> u64 {
    match outcome {
        Ok(res) => match res.actual_cost {
            Some(c) => c,
            None => required_gas,
        },
        Err(_) => required_gas,
    }
}

/// The description of a failed native operation, from the text that the
/// native side gave for it.
pub open spec fn dispatch_failed_text(detail: Seq<char>) -> Seq<char> {
    "Dispatched call failed with error: "@ + detail
}

/// How the budget and the result of a call stand once the native operation
/// has produced `outcome`: its charge is taken from the budget if it fits,
/// else the call fails with out of gas and the budget is kept; a native
/// failure then becomes a hard error with its description.
pub open spec fn settles(
    before: GasBudget,
    required_gas: u64,
    outcome: Result<NativeOperationResult, String>,
    after: GasBudget,
    r: EvmResult,
) -> bool {
    let charge = dispatch_charge(required_gas, outcome);
    if charge <= before.remaining {
        &&& after.remaining == before.remaining - charge
        &&& match outcome {
            Ok(_) => r is Ok,
            Err(detail) => match r {
                Err(f) => is_error_with(f, dispatch_failed_text(detail@)),
                Ok(_) => false,
            },
        }
    } else {
        &&& after == before
        &&& fails_out_of_gas(r)
    }
}

/// Helpers for dispatching operations to the native side.
#[derive(Clone, Copy, Debug)]
pub struct RuntimeHelper;

impl RuntimeHelper {
    /// Charges for an operation that the native side has run with the given
    /// outcome, whose estimated cost was `required_gas`. A failed operation
    /// is charged its estimate and then reported as a hard error.
    pub fn settle_dispatch(
        gas: &mut GasBudget,
        required_gas: u64,
        outcome: Result<NativeOperationResult, String>,
    ) -> (r: EvmResult)
        ensures
            settles(*old(gas), required_gas, outcome, *final(gas), r),
    {
        match outcome {
            Ok(res) => {
                let used_gas = match res.actual_cost {
                    Some(c) => c,
                    None => required_gas,
                };
                gas.check_and_charge(used_gas)
            },
            Err(detail) => {
                match gas.check_and_charge(required_gas) {
                    Ok(()) => {
                        let mut text = String::from_str("Dispatched call failed with error: ");
                        text.append(detail.as_str());
                        Err(PrecompileFailure::Error { exit_status: ExitError::Other(text) })
                    },
                    Err(f) => Err(f),
                }
            },
        }
    }

    /// Runs a native operation whose estimated cost is `required_gas`, if the
    /// budget covers that estimate, and charges for it. Where the estimate
    /// exceeds what is left, fails with out of gas without running it.
    pub fn try_dispatch<D>(gas: &mut GasBudget, required_gas: u64, dispatch: D) -> (r: EvmResult)
        where
            D: FnOnce() -> Result<NativeOperationResult, String>,
        requires
            dispatch.requires(()),
        ensures
            required_gas > old(gas).remaining ==> fails_out_of_gas(r) && *final(gas) == *old(gas),
            required_gas <= old(gas).remaining ==> exists|outcome|
                dispatch.ensures((), outcome) && #[trigger] settles(
                    *old(gas),
                    required_gas,
                    outcome,
                    *final(gas),
                    r,
                ),
    {
        if required_gas > gas.remaining() {
            return Err(out_of_gas());
        }
        let outcome = dispatch();
        Self::settle_dispatch(gas, required_gas, outcome)
    }
}

} // verus!
