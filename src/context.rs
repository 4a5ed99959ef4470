use vstd::prelude::*;
use vstd::string::StringSliceAdditionalSpecFns;
use crate::outcome::{revert, reverts_with, EvmResult};

verus! {

/// A 20-byte account address.
#[derive(Clone, Copy, Debug, PartialEq, Eq)]
pub struct H160(pub [u8; 20]);

/// An unsigned 256-bit integer, held as two 128-bit halves.
#[derive(Clone, Copy, Debug, PartialEq, Eq)]
pub struct U256 {
    pub high: u128,
    pub low: u128,
}

impl U256 {
    /// The number this value stands for.
    pub open spec fn value(self) -> nat {
        self.high as nat * 0x1_0000_0000_0000_0000_0000_0000_0000_0000 + self.low as nat
    }

    /// The value `v`.
    pub fn from_u128(v: u128) -> (r: U256)
        ensures
            r.value() == v,
    {
        U256 { high: 0, low: v }
    }

    /// Whether the value is zero.
    pub fn is_zero(&self) -> (r: bool)
        ensures
            r == (self.value() == 0),
    {
        assert(self.high > 0 ==> self.value() > 0) by (nonlinear_arith)
            requires
                self.value() == self.high as nat * 0x1_0000_0000_0000_0000_0000_0000_0000_0000
                    + self.low as nat,
        ;
        self.high == 0 && self.low == 0
    }
}

/// Modifiers a contract method can be declared with.
#[derive(Clone, Copy, Debug, PartialEq, Eq, Structural)]
pub enum FunctionModifier {
    /// Does not modify state.
    View,
    /// Modifies state and refuses funds.
    NonPayable,
    /// Modifies state and accepts funds.
    Payable,
}

/// What a call knows of the frame it runs in. It does not change during the
/// call.
#[derive(Clone, Copy, Debug, PartialEq, Eq)]
pub struct PrecompileCallContext {
    pub address: H160,
    pub is_static: bool,
    pub apparent_value: U256,
}

/// The message of the revert for a state-changing method called statically.
pub open spec fn static_call_message() -> Seq<u8> {
    "can't call non-static function in static context".spec_bytes()
}

/// The message of the revert for funds sent to a method that refuses them.
pub open spec fn not_payable_message() -> Seq<u8> {
    "function is not payable".spec_bytes()
}

/// A call in `context` to a method with `modifier` breaks the static rule:
/// a static context admits only views.
pub open spec fn static_violation(context: PrecompileCallContext, modifier: FunctionModifier) -> bool {
    context.is_static && modifier != FunctionModifier::View
}

/// A call in `context` to a method with `modifier` keeps the static rule
/// but breaks the payment rule: only a payable method may receive funds.
pub open spec fn payment_violation(context: PrecompileCallContext, modifier: FunctionModifier) -> bool {
    !static_violation(context, modifier) && modifier != FunctionModifier::Payable
        && context.apparent_value.value() > 0
}

/// Checks that a method with `modifier` may be called in `context`: a
/// static context admits only views, and only a payable method may receive
/// funds.
pub fn check_function_modifier(context: &PrecompileCallContext, modifier: FunctionModifier) -> (r: EvmResult)
    ensures
        r.is_ok() <==> !static_violation(*context, modifier) && !payment_violation(*context, modifier),
        static_violation(*context, modifier) ==> reverts_with(r, static_call_message()),
        payment_violation(*context, modifier) ==> reverts_with(r, not_payable_message()),
{
    if context.is_static && modifier != FunctionModifier::View {
        return Err(revert("can't call non-static function in static context".as_bytes()));
    }
    if modifier != FunctionModifier::Payable && !context.apparent_value.is_zero() {
        return Err(revert("function is not payable".as_bytes()));
    }
    Ok(())
}

} // verus!
