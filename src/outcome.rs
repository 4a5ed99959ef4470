use vstd::prelude::*;

verus! {

/// Why a call stopped with a hard error.
#[derive(Clone, Debug, PartialEq, Eq)]
pub enum ExitError {
    /// The required cost exceeds what is left of the gas budget, or a cost
    /// computation overflowed.
    OutOfGas,
    /// Any other hard failure, with a description.
    Other(String),
}

/// A call that did not succeed.
#[derive(Clone, Debug, PartialEq, Eq)]
pub enum PrecompileFailure {
    /// A hard, non-recoverable failure.
    Error { exit_status: ExitError },
    /// A caller-visible rejection carrying a message.
    Revert { output: Vec<u8> },
}

/// A call that succeeded, with the bytes it returns.
#[derive(Clone, Debug, PartialEq, Eq)]
pub struct PrecompileOutput {
    pub output: Vec<u8>,
}

/// Result of a step of a call: a value, or the failure that ends the call.
pub type EvmResult<T = ()> = Result<T, PrecompileFailure>;

/// The failure is the one that ends a call for want of gas.
pub open spec fn is_out_of_gas(f: PrecompileFailure) -> bool {
    f matches PrecompileFailure::Error { exit_status: ExitError::OutOfGas }
}

/// The failure is a revert whose message is `msg`.
pub open spec fn is_revert_with(f: PrecompileFailure, msg: Seq<u8>) -> bool {
    match f {
        PrecompileFailure::Revert { output } => output@ == msg,
        _ => false,
    }
}

/// The failure is a hard error of kind `Other` whose description is `text`.
pub open spec fn is_error_with(f: PrecompileFailure, text: Seq<char>) -> bool {
    match f {
        PrecompileFailure::Error { exit_status: ExitError::Other(s) } => s@ == text,
        _ => false,
    }
}

/// The result is a revert whose message is `msg`.
pub open spec fn reverts_with<T>(r: EvmResult<T>, msg: Seq<u8>) -> bool {
    match r {
        Err(f) => is_revert_with(f, msg),
        Ok(_) => false,
    }
}

/// The result is the failure that ends a call for want of gas.
pub open spec fn fails_out_of_gas<T>(r: EvmResult<T>) -> bool {
    match r {
        Err(f) => is_out_of_gas(f),
        Ok(_) => false,
    }
}

/// A fresh vector holding the bytes of `s`.
pub fn copy_bytes(s: &[u8]) -> (r: Vec<u8>)
    ensures
        r@ == s@,
{
    let mut r: Vec<u8> = Vec::with_capacity(s.len());
    let mut i: usize = 0;
    while i < s.len()
        invariant
            i <= s@.len(),
            r@ == s@.subrange(0, i as int),
        decreases s@.len() - i,
    {
        r.push(s[i]);
        i = i + 1;
    }
    assert(r@ == s@.subrange(0, s@.len() as int));
    r
}

/// The failure that ends a call for want of gas.
pub fn out_of_gas() -> (r: PrecompileFailure)
    ensures
        is_out_of_gas(r),
{
    PrecompileFailure::Error { exit_status: ExitError::OutOfGas }
}

/// A hard error carrying the given text.
pub fn error(text: &str) -> (r: PrecompileFailure)
    ensures
        is_error_with(r, text@),
{
    PrecompileFailure::Error { exit_status: ExitError::Other(text.to_owned()) }
}

/// A revert carrying a copy of `output`.
pub fn revert(output: &[u8]) -> (r: PrecompileFailure)
    ensures
        is_revert_with(r, output@),
{
    PrecompileFailure::Revert { output: copy_bytes(output) }
}

/// A successful outcome carrying a copy of `output`.
pub fn succeed(output: &[u8]) -> (r: PrecompileOutput)
    ensures
        r.output@ == output@,
{
    PrecompileOutput { output: copy_bytes(output) }
}

} // verus!
