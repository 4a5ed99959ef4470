use vstd::prelude::*;
use vstd::string::StringSliceAdditionalSpecFns;
use crate::outcome::{copy_bytes, revert, reverts_with, EvmResult};

verus! {

/// Length in bytes of a method selector.
pub const SELECTOR_LEN: usize = 4;

/// The big-endian number held by the first four bytes of `input`.
pub open spec fn selector_of(input: Seq<u8>) -> u32 {
    (input[0] as int * 0x100_0000 + input[1] as int * 0x1_0000 + input[2] as int * 0x100
        + input[3] as int) as u32
}

/// `i` is the first entry of `methods` whose selector is `selector`.
pub open spec fn first_match<M>(methods: Seq<(u32, M)>, selector: u32, i: int) -> bool {
    &&& 0 <= i < methods.len()
    &&& methods[i].0 == selector
    &&& forall|j: int| 0 <= j < i ==> methods[j].0 != selector
}

/// Some entry of `methods` has the selector `selector`.
pub open spec fn has_selector<M>(methods: Seq<(u32, M)>, selector: u32) -> bool {
    exists|i: int| 0 <= i < methods.len() && methods[i].0 == selector
}

/// The message of the revert for an input too short to hold a selector.
pub open spec fn short_selector_message() -> Seq<u8> {
    "tried to parse selector out of bounds".spec_bytes()
}

/// The message of the revert for a selector that names no method.
pub open spec fn unknown_selector_message() -> Seq<u8> {
    "unknown selector".spec_bytes()
}

/// The message of the revert for arguments read from an input without a
/// selector.
pub open spec fn short_input_message() -> Seq<u8> {
    "input is too short".spec_bytes()
}

/// The method that the first four bytes of `input` select, looked up in
/// `methods`, a table from selectors to methods. Fails with a revert where
/// the input is shorter than a selector or the selector names no method.
pub fn read_selector<M: Copy>(input: &[u8], methods: &[(u32, M)]) -> (r: EvmResult<M>)
    ensures
        input@.len() < 4 ==> reverts_with(r, short_selector_message()),
        input@.len() >= 4 && !has_selector(methods@, selector_of(input@)) ==> reverts_with(
            r,
            unknown_selector_message(),
        ),
        r.is_ok() <==> input@.len() >= 4 && has_selector(methods@, selector_of(input@)),
        r matches Ok(m) ==> exists|i: int|
            first_match(methods@, selector_of(input@), i) && methods@[i].1 == m,
{
    if input.len() < SELECTOR_LEN {
        return Err(revert("tried to parse selector out of bounds".as_bytes()));
    }
    let selector: u32 = (input[0] as u32) * 0x100_0000 + (input[1] as u32) * 0x1_0000
        + (input[2] as u32) * 0x100 + (input[3] as u32);
    let mut i: usize = 0;
    while i < methods.len()
        invariant
            i <= methods@.len(),
            input@.len() >= 4,
            selector == selector_of(input@),
            forall|j: int| 0 <= j < i ==> methods@[j].0 != selector,
        decreases methods@.len() - i,
    {
        let entry = methods[i];
        if entry.0 == selector {
            assert(first_match(methods@, selector, i as int));
            return Ok(entry.1);
        }
        i = i + 1;
    }
    Err(revert("unknown selector".as_bytes()))
}

/// A cursor over a call's input, for reading the method's arguments.
#[derive(Clone, Debug, PartialEq, Eq)]
pub struct EvmDataReader {
    pub input: Vec<u8>,
    pub cursor: usize,
}

impl EvmDataReader {
    /// A reader over `input` placed just past the selector. Fails with a
    /// revert where the input is shorter than a selector.
    pub fn new_skip_selector(input: &[u8]) -> (r: EvmResult<EvmDataReader>)
        ensures
            r.is_ok() <==> input@.len() >= 4,
            input@.len() < 4 ==> reverts_with(r, short_input_message()),
            r matches Ok(reader) ==> reader.input@ == input@ && reader.cursor == 4,
    {
        if input.len() < SELECTOR_LEN {
            return Err(revert("input is too short".as_bytes()));
        }
        Ok(EvmDataReader { input: copy_bytes(input), cursor: SELECTOR_LEN })
    }

    /// The bytes not read yet.
    pub fn remaining(&self) -> (r: Vec<u8>)
        requires
            self.cursor <= self.input@.len(),
        ensures
            r@ == self.input@.subrange(self.cursor as int, self.input@.len() as int),
    {
        let mut r: Vec<u8> = Vec::new();
        let mut i: usize = self.cursor;
        while i < self.input.len()
            invariant
                self.cursor <= i <= self.input@.len(),
                r@ == self.input@.subrange(self.cursor as int, i as int),
            decreases self.input@.len() - i,
        {
            r.push(self.input[i]);
            i = i + 1;
        }
        r
    }
}

} // verus!
