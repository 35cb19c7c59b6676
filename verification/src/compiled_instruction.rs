//! A compact encoding of an instruction whose account references are
//! indices into a message's account table.

use vstd::prelude::*;

verus! {

/// A compact encoding of an instruction.
///
/// A `CompiledInstruction` is a component of a multi-instruction `Message`.
/// It is created during the construction of `Message`. Most users will not
/// interact with it directly.
#[derive(Debug, Clone)]
pub struct CompiledInstruction {
    /// Index into the transaction keys array indicating
    /// the program account that executes this instruction.
    pub program_id_index: u8,
    /// Ordered indices into the transaction keys array indicating
    /// which accounts to pass to the program.
    pub accounts: Vec<u8>,
    /// The program input data.
    pub data: Vec<u8>,
}

impl PartialEq for CompiledInstruction {
    fn eq(&self, other: &Self) -> (r: bool)
    {
        if self.program_id_index != other.program_id_index {
            return false;
        }
        if !bytes_equal(&self.accounts, &other.accounts) {
            return false;
        }
        bytes_equal(&self.data, &other.data)
    }
}

impl vstd::std_specs::cmp::PartialEqSpecImpl for CompiledInstruction {
    open spec fn obeys_eq_spec() -> bool {
        true
    }

    open spec fn eq_spec(&self, other: &Self) -> bool {
        self.program_id_index == other.program_id_index && self.accounts@ == other.accounts@
            && self.data@ == other.data@
    }
}

/// Whether two byte vectors hold the same bytes.
pub fn bytes_equal(a: &Vec<u8>, b: &Vec<u8>) -> (r: bool)
    ensures
        r == (a@ == b@),
{
    if a.len() != b.len() {
        return false;
    }
    let n = a.len();
    for i in 0..n
        invariant
            n == a@.len(),
            n == b@.len(),
            forall|j: int| 0 <= j < i ==> a@[j] == b@[j],
    {
        if a[i] != b[i] {
            return false;
        }
    }
    proof {
        assert(a@ =~= b@);
    }
    true
}

} // verus!
