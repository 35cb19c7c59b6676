//! The well-known program accounts the crate refers to.

use vstd::prelude::*;

verus! {

/// The account of the system program: thirty-two zero bytes.
pub open spec fn spec_system_program_id() -> Seq<u8> {
    Seq::new(32, |i: int| 0u8)
}

/// The account of the Ed25519 signature verification program.
pub open spec fn spec_ed25519_program_id() -> Seq<u8> {
    seq![
        3u8, 125u8, 70u8, 214u8, 124u8, 147u8, 251u8, 190u8, 18u8, 249u8, 66u8, 143u8, 131u8,
        141u8, 64u8, 255u8, 5u8, 112u8, 116u8, 73u8, 39u8, 244u8, 138u8, 100u8, 252u8, 202u8,
        112u8, 68u8, 128u8, 0u8, 0u8, 0u8,
    ]
}

/// The account under which the ledger exposes the instructions of the
/// current transaction.
pub open spec fn spec_sysvar_instructions() -> Seq<u8> {
    seq![
        6u8, 167u8, 213u8, 23u8, 24u8, 123u8, 209u8, 102u8, 53u8, 218u8, 212u8, 4u8, 85u8, 253u8,
        194u8, 192u8, 193u8, 36u8, 198u8, 143u8, 33u8, 86u8, 117u8, 165u8, 219u8, 186u8, 203u8,
        95u8, 8u8, 0u8, 0u8, 0u8,
    ]
}

/// The account of the system program.
pub fn system_program_id() -> (r: [u8; 32])
    ensures
        r@ == spec_system_program_id(),
{
    let r: [u8; 32] = [0; 32];
    proof {
        assert(r@ =~= spec_system_program_id());
    }
    r
}

/// The account of the Ed25519 signature verification program.
pub fn ed25519_program_id() -> (r: [u8; 32])
    ensures
        r@ == spec_ed25519_program_id(),
{
    let r: [u8; 32] = [
        3, 125, 70, 214, 124, 147, 251, 190, 18, 249, 66, 143, 131, 141, 64, 255, 5, 112, 116, 73,
        39, 244, 138, 100, 252, 202, 112, 68, 128, 0, 0, 0,
    ];
    proof {
        assert(r@ =~= spec_ed25519_program_id());
    }
    r
}

/// The account under which the ledger exposes the instructions of the
/// current transaction.
pub fn sysvar_instructions() -> (r: [u8; 32])
    ensures
        r@ == spec_sysvar_instructions(),
{
    let r: [u8; 32] = [
        6, 167, 213, 23, 24, 123, 209, 102, 53, 218, 212, 4, 85, 253, 194, 192, 193, 36, 198, 143,
        33, 86, 117, 165, 219, 186, 203, 95, 8, 0, 0, 0,
    ];
    proof {
        assert(r@ =~= spec_sysvar_instructions());
    }
    r
}

} // verus!
