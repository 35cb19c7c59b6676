//! Instructions understood by the system program, and their fixed binary
//! encoding: a 4-byte little-endian variant tag, then the fields in order,
//! integers little-endian and strings behind an 8-byte length.

use crate::PublicKey;
use vstd::prelude::*;
use vstd::utf8::encode_utf8;

verus! {

/// An instruction of the system program.
#[derive(Debug, Clone)]
pub enum SystemInstruction {
    /// Create a new account under the payer.
    CreateAccount { lamports: u64, space: u64, owner: PublicKey },
    /// Assign an account to a program.
    Assign { owner: PublicKey },
    /// Move lamports between accounts.
    Transfer { lamports: u64 },
    /// Create a new account at an address derived from a base key and a seed.
    CreateAccountWithSeed {
        base: PublicKey,
        seed: String,
        lamports: u64,
        space: u64,
        owner: PublicKey,
    },
}

/// A 32-bit value as four little-endian bytes.
pub open spec fn u32_le_bytes(v: u32) -> Seq<u8> {
    seq![
        (v % 0x100) as u8,
        (v / 0x100 % 0x100) as u8,
        (v / 0x10000 % 0x100) as u8,
        (v / 0x1000000) as u8,
    ]
}

/// A 64-bit value as eight little-endian bytes.
pub open spec fn u64_le_bytes(v: u64) -> Seq<u8> {
    seq![
        (v % 0x100) as u8,
        (v / 0x100 % 0x100) as u8,
        (v / 0x10000 % 0x100) as u8,
        (v / 0x1000000 % 0x100) as u8,
        (v / 0x100000000 % 0x100) as u8,
        (v / 0x10000000000 % 0x100) as u8,
        (v / 0x1000000000000 % 0x100) as u8,
        (v / 0x100000000000000) as u8,
    ]
}

/// The binary form of a system instruction.
pub open spec fn system_instruction_bytes(si: SystemInstruction) -> Seq<u8> {
    match si {
        SystemInstruction::CreateAccount { lamports, space, owner } => u32_le_bytes(0u32)
            + u64_le_bytes(lamports) + u64_le_bytes(space) + owner@,
        SystemInstruction::Assign { owner } => u32_le_bytes(1u32) + owner@,
        SystemInstruction::Transfer { lamports } => u32_le_bytes(2u32) + u64_le_bytes(lamports),
        SystemInstruction::CreateAccountWithSeed { base, seed, lamports, space, owner } => {
            let seed_bytes = encode_utf8(seed@);
            u32_le_bytes(3u32) + base@ + u64_le_bytes(seed_bytes.len() as u64) + seed_bytes
                + u64_le_bytes(lamports) + u64_le_bytes(space) + owner@
        },
    }
}

/// Appends a 32-bit value as four little-endian bytes.
fn append_u32_le(out: &mut Vec<u8>, v: u32)
    ensures
        final(out)@ == old(out)@ + u32_le_bytes(v),
{
    let ghost prefix = out@;
    out.push((v % 0x100) as u8);
    out.push((v / 0x100 % 0x100) as u8);
    out.push((v / 0x10000 % 0x100) as u8);
    out.push((v / 0x1000000) as u8);
    proof {
        assert(out@ =~= prefix + u32_le_bytes(v));
    }
}

/// Appends a 64-bit value as eight little-endian bytes.
fn append_u64_le(out: &mut Vec<u8>, v: u64)
    ensures
        final(out)@ == old(out)@ + u64_le_bytes(v),
{
    let ghost prefix = out@;
    out.push((v % 0x100) as u8);
    out.push((v / 0x100 % 0x100) as u8);
    out.push((v / 0x10000 % 0x100) as u8);
    out.push((v / 0x1000000 % 0x100) as u8);
    out.push((v / 0x100000000 % 0x100) as u8);
    out.push((v / 0x10000000000 % 0x100) as u8);
    out.push((v / 0x1000000000000 % 0x100) as u8);
    out.push((v / 0x100000000000000) as u8);
    proof {
        assert(out@ =~= prefix + u64_le_bytes(v));
    }
}

/// Appends the raw bytes of a 32-byte key.
fn append_key_bytes(out: &mut Vec<u8>, key: &PublicKey)
    ensures
        final(out)@ == old(out)@ + key@,
{
    let ghost prefix = out@;
    for i in 0..32
        invariant
            out@ == prefix + key@.take(i as int),
    {
        proof {
            assert(prefix + key@.take(i + 1) =~= (prefix + key@.take(i as int)).push(
                key@[i as int],
            ));
        }
        out.push(key[i]);
    }
    proof {
        assert(prefix + key@.take(32) =~= prefix + key@);
    }
}

impl SystemInstruction {
    /// The binary form of the instruction.
    pub fn encode(&self) -> (r: Vec<u8>)
        ensures
            r@ == system_instruction_bytes(*self),
    {
        let mut out: Vec<u8> = Vec::new();
        match self {
            SystemInstruction::CreateAccount { lamports, space, owner } => {
                append_u32_le(&mut out, 0);
                append_u64_le(&mut out, *lamports);
                append_u64_le(&mut out, *space);
                append_key_bytes(&mut out, owner);
                proof {
                    assert(out@ =~= system_instruction_bytes(*self));
                }
            },
            SystemInstruction::Assign { owner } => {
                append_u32_le(&mut out, 1);
                append_key_bytes(&mut out, owner);
                proof {
                    assert(out@ =~= system_instruction_bytes(*self));
                }
            },
            SystemInstruction::Transfer { lamports } => {
                append_u32_le(&mut out, 2);
                append_u64_le(&mut out, *lamports);
                proof {
                    assert(out@ =~= system_instruction_bytes(*self));
                }
            },
            SystemInstruction::CreateAccountWithSeed { base, seed, lamports, space, owner } => {
                append_u32_le(&mut out, 3);
                append_key_bytes(&mut out, base);
                let seed_bytes = seed.as_str().as_bytes();
                append_u64_le(&mut out, seed_bytes.len() as u64);
                out.extend_from_slice(seed_bytes);
                append_u64_le(&mut out, *lamports);
                append_u64_le(&mut out, *space);
                append_key_bytes(&mut out, owner);
                proof {
                    assert(out@ =~= system_instruction_bytes(*self));
                }
            },
        }
        out
    }
}

} // verus!
