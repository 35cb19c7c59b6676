//! The fixed-offset binary layout that embeds a verifiable signature in
//! instruction data: a count, a padding byte, a 14-byte offsets record,
//! then the public key, the signature and the message.

use crate::instruction::Instruction;
use crate::programs::ed25519_program_id;
use crate::programs::spec_ed25519_program_id;
use crate::PublicKey;
use crate::Signature;
use vstd::prelude::*;

verus! {

/// Bytes a serialized public key occupies.
pub const PUBKEY_SERIALIZED_SIZE: usize = 32;

/// Bytes a serialized signature occupies.
pub const SIGNATURE_SERIALIZED_SIZE: usize = 64;

/// Bytes the offsets record occupies.
pub const SIGNATURE_OFFSETS_SERIALIZED_SIZE: usize = 14;

/// Where the offsets record starts: after the count and one padding byte,
/// keeping the record aligned.
pub const SIGNATURE_OFFSETS_START: usize = 2;

/// Where the payload starts: right after the offsets record.
pub const DATA_START: usize = SIGNATURE_OFFSETS_SERIALIZED_SIZE + SIGNATURE_OFFSETS_START;

/// A 16-bit value as two little-endian bytes.
pub open spec fn u16_le_bytes(v: u16) -> Seq<u8> {
    seq![(v % 0x100) as u8, (v / 0x100) as u8]
}

/// The whole layout: one signature, a padding byte, the offsets record —
/// each offset little-endian, each instruction index the sentinel 0xFFFF
/// meaning "this instruction" — then the key at offset 16, the signature
/// at 48 and the message at 112.
pub open spec fn ed25519_instruction_data(
    public_key: Seq<u8>,
    signature: Seq<u8>,
    message: Seq<u8>,
) -> Seq<u8> {
    seq![1u8, 0u8] + u16_le_bytes(48u16) + u16_le_bytes(0xFFFFu16) + u16_le_bytes(16u16)
        + u16_le_bytes(0xFFFFu16) + u16_le_bytes(112u16) + u16_le_bytes(message.len() as u16)
        + u16_le_bytes(0xFFFFu16) + public_key + signature + message
}

/// The offsets record embedded in the instruction data.
#[derive(Default, Debug, Copy, Clone)]
pub struct Ed25519SignatureOffsets {
    /// Offset of the 64-byte signature.
    pub signature_offset: u16,
    /// Instruction index holding the signature.
    pub signature_instruction_index: u16,
    /// Offset of the 32-byte public key.
    pub public_key_offset: u16,
    /// Instruction index holding the public key.
    pub public_key_instruction_index: u16,
    /// Offset of the start of the message data.
    pub message_data_offset: u16,
    /// Size of the message data.
    pub message_data_size: u16,
    /// Instruction index holding the message data.
    pub message_instruction_index: u16,
}

/// Builds instructions for the Ed25519 signature verification program.
#[derive(Debug)]
pub struct Ed25519ProgramCPI {
    pub public_key: PublicKey,
    pub signature: Signature,
}

impl Ed25519ProgramCPI {
    /// A builder over the given public key, with a zero signature.
    pub fn new(public_key: PublicKey) -> (r: Self)
        ensures
            r.public_key == public_key,
            r.signature@ == Seq::new(64, |i: int| 0u8),
    {
        Ed25519ProgramCPI { public_key, signature: [0u8; 64] }
    }

    /// Replaces the signature.
    pub fn add_signature(self, signature: Signature) -> (r: Self)
        ensures
            r.public_key == self.public_key,
            r.signature == signature,
    {
        Self { signature, ..self }
    }

    /// The instruction whose data is the fixed-offset layout over this
    /// builder's key and signature and the given message.
    pub fn build(&self, message: &[u8]) -> (r: Instruction)
        requires
            message@.len() <= 0xFFFF,
        ensures
            r.program_id@ == spec_ed25519_program_id(),
            r.accounts@ == Seq::<crate::accounts::AccountMeta>::empty(),
            r.data@ == ed25519_instruction_data(self.public_key@, self.signature@, message@),
    {
        let message_size = message.len() as u16;
        let mut instruction_data: Vec<u8> = Vec::new();
        instruction_data.push(1);
        instruction_data.push(0);
        // signature_offset = 48, little-endian
        instruction_data.push(48);
        instruction_data.push(0);
        // signature_instruction_index = 0xFFFF
        instruction_data.push(0xFF);
        instruction_data.push(0xFF);
        // public_key_offset = 16
        instruction_data.push(16);
        instruction_data.push(0);
        // public_key_instruction_index = 0xFFFF
        instruction_data.push(0xFF);
        instruction_data.push(0xFF);
        // message_data_offset = 112
        instruction_data.push(112);
        instruction_data.push(0);
        // message_data_size
        instruction_data.push((message_size % 0x100) as u8);
        instruction_data.push((message_size / 0x100) as u8);
        // message_instruction_index = 0xFFFF
        instruction_data.push(0xFF);
        instruction_data.push(0xFF);

        let ghost offsets_prefix = instruction_data@;
        for i in 0..32
            invariant
                instruction_data@ == offsets_prefix + self.public_key@.take(i as int),
        {
            proof {
                assert(offsets_prefix + self.public_key@.take(i + 1) =~= (offsets_prefix
                    + self.public_key@.take(i as int)).push(self.public_key@[i as int]));
            }
            instruction_data.push(self.public_key[i]);
        }
        proof {
            assert(offsets_prefix + self.public_key@.take(32) =~= offsets_prefix
                + self.public_key@);
        }

        let ghost key_prefix = instruction_data@;
        for i in 0..64
            invariant
                instruction_data@ == key_prefix + self.signature@.take(i as int),
        {
            proof {
                assert(key_prefix + self.signature@.take(i + 1) =~= (key_prefix
                    + self.signature@.take(i as int)).push(self.signature@[i as int]));
            }
            instruction_data.push(self.signature[i]);
        }
        proof {
            assert(key_prefix + self.signature@.take(64) =~= key_prefix + self.signature@);
        }

        instruction_data.extend_from_slice(message);
        proof {
            assert(instruction_data@ =~= ed25519_instruction_data(
                self.public_key@,
                self.signature@,
                message@,
            ));
        }

        Instruction { program_id: ed25519_program_id(), accounts: Vec::new(), data: instruction_data }
    }
}

/// Building the layout is deterministic: for fixed key, signature and
/// message bytes, any two results hold identical bytes.
pub proof fn lemma_encode_deterministic(
    public_key: Seq<u8>,
    signature: Seq<u8>,
    message: Seq<u8>,
    d1: Seq<u8>,
    d2: Seq<u8>,
)
    requires
        d1 == ed25519_instruction_data(public_key, signature, message),
        d2 == ed25519_instruction_data(public_key, signature, message),
    ensures
        d1 == d2,
{
}

} // verus!
