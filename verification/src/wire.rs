//! The canonical binary form of messages and transactions: every sequence
//! prefixed by its compact length, keys and hashes as raw bytes.

use crate::compiled_instruction::CompiledInstruction;
use crate::errors::PoseidonError;
use crate::errors::PoseidonResult;
use crate::message::Message;
use crate::message::MessageHeader;
use crate::shortvec::encode_length;
use crate::shortvec::shortvec_len_bytes;
use crate::PoseidonPublicKey;
use crate::Signature;
use vstd::prelude::*;

verus! {

/// The three header counts as three raw bytes.
pub open spec fn header_bytes(h: MessageHeader) -> Seq<u8> {
    seq![h.num_required_signatures, h.num_readonly_signed_accounts, h.num_readonly_unsigned_accounts]
}

/// The account keys, each as its 32 raw bytes.
pub open spec fn keys_bytes(keys: Seq<PoseidonPublicKey>) -> Seq<u8>
    decreases keys.len(),
{
    if keys.len() == 0 {
        Seq::empty()
    } else {
        keys_bytes(keys.drop_last()) + keys.last()@
    }
}

/// One compiled instruction: the program index, then the account indices
/// and the data, each behind its compact length.
pub open spec fn compiled_instruction_bytes(ci: CompiledInstruction) -> Seq<u8> {
    seq![ci.program_id_index] + shortvec_len_bytes(ci.accounts@.len() as int) + ci.accounts@
        + shortvec_len_bytes(ci.data@.len() as int) + ci.data@
}

/// The compiled instructions, concatenated in order.
pub open spec fn instructions_bytes(instrs: Seq<CompiledInstruction>) -> Seq<u8>
    decreases instrs.len(),
{
    if instrs.len() == 0 {
        Seq::empty()
    } else {
        instructions_bytes(instrs.drop_last()) + compiled_instruction_bytes(instrs.last())
    }
}

/// A message: header, keys behind their count, blockhash, instructions
/// behind their count.
pub open spec fn message_bytes(m: Message) -> Seq<u8> {
    header_bytes(m.header) + shortvec_len_bytes(m.account_keys@.len() as int) + keys_bytes(
        m.account_keys@,
    ) + m.recent_blockhash@ + shortvec_len_bytes(m.instructions@.len() as int)
        + instructions_bytes(m.instructions@)
}

/// The signatures, each as its 64 raw bytes.
pub open spec fn signatures_bytes(sigs: Seq<Signature>) -> Seq<u8>
    decreases sigs.len(),
{
    if sigs.len() == 0 {
        Seq::empty()
    } else {
        signatures_bytes(sigs.drop_last()) + sigs.last()@
    }
}

/// Whether every count of a message fits the compact length encoding.
pub open spec fn message_encodable(m: Message) -> bool {
    &&& m.account_keys@.len() <= 0xFFFF
    &&& m.instructions@.len() <= 0xFFFF
    &&& forall|i: int|
        0 <= i < m.instructions@.len() ==> (#[trigger] m.instructions@[i]).accounts@.len()
            <= 0xFFFF && m.instructions@[i].data@.len() <= 0xFFFF
}

/// Appends the raw bytes of one 32-byte key.
fn append_key(out: &mut Vec<u8>, key: &PoseidonPublicKey)
    ensures
        final(out)@ == old(out)@ + key@,
{
    let ghost prefix = out@;
    for i in 0..32
        invariant
            out@ == prefix + key@.take(i as int),
    {
        proof {
            assert(prefix + key@.take(i + 1) =~= (prefix + key@.take(i as int)).push(
                key@[i as int],
            ));
        }
        out.push(key[i]);
    }
    proof {
        assert(prefix + key@.take(32) =~= prefix + key@);
    }
}

/// Appends one compiled instruction in its wire form.
fn append_compiled_instruction(out: &mut Vec<u8>, ci: &CompiledInstruction) -> (r: bool)
    ensures
        r == (ci.accounts@.len() <= 0xFFFF && ci.data@.len() <= 0xFFFF),
        r ==> final(out)@ == old(out)@ + compiled_instruction_bytes(*ci),
        !r ==> final(out)@ == old(out)@,
{
    if ci.accounts.len() > 0xFFFF || ci.data.len() > 0xFFFF {
        return false;
    }
    let ghost prefix = out@;
    out.push(ci.program_id_index);
    let accounts_len = encode_length(ci.accounts.len() as u16);
    out.extend_from_slice(accounts_len.as_slice());
    out.extend_from_slice(ci.accounts.as_slice());
    let data_len = encode_length(ci.data.len() as u16);
    out.extend_from_slice(data_len.as_slice());
    out.extend_from_slice(ci.data.as_slice());
    proof {
        assert(out@ =~= prefix + compiled_instruction_bytes(*ci));
    }
    true
}

impl Message {
    /// The canonical binary form of the message. Fails only where a count
    /// does not fit the compact length encoding.
    pub fn to_bytes(&self) -> (r: PoseidonResult<Vec<u8>>)
        ensures
            r is Ok <==> message_encodable(*self),
            r is Ok ==> r->Ok_0@ == message_bytes(*self),
            r is Err ==> r == Err::<Vec<u8>, PoseidonError>(PoseidonError::BincodeError),
    {
        if self.account_keys.len() > 0xFFFF || self.instructions.len() > 0xFFFF {
            return Err(PoseidonError::BincodeError);
        }
        let mut out: Vec<u8> = Vec::new();
        out.push(self.header.num_required_signatures);
        out.push(self.header.num_readonly_signed_accounts);
        out.push(self.header.num_readonly_unsigned_accounts);
        assert(out@ =~= header_bytes(self.header));

        let keys_len = encode_length(self.account_keys.len() as u16);
        out.extend_from_slice(keys_len.as_slice());
        let ghost keys_prefix = out@;
        let key_count = self.account_keys.len();
        for i in 0..key_count
            invariant
                key_count == self.account_keys@.len(),
                out@ == keys_prefix + keys_bytes(self.account_keys@.take(i as int)),
        {
            proof {
                assert(self.account_keys@.take(i + 1).drop_last() =~= self.account_keys@.take(
                    i as int,
                ));
            }
            append_key(&mut out, &self.account_keys[i]);
        }
        proof {
            assert(self.account_keys@.take(key_count as int) =~= self.account_keys@);
        }

        append_key(&mut out, &self.recent_blockhash);

        let instrs_len = encode_length(self.instructions.len() as u16);
        out.extend_from_slice(instrs_len.as_slice());
        let ghost body_prefix = out@;
        let instr_count = self.instructions.len();
        for i in 0..instr_count
            invariant
                instr_count == self.instructions@.len(),
                out@ == body_prefix + instructions_bytes(self.instructions@.take(i as int)),
                forall|t: int|
                    0 <= t < i ==> (#[trigger] self.instructions@[t]).accounts@.len() <= 0xFFFF
                        && self.instructions@[t].data@.len() <= 0xFFFF,
        {
            proof {
                assert(self.instructions@.take(i + 1).drop_last() =~= self.instructions@.take(
                    i as int,
                ));
            }
            if !append_compiled_instruction(&mut out, &self.instructions[i]) {
                return Err(PoseidonError::BincodeError);
            }
        }
        proof {
            assert(self.instructions@.take(instr_count as int) =~= self.instructions@);
        }
        assert(out@ =~= message_bytes(*self));
        Ok(out)
    }
}

} // verus!
