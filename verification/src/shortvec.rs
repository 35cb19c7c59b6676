//! The compact length prefix of the wire format: a count encoded in one to
//! three bytes, seven bits at a time, low bits first, the high bit of a
//! byte marking that another byte follows.

use vstd::prelude::*;

verus! {

/// The compact encoding of a count.
pub open spec fn shortvec_len_bytes(n: int) -> Seq<u8>
    decreases n,
{
    if n < 0x80 {
        seq![n as u8]
    } else {
        seq![(n % 0x80 + 0x80) as u8] + shortvec_len_bytes(n / 0x80)
    }
}

/// Encodes a count as its compact length prefix.
pub fn encode_length(value: u16) -> (r: Vec<u8>)
    ensures
        r@ == shortvec_len_bytes(value as int),
{
    let mut out: Vec<u8> = Vec::new();
    if value < 0x80 {
        out.push(value as u8);
        assert(out@ =~= shortvec_len_bytes(value as int));
    } else if value < 0x4000 {
        out.push((value % 0x80 + 0x80) as u8);
        out.push((value / 0x80) as u8);
        proof {
            let n = value as int;
            assert(shortvec_len_bytes(n / 0x80) =~= seq![(n / 0x80) as u8]);
            assert(out@ =~= shortvec_len_bytes(n));
        }
    } else {
        out.push((value % 0x80 + 0x80) as u8);
        out.push(((value / 0x80) % 0x80 + 0x80) as u8);
        out.push((value / 0x4000) as u8);
        proof {
            let n = value as int;
            assert(n / 0x80 / 0x80 == n / 0x4000) by (nonlinear_arith)
                requires
                    0x4000 <= n < 0x10000,
            ;
            assert(shortvec_len_bytes(n / 0x80 / 0x80) =~= seq![(n / 0x80 / 0x80) as u8]);
            assert(shortvec_len_bytes(n / 0x80) =~= seq![(n / 0x80 % 0x80 + 0x80) as u8]
                + shortvec_len_bytes(n / 0x80 / 0x80));
            assert(out@ =~= shortvec_len_bytes(n));
        }
    }
    out
}

} // verus!
