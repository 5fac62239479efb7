//! The argument encoding used for call payloads handed to the execution
//! environment: fixed-width little-endian byte strings, one field after
//! another.

use vstd::prelude::*;

use crate::identity::{AccountId, Balance};

verus! {

/// The little-endian byte string of a 64-bit value.
pub open spec fn u64_le_bytes(v: u64) -> Seq<u8> {
    seq![
        (v % 256) as u8,
        ((v / 256) % 256) as u8,
        ((v / 65536) % 256) as u8,
        ((v / 16777216) % 256) as u8,
        ((v / 4294967296) % 256) as u8,
        ((v / 1099511627776) % 256) as u8,
        ((v / 281474976710656) % 256) as u8,
        ((v / 72057594037927936) % 256) as u8,
    ]
}

/// The payload encoding of an account reference.
pub open spec fn account_bytes(a: AccountId) -> Seq<u8> {
    u64_le_bytes(a.0)
}

/// The little-endian byte string of a 128-bit value, and so the payload
/// encoding of a balance.
pub open spec fn balance_bytes(v: Balance) -> Seq<u8> {
    u64_le_bytes((v % 18446744073709551616) as u64) + u64_le_bytes(
        (v / 18446744073709551616) as u64,
    )
}

/// Append the little-endian bytes of `v` to `out`.
pub fn encode_u64(v: u64, out: &mut Vec<u8>)
    ensures
        final(out)@ == old(out)@ + u64_le_bytes(v),
{
    out.push((v % 256) as u8);
    out.push(((v / 256) % 256) as u8);
    out.push(((v / 65536) % 256) as u8);
    out.push(((v / 16777216) % 256) as u8);
    out.push(((v / 4294967296) % 256) as u8);
    out.push(((v / 1099511627776) % 256) as u8);
    out.push(((v / 281474976710656) % 256) as u8);
    out.push(((v / 72057594037927936) % 256) as u8);
    proof {
        assert(out@ =~= old(out)@ + u64_le_bytes(v));
    }
}

/// Append the payload encoding of an account reference to `out`.
pub fn encode_account(a: AccountId, out: &mut Vec<u8>)
    ensures
        final(out)@ == old(out)@ + account_bytes(a),
{
    encode_u64(a.0, out);
}

/// Append the payload encoding of a balance to `out`.
pub fn encode_balance(v: Balance, out: &mut Vec<u8>)
    ensures
        final(out)@ == old(out)@ + balance_bytes(v),
{
    encode_u64((v % 18446744073709551616) as u64, out);
    encode_u64((v / 18446744073709551616) as u64, out);
    proof {
        assert(out@ =~= old(out)@ + balance_bytes(v));
    }
}

} // verus!
