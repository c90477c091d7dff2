//! The verified half of the admin RPC client: the reply envelope's data and
//! the parsing of hex-encoded balances.
//!
//! The node answers a balance query with a JSON envelope whose `result` field
//! is a hex string: a two-byte `0x` prefix followed by hexadecimal digits of
//! arbitrary length. The transport that sends requests and receives envelopes
//! is outside the library; it hands the `result` field in as plain bytes.

use crate::uint256::{u256_bound, U256};
use vstd::prelude::*;

verus! {

/// How a balance query or mutation fails: the transport did not deliver a
/// reply, or the reply could not be read as a hex-encoded integer.
#[derive(Clone, Copy, Debug, PartialEq, Eq, Structural)]
pub enum RpcError {
    Transport,
    Parse,
}

/// The JSON-RPC reply envelope for a balance query. The `result` field holds
/// the hex-encoded balance; the other fields are carried but not interpreted.
pub struct BalanceResponse {
    pub jsonrpc: String,
    pub id: i64,
    pub result: String,
}

/// An ASCII hexadecimal digit, either case.
pub open spec fn is_hex_digit(b: u8) -> bool {
    (48 <= b <= 57) || (97 <= b <= 102) || (65 <= b <= 70)
}

/// The value of an ASCII hexadecimal digit.
pub open spec fn hex_digit_value(b: u8) -> nat {
    if 48 <= b <= 57 {
        (b - 48) as nat
    } else if 97 <= b <= 102 {
        (b - 87) as nat
    } else {
        (b - 55) as nat
    }
}

/// A well-formed digit string: hexadecimal digits with underscores allowed
/// as separators, as the node's integer parser accepts them.
pub open spec fn hex_str_wf(s: Seq<u8>) -> bool {
    forall|i: int| 0 <= i < s.len() ==> is_hex_digit(#[trigger] s[i]) || s[i] == 95
}

/// The value of a digit string read as big-endian base 16, skipping
/// underscore separators. The empty string denotes zero.
pub open spec fn hex_str_nat(s: Seq<u8>) -> nat
    decreases s.len(),
{
    if s.len() == 0 {
        0
    } else if s.last() == 95 {
        hex_str_nat(s.drop_last())
    } else {
        hex_str_nat(s.drop_last()) * 16 + hex_digit_value(s.last())
    }
}

/// A prefix of a digit string never denotes more than the whole string.
pub proof fn lemma_hex_prefix_le(s: Seq<u8>, j: int)
    requires
        0 <= j <= s.len(),
    ensures
        hex_str_nat(s.take(j)) <= hex_str_nat(s),
    decreases s.len() - j,
{
    if j < s.len() {
        lemma_hex_prefix_le(s, j + 1);
        assert(s.take(j + 1).drop_last() =~= s.take(j));
        assert(hex_str_nat(s.take(j)) <= hex_str_nat(s.take(j + 1)));
    } else {
        assert(s.take(j) =~= s);
    }
}

/// Reads one ASCII byte as a hexadecimal digit.
fn decode_hex_digit(b: u8) -> (r: Option<u8>)
    ensures
        match r {
            Some(d) => is_hex_digit(b) && d == hex_digit_value(b) && d < 16,
            None => !is_hex_digit(b),
        },
{
    if 48 <= b && b <= 57 {
        Some(b - 48)
    } else if 97 <= b && b <= 102 {
        Some(b - 87)
    } else if 65 <= b && b <= 70 {
        Some(b - 55)
    } else {
        None
    }
}

/// Parses the `result` field of a balance reply: two prefix bytes (the `0x`,
/// which is skipped without inspection, as the node's own parser skips it)
/// followed by the hex digits of the balance.
///
/// Succeeds exactly on replies long enough to carry the prefix whose digit
/// part is well-formed hex and denotes a value below 2^256; everything else
/// is a parse error. An empty digit part denotes zero.
pub fn parse_hex_balance(bytes: &Vec<u8>) -> (r: Result<U256, RpcError>)
    ensures
        r is Ok <==> (bytes@.len() >= 2 && hex_str_wf(bytes@.skip(2)) && hex_str_nat(bytes@.skip(2))
            < u256_bound()),
        r matches Ok(v) ==> v.as_nat() == hex_str_nat(bytes@.skip(2)),
        r matches Err(e) ==> e == RpcError::Parse,
{
    if bytes.len() < 2 {
        return Err(RpcError::Parse);
    }
    let ghost tail = bytes@.skip(2);
    let mut acc = U256::zero();
    let mut i: usize = 2;
    while i < bytes.len()
        invariant
            2 <= i <= bytes@.len(),
            bytes@.len() >= 2,
            tail == bytes@.skip(2),
            hex_str_wf(tail.take(i - 2)),
            acc.as_nat() == hex_str_nat(tail.take(i - 2)),
            acc.as_nat() < u256_bound(),
        decreases bytes@.len() - i,
    {
        let b = bytes[i];
        proof {
            assert(tail[i - 2] == bytes@[i as int]);
            assert(tail.take(i - 2 + 1).drop_last() =~= tail.take(i - 2));
        }
        if b == 95 {
            // an underscore separator: no digit, no value change
        } else {
            match decode_hex_digit(b) {
                None => {
                    proof {
                        assert(!hex_str_wf(tail));
                    }
                    return Err(RpcError::Parse);
                },
                Some(d) => {
                    if acc.hi >= 0x1000_0000_0000_0000_0000_0000_0000_0000 {
                        proof {
                            assert(acc.as_nat() * 16 >= u256_bound());
                            assert(hex_str_nat(tail.take(i - 2 + 1)) >= u256_bound());
                            lemma_hex_prefix_le(tail, i - 2 + 1);
                        }
                        return Err(RpcError::Parse);
                    }
                    acc = acc.shl4_add(d);
                },
            }
        }
        i = i + 1;
    }
    proof {
        assert(tail.take(i - 2) =~= tail);
    }
    Ok(acc)
}

} // verus!
