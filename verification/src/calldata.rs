//! The calldata decoder: raw call input to a `TransferRequest`.
//!
//! The wire layout is fixed: bytes [4, 36) hold `from` and [36, 68) hold `to`,
//! each right-aligned in a 32-byte word, and [68, 100) holds `value` as a
//! big-endian 256-bit unsigned integer. Input shorter than 100 bytes is
//! rejected before any field is read; trailing bytes beyond 100 are ignored.
//! The upper 12 bytes of each address word are dropped without being checked,
//! behaviour inherited from address truncation.

use crate::uint256::{be_nat, U256};
use vstd::prelude::*;

verus! {

/// A 20-byte account address.
#[derive(Clone, Debug)]
pub struct Address {
    pub bytes: Vec<u8>,
}

impl Address {
    /// A well-formed address holds exactly 20 bytes.
    pub open spec fn wf(&self) -> bool {
        self.bytes@.len() == 20
    }

    /// A copy of the address holding the same bytes.
    pub fn duplicate(&self) -> (r: Address)
        ensures
            r.bytes@ == self.bytes@,
    {
        proof {
            assert(self.bytes@.subrange(0, self.bytes@.len() as int) =~= self.bytes@);
        }
        Address { bytes: copy_range(&self.bytes, 0, self.bytes.len()) }
    }
}

/// Why decoding failed: the input cannot hold the three fields.
#[derive(Clone, Copy, Debug, PartialEq, Eq, Structural)]
pub enum DecodeError {
    TooShort,
}

/// The decoded form of a transfer invocation.
#[derive(Clone, Debug)]
pub struct TransferRequest {
    pub from: Address,
    pub to: Address,
    pub value: U256,
}

impl TransferRequest {
    pub open spec fn wf(&self) -> bool {
        self.from.wf() && self.to.wf()
    }
}

/// The 20 address bytes of the `from` word: the word occupies [4, 36) and its
/// upper 12 bytes are dropped.
pub open spec fn from_address_bytes(input: Seq<u8>) -> Seq<u8> {
    input.subrange(16, 36)
}

/// The 20 address bytes of the `to` word, at [36, 68) with the upper 12
/// bytes dropped.
pub open spec fn to_address_bytes(input: Seq<u8>) -> Seq<u8> {
    input.subrange(48, 68)
}

/// The 32 bytes of the `value` word, at [68, 100).
pub open spec fn value_bytes(input: Seq<u8>) -> Seq<u8> {
    input.subrange(68, 100)
}

/// Copies `input[start..end]` into a fresh vector.
fn copy_range(input: &Vec<u8>, start: usize, end: usize) -> (r: Vec<u8>)
    requires
        start <= end,
        end <= input@.len(),
    ensures
        r@ == input@.subrange(start as int, end as int),
{
    let mut r: Vec<u8> = Vec::new();
    let mut i: usize = start;
    while i < end
        invariant
            start <= i <= end,
            end <= input@.len(),
            r@ == input@.subrange(start as int, i as int),
        decreases end - i,
    {
        proof {
            assert(input.len() == input@.len());
            assert(input@.subrange(start as int, i as int).push(input@[i as int]) =~= input@
                .subrange(start as int, i as int + 1));
        }
        r.push(input[i]);
        i = i + 1;
    }
    r
}

/// Decodes raw calldata into a transfer request.
///
/// Fails exactly when the input is shorter than 100 bytes, and then no field
/// is formed. Otherwise the three fixed-offset fields are extracted; the
/// decoding is pure, deterministic, and blind to trailing bytes.
pub fn decode(input: &Vec<u8>) -> (r: Result<TransferRequest, DecodeError>)
    ensures
        r is Ok <==> input@.len() >= 100,
        r matches Err(e) ==> e == DecodeError::TooShort,
        r matches Ok(req) ==> req.wf() && req.from.bytes@ == from_address_bytes(input@)
            && req.to.bytes@ == to_address_bytes(input@) && req.value.as_nat() == be_nat(
            value_bytes(input@),
        ),
{
    if input.len() < 100 {
        return Err(DecodeError::TooShort);
    }
    let from = Address { bytes: copy_range(input, 16, 36) };
    let to = Address { bytes: copy_range(input, 48, 68) };
    let value = U256::from_be_bytes_at(input, 68);
    Ok(TransferRequest { from, to, value })
}

/// Decoding reads only the first 100 bytes: two inputs that agree on them
/// decode to the same three fields, whatever follows.
pub proof fn lemma_decode_ignores_trailing(a: Seq<u8>, b: Seq<u8>)
    requires
        a.len() >= 100,
        b.len() >= 100,
        a.subrange(0, 100) == b.subrange(0, 100),
    ensures
        from_address_bytes(a) == from_address_bytes(b),
        to_address_bytes(a) == to_address_bytes(b),
        value_bytes(a) == value_bytes(b),
{
    assert(from_address_bytes(a) =~= a.subrange(0, 100).subrange(16, 36));
    assert(from_address_bytes(b) =~= b.subrange(0, 100).subrange(16, 36));
    assert(to_address_bytes(a) =~= a.subrange(0, 100).subrange(48, 68));
    assert(to_address_bytes(b) =~= b.subrange(0, 100).subrange(48, 68));
    assert(value_bytes(a) =~= a.subrange(0, 100).subrange(68, 100));
    assert(value_bytes(b) =~= b.subrange(0, 100).subrange(68, 100));
}

} // verus!
