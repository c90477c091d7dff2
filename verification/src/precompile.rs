//! The precompile entry point and the registry adapter.
//!
//! The entry point is what the node's dispatcher calls. It validates the
//! calldata length, decodes the transfer request, and returns its fixed
//! result at once: the transfer protocol is handed back to the caller to run
//! detached, so the synchronous result never depends on any network call. The
//! returned output is a constant byte blob, not derived from the request, and
//! the declared gas cost is zero; gas is accounted by the dispatcher itself.

use crate::calldata::{self, DecodeError, TransferRequest};
use crate::calldata::Address;
use vstd::prelude::*;

verus! {

/// Why the entry point failed: the calldata cannot hold `from`, `to` and
/// `value`. Reported synchronously to the dispatcher.
#[derive(Clone, Copy, Debug, PartialEq, Eq, Structural)]
pub enum PrecompileError {
    MissingFields,
}

/// The fixed synchronous result: a declared gas cost of zero and a constant
/// output blob.
#[derive(Clone, Debug)]
pub struct PrecompileOutcome {
    pub gas_used: u64,
    pub output: Vec<u8>,
}

/// The constant output blob the entry point always returns.
pub open spec fn fixed_output_bytes() -> Seq<u8> {
    seq![
        0x7fu8, 0xff, 0xff, 0xff, 0xff, 0xff, 0xff, 0xff, 0xff, 0xff, 0xff, 0xff, 0xff, 0xff,
        0xff, 0xff, 0xff, 0xff, 0xff, 0xff, 0xff, 0xff, 0xff, 0xff, 0xff, 0xff, 0xff, 0xff,
        0xff, 0xff, 0xff, 0xff, 0xe0, 0x36, 0x01, 0x60, 0x00, 0x81, 0x60, 0x20, 0x82, 0x37,
        0x80, 0x35, 0x82, 0x82, 0x34, 0xf5, 0x80, 0x15, 0x15, 0x60, 0x39, 0x57, 0x81, 0x82,
        0xfd, 0x5b, 0x80, 0x82, 0x52, 0x50, 0x50, 0x50, 0x60, 0x14, 0x60, 0x0c, 0xf3,
    ]
}

/// Builds the constant output blob.
pub fn fixed_output() -> (r: Vec<u8>)
    ensures
        r@ == fixed_output_bytes(),
{
    let r: Vec<u8> = vec![
        0x7f, 0xff, 0xff, 0xff, 0xff, 0xff, 0xff, 0xff, 0xff, 0xff, 0xff, 0xff, 0xff, 0xff,
        0xff, 0xff, 0xff, 0xff, 0xff, 0xff, 0xff, 0xff, 0xff, 0xff, 0xff, 0xff, 0xff, 0xff,
        0xff, 0xff, 0xff, 0xff, 0xe0, 0x36, 0x01, 0x60, 0x00, 0x81, 0x60, 0x20, 0x82, 0x37,
        0x80, 0x35, 0x82, 0x82, 0x34, 0xf5, 0x80, 0x15, 0x15, 0x60, 0x39, 0x57, 0x81, 0x82,
        0xfd, 0x5b, 0x80, 0x82, 0x52, 0x50, 0x50, 0x50, 0x60, 0x14, 0x60, 0x0c, 0xf3,
    ];
    proof {
        assert(r@ =~= fixed_output_bytes());
    }
    r
}

/// The precompile entry point.
///
/// Rejects calldata shorter than 100 bytes. Otherwise it decodes the request
/// and returns at once: the fixed outcome for the dispatcher, and the decoded
/// request for the caller to launch as a detached transfer. The outcome is
/// the same whatever the request says and whatever later happens to the
/// transfer; the gas limit is not inspected, as gas is charged externally.
pub fn precompile_call(input: &Vec<u8>, _gas_limit: u64) -> (r: Result<
    (PrecompileOutcome, TransferRequest),
    PrecompileError,
>)
    ensures
        r is Ok <==> input@.len() >= 100,
        r matches Err(e) ==> e == PrecompileError::MissingFields,
        r matches Ok((outcome, request)) ==> outcome.gas_used == 0 && outcome.output@
            == fixed_output_bytes() && request.wf() && request.from.bytes@
            == calldata::from_address_bytes(input@) && request.to.bytes@
            == calldata::to_address_bytes(input@) && request.value.as_nat()
            == crate::uint256::be_nat(calldata::value_bytes(input@)),
{
    match calldata::decode(input) {
        Err(DecodeError::TooShort) => Err(PrecompileError::MissingFields),
        Ok(request) => Ok((PrecompileOutcome { gas_used: 0, output: fixed_output() }, request)),
    }
}

/// The fixed address the precompile is registered under.
pub open spec fn precompile_address_bytes() -> Seq<u8> {
    seq![0u8, 0, 0, 0, 0, 0, 0, 0, 0, 0, 0, 0, 0, 0, 0, 0, 0, 0, 0, 0x71]
}

/// Builds the registration address.
pub fn precompile_address() -> (r: Address)
    ensures
        r.bytes@ == precompile_address_bytes(),
        r.wf(),
{
    let bytes: Vec<u8> = vec![0u8, 0, 0, 0, 0, 0, 0, 0, 0, 0, 0, 0, 0, 0, 0, 0, 0, 0, 0, 0x71];
    proof {
        assert(bytes@ =~= precompile_address_bytes());
    }
    Address { bytes }
}

/// The registry adapter: the addresses this core registers, each to be bound
/// to the entry point by the dispatcher. Exactly one precompile is exposed.
pub fn registered_precompiles() -> (r: Vec<Address>)
    ensures
        r@.len() == 1,
        r@[0].bytes@ == precompile_address_bytes(),
{
    let mut r: Vec<Address> = Vec::new();
    r.push(precompile_address());
    r
}

} // verus!
