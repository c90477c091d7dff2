use celo_precompile::calldata::{decode, DecodeError, TransferRequest};
use celo_precompile::precompile::{
    fixed_output, precompile_call, registered_precompiles, PrecompileError,
};
use celo_precompile::protocol::{
    make_plan, mutation_calls, FailureKind, ProtocolAction, ProtocolEvent, ProtocolState,
    SetBalanceCall, TransferOutcome, TransferProtocol,
};
use celo_precompile::uint256::U256;

fn addr_a() -> Vec<u8> {
    let mut a = vec![0xAAu8; 20];
    a[19] = 0x01;
    a
}

fn addr_b() -> Vec<u8> {
    let mut b = vec![0xBBu8; 20];
    b[19] = 0x02;
    b
}

/// Calldata with `from` = addr_a, `to` = addr_b, `value` = the given u64,
/// plus any trailing bytes.
fn calldata(value: u64, trailing: &[u8]) -> Vec<u8> {
    let mut data = vec![0u8; 100];
    data[16..36].copy_from_slice(&addr_a());
    data[48..68].copy_from_slice(&addr_b());
    data[92..100].copy_from_slice(&value.to_be_bytes());
    data.extend_from_slice(trailing);
    data
}

fn decoded(value: u64) -> TransferRequest {
    decode(&calldata(value, &[])).expect("calldata of 100 bytes must decode")
}

/// Drives one whole transfer, recording every issued mutation, and returns
/// the recorded writes and the final outcome. `balances` is what the balance
/// queries report, or `None` for a query failure; `write_results` are the
/// acknowledgements of successive writes.
fn run_protocol(
    request: TransferRequest,
    balances: Option<(u64, u64)>,
    write_results: &[bool],
) -> (Vec<SetBalanceCall>, TransferOutcome) {
    let (mut protocol, first) = TransferProtocol::launch(request);
    match first {
        ProtocolAction::QueryBalances { .. } => {}
        _ => panic!("the first action must query the balances"),
    }
    let mut writes: Vec<SetBalanceCall> = Vec::new();
    let mut acks = write_results.iter();
    let mut event = match balances {
        Some((from_balance, to_balance)) => ProtocolEvent::BalancesRead {
            balance_from: U256::from_u64(from_balance),
            balance_to: U256::from_u64(to_balance),
        },
        None => ProtocolEvent::QueryFailed,
    };
    loop {
        match protocol.step(&event) {
            ProtocolAction::WriteBalance { call } => {
                writes.push(call);
                let ok = *acks.next().expect("a write needs an acknowledgement");
                event = if ok { ProtocolEvent::WriteOk } else { ProtocolEvent::WriteFailed };
            }
            ProtocolAction::Finish { outcome } => return (writes, outcome),
            ProtocolAction::QueryBalances { .. } => panic!("balances are queried only once"),
        }
    }
}

#[test]
fn decode_rejects_short_calldata() {
    assert_eq!(decode(&vec![]).unwrap_err(), DecodeError::TooShort);
    assert_eq!(decode(&vec![0u8; 99]).unwrap_err(), DecodeError::TooShort);
    assert!(decode(&vec![0u8; 100]).is_ok());
}

#[test]
fn decode_extracts_the_three_fixed_offset_words() {
    let req = decoded(50);
    assert_eq!(req.from.bytes, addr_a());
    assert_eq!(req.to.bytes, addr_b());
    assert_eq!(req.value, U256::from_u64(50));
}

#[test]
fn decode_ignores_trailing_bytes() {
    let plain = decode(&calldata(7, &[])).unwrap();
    let noisy = decode(&calldata(7, &[0xDE, 0xAD, 0xBE, 0xEF])).unwrap();
    assert_eq!(plain.from.bytes, noisy.from.bytes);
    assert_eq!(plain.to.bytes, noisy.to.bytes);
    assert_eq!(plain.value, noisy.value);
}

#[test]
fn decode_truncates_address_word_high_bytes() {
    let mut data = calldata(1, &[]);
    data[4] = 0xFF;
    data[36] = 0xFF;
    let req = decode(&data).unwrap();
    assert_eq!(req.from.bytes, addr_a());
    assert_eq!(req.to.bytes, addr_b());
}

#[test]
fn make_plan_admits_only_covered_transfers() {
    let plan = make_plan(&U256::from_u64(100), &U256::from_u64(10), &U256::from_u64(50))
        .expect("a covered transfer is admitted");
    assert_eq!(plan.from_new, U256::from_u64(50));
    assert_eq!(plan.to_new, U256::from_u64(60));
    assert!(make_plan(&U256::from_u64(10), &U256::from_u64(10), &U256::from_u64(50)).is_none());
    assert!(make_plan(&U256::from_u64(50), &U256::from_u64(0), &U256::from_u64(50)).is_some());
}

#[test]
fn covered_transfer_issues_exactly_the_two_writes() {
    let calls = mutation_calls(&decoded(50), &U256::from_u64(100), &U256::from_u64(10));
    assert_eq!(calls.len(), 2);
    assert_eq!(calls[0].address.bytes, addr_a());
    assert_eq!(calls[0].new_balance, U256::from_u64(50));
    assert_eq!(calls[1].address.bytes, addr_b());
    assert_eq!(calls[1].new_balance, U256::from_u64(60));
}

#[test]
fn covered_transfer_conserves_the_total() {
    let from_old: u64 = 100;
    let to_old: u64 = 10;
    let calls = mutation_calls(&decoded(50), &U256::from_u64(from_old), &U256::from_u64(to_old));
    let from_new = calls[0].new_balance.lo;
    let to_new = calls[1].new_balance.lo;
    assert_eq!(from_new + to_new, (from_old + to_old) as u128);
}

#[test]
fn uncovered_transfer_issues_no_writes() {
    let calls = mutation_calls(&decoded(50), &U256::from_u64(10), &U256::from_u64(10));
    assert_eq!(calls.len(), 0);
}

#[test]
fn self_transfer_writes_cancel_arithmetically() {
    let mut data = calldata(50, &[]);
    let a = addr_a();
    data[48..68].copy_from_slice(&a);
    let req = decode(&data).unwrap();
    assert_eq!(req.from.bytes, req.to.bytes);
    let balance: u64 = 100;
    let calls = mutation_calls(&req, &U256::from_u64(balance), &U256::from_u64(balance));
    assert_eq!(calls.len(), 2);
    let debit_delta = (balance as u128) - calls[0].new_balance.lo;
    let credit_delta = calls[1].new_balance.lo - (balance as u128);
    assert_eq!(debit_delta, 50);
    assert_eq!(credit_delta, 50);
    assert_eq!(calls[0].new_balance.lo + calls[1].new_balance.lo, 2 * balance as u128);
}

#[test]
fn protocol_applies_a_covered_transfer() {
    let (writes, outcome) = run_protocol(decoded(50), Some((100, 10)), &[true, true]);
    assert_eq!(outcome, TransferOutcome::Applied);
    assert_eq!(writes.len(), 2);
    assert_eq!(writes[0].address.bytes, addr_a());
    assert_eq!(writes[0].new_balance, U256::from_u64(50));
    assert_eq!(writes[1].address.bytes, addr_b());
    assert_eq!(writes[1].new_balance, U256::from_u64(60));
}

#[test]
fn protocol_mutates_nothing_on_insufficient_funds() {
    let (writes, outcome) = run_protocol(decoded(50), Some((10, 10)), &[]);
    assert_eq!(outcome, TransferOutcome::InsufficientFunds);
    assert_eq!(writes.len(), 0);
}

#[test]
fn protocol_fails_without_writes_when_a_query_fails() {
    let (writes, outcome) = run_protocol(decoded(50), None, &[]);
    assert_eq!(outcome, TransferOutcome::Failed(FailureKind::QueryFailed));
    assert_eq!(writes.len(), 0);
}

#[test]
fn protocol_reports_a_failed_debit() {
    let (writes, outcome) = run_protocol(decoded(50), Some((100, 10)), &[false]);
    assert_eq!(outcome, TransferOutcome::Failed(FailureKind::DebitFailed));
    assert_eq!(writes.len(), 1);
}

#[test]
fn protocol_reports_a_partially_applied_transfer() {
    let (writes, outcome) = run_protocol(decoded(50), Some((100, 10)), &[true, false]);
    assert_eq!(outcome, TransferOutcome::Failed(FailureKind::PartiallyApplied));
    assert_eq!(writes.len(), 2);
    assert_eq!(writes[0].new_balance, U256::from_u64(50));
}

#[test]
fn protocol_state_tracks_completion() {
    let (mut protocol, _) = TransferProtocol::launch(decoded(50));
    assert_eq!(protocol.state, ProtocolState::QueryingBalances);
    protocol.step(&ProtocolEvent::QueryFailed);
    assert_eq!(
        protocol.state,
        ProtocolState::Done { outcome: TransferOutcome::Failed(FailureKind::QueryFailed) }
    );
}

#[test]
fn entry_point_rejects_short_calldata() {
    assert_eq!(
        precompile_call(&vec![0u8; 99], 30_000_000).unwrap_err(),
        PrecompileError::MissingFields
    );
}

#[test]
fn entry_point_returns_the_fixed_outcome_before_any_transfer_runs() {
    let (outcome, request) = precompile_call(&calldata(50, &[]), 30_000_000).unwrap();
    assert_eq!(outcome.gas_used, 0);
    assert_eq!(outcome.output, fixed_output());
    assert_eq!(request.from.bytes, addr_a());
    assert_eq!(request.to.bytes, addr_b());
    assert_eq!(request.value, U256::from_u64(50));
    let (other, _) = precompile_call(&calldata(9_999, &[1, 2, 3]), 0).unwrap();
    assert_eq!(other.gas_used, 0);
    assert_eq!(other.output, outcome.output);
}

#[test]
fn fixed_output_is_the_expected_constant() {
    let out = fixed_output();
    assert_eq!(out.len(), 69);
    assert_eq!(out[0], 0x7f);
    assert_eq!(&out[1..32], &[0xffu8; 31][..]);
    assert_eq!(out[68], 0xf3);
}

#[test]
fn registry_exposes_one_precompile_at_the_fixed_address() {
    let addresses = registered_precompiles();
    assert_eq!(addresses.len(), 1);
    let mut expected = vec![0u8; 20];
    expected[19] = 0x71;
    assert_eq!(addresses[0].bytes, expected);
}
