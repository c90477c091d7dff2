use celo_precompile::rpc::{parse_hex_balance, RpcError};
use celo_precompile::uint256::U256;

fn hex_reply(s: &str) -> Vec<u8> {
    s.as_bytes().to_vec()
}

#[test]
fn word_comparison_orders_numerically() {
    let five = U256::from_u64(5);
    let seven = U256::from_u64(7);
    assert!(five.lt(&seven));
    assert!(!seven.lt(&five));
    assert!(!five.lt(&five));
    let high = U256 { hi: 1, lo: 0 };
    let low = U256 { hi: 0, lo: u128::MAX };
    assert!(low.lt(&high));
    assert!(!high.lt(&low));
}

#[test]
fn word_add_and_sub_are_exact() {
    let a = U256::from_u64(100);
    let b = U256::from_u64(50);
    assert_eq!(a.wrapping_add(&b), U256::from_u64(150));
    assert_eq!(a.sub(&b), U256::from_u64(50));
    assert_eq!(a.sub(&a), U256::zero());
}

#[test]
fn word_add_carries_between_halves() {
    let a = U256 { hi: 0, lo: u128::MAX };
    let one = U256::from_u64(1);
    assert_eq!(a.wrapping_add(&one), U256 { hi: 1, lo: 0 });
    let b = U256 { hi: 3, lo: 7 };
    assert_eq!(b.sub(&U256 { hi: 0, lo: 9 }), U256 { hi: 2, lo: u128::MAX - 1 });
}

#[test]
fn word_add_wraps_at_two_to_the_256() {
    let max = U256 { hi: u128::MAX, lo: u128::MAX };
    let one = U256::from_u64(1);
    assert_eq!(max.wrapping_add(&one), U256::zero());
    assert_eq!(max.wrapping_add(&U256::from_u64(5)), U256::from_u64(4));
}

#[test]
fn word_from_be_bytes_reads_big_endian() {
    let mut bytes = vec![0u8; 32];
    bytes[30] = 0x01;
    bytes[31] = 0x02;
    let w = U256::from_be_bytes_at(&bytes, 0);
    assert_eq!(w, U256::from_u64(0x0102));
    let mut high = vec![0u8; 32];
    high[0] = 0x80;
    let h = U256::from_be_bytes_at(&high, 0);
    assert_eq!(h, U256 { hi: 0x8000_0000_0000_0000_0000_0000_0000_0000u128, lo: 0 });
}

#[test]
fn parse_hex_balance_reads_hex_values() {
    assert_eq!(parse_hex_balance(&hex_reply("0x64")), Ok(U256::from_u64(100)));
    assert_eq!(parse_hex_balance(&hex_reply("0x0")), Ok(U256::zero()));
    assert_eq!(parse_hex_balance(&hex_reply("0xFF")), Ok(U256::from_u64(255)));
    assert_eq!(parse_hex_balance(&hex_reply("0xff")), Ok(U256::from_u64(255)));
}

#[test]
fn parse_hex_balance_accepts_empty_digits_as_zero() {
    assert_eq!(parse_hex_balance(&hex_reply("0x")), Ok(U256::zero()));
}

#[test]
fn parse_hex_balance_skips_underscores() {
    assert_eq!(parse_hex_balance(&hex_reply("0x6_4")), Ok(U256::from_u64(0x64)));
}

#[test]
fn parse_hex_balance_rejects_short_or_malformed_replies() {
    assert_eq!(parse_hex_balance(&hex_reply("")), Err(RpcError::Parse));
    assert_eq!(parse_hex_balance(&hex_reply("0")), Err(RpcError::Parse));
    assert_eq!(parse_hex_balance(&hex_reply("0xzz")), Err(RpcError::Parse));
    assert_eq!(parse_hex_balance(&hex_reply("0x12 34")), Err(RpcError::Parse));
}

#[test]
fn parse_hex_balance_bounds_values_at_two_to_the_256() {
    let max = format!("0x{}", "f".repeat(64));
    assert_eq!(
        parse_hex_balance(&hex_reply(&max)),
        Ok(U256 { hi: u128::MAX, lo: u128::MAX })
    );
    let over = format!("0x1{}", "0".repeat(64));
    assert_eq!(parse_hex_balance(&hex_reply(&over)), Err(RpcError::Parse));
    let padded = format!("0x{}1", "0".repeat(70));
    assert_eq!(parse_hex_balance(&hex_reply(&padded)), Ok(U256::from_u64(1)));
}
