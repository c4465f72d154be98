use manta_signer::decimal::amount_text;

#[test]
fn single_digits() {
    assert_eq!(amount_text(0), "0");
    assert_eq!(amount_text(7), "7");
    assert_eq!(amount_text(9), "9");
}

#[test]
fn several_digits() {
    assert_eq!(amount_text(10), "10");
    assert_eq!(amount_text(1_000_000_000_000), "1000000000000");
    assert_eq!(amount_text(1_234_567_890), "1234567890");
}

#[test]
fn largest_amount() {
    assert_eq!(amount_text(u128::MAX), "340282366920938463463374607431768211455");
}

#[test]
fn amounts_read_back() {
    for amount in [0u128, 1, 10, 99, 100, 101, 65_536, u64::MAX as u128, u128::MAX - 1] {
        assert_eq!(amount_text(amount).parse::<u128>(), Ok(amount));
        assert_eq!(amount_text(amount), amount.to_string());
    }
}
