use typestate_pattern_usecase::monitors::common::format_supply;
use typestate_pattern_usecase::monitors::decimal::{
    div_ten, increment, is_odd, is_zero, round_to_hundredths,
};
use typestate_pattern_usecase::monitors::types::StablecoinMetrics;

const WIDEST: [u64; 4] = [u64::MAX, u64::MAX, u64::MAX, u64::MAX];

fn wide(value: u128) -> [u64; 4] {
    [value as u64, (value >> 64) as u64, 0, 0]
}

fn metric(name: &str, total_supply: u128, decimals: u8) -> StablecoinMetrics {
    StablecoinMetrics { name: name.to_string(), total_supply: wide(total_supply), decimals }
}

fn wide_amount(total_supply: [u64; 4], decimals: u8) -> String {
    let lines =
        format_supply(&[StablecoinMetrics { name: "X".to_string(), total_supply, decimals }]);
    assert_eq!(lines.len(), 1);
    let line = lines[0].clone();
    assert!(line.starts_with("X Supply: $"));
    line["X Supply: $".len()..].to_string()
}

fn amount(total_supply: u128, decimals: u8) -> String {
    wide_amount(wide(total_supply), decimals)
}

#[test]
fn formats_two_assets_to_two_fractional_digits() {
    let metrics = vec![metric("USDT", 1_500_000, 6), metric("USDC", 2_750_000_000, 9)];
    let lines = format_supply(&metrics);
    assert_eq!(lines, vec!["USDT Supply: $1.50".to_string(), "USDC Supply: $2.75".to_string()]);
}

#[test]
fn formats_nothing_as_no_lines() {
    let lines = format_supply(&[]);
    assert!(lines.is_empty());
}

#[test]
fn keeps_the_order_of_the_records() {
    let metrics = vec![metric("B", 200, 2), metric("A", 100, 2), metric("C", 300, 2)];
    let lines = format_supply(&metrics);
    assert_eq!(
        lines,
        vec![
            "B Supply: $2.00".to_string(),
            "A Supply: $1.00".to_string(),
            "C Supply: $3.00".to_string(),
        ]
    );
}

#[test]
fn small_exponents_are_exact() {
    assert_eq!(amount(0, 0), "0.00");
    assert_eq!(amount(7, 0), "7.00");
    assert_eq!(amount(7, 1), "0.70");
    assert_eq!(amount(123, 1), "12.30");
    assert_eq!(amount(7, 2), "0.07");
    assert_eq!(amount(12345, 2), "123.45");
}

#[test]
fn rounds_to_the_nearest_hundredth() {
    assert_eq!(amount(1_234, 3), "1.23");
    assert_eq!(amount(1_236, 3), "1.24");
    assert_eq!(amount(1_234_999, 6), "1.23");
    assert_eq!(amount(1_235_001, 6), "1.24");
    assert_eq!(amount(4, 3), "0.00");
    assert_eq!(amount(6, 3), "0.01");
}

#[test]
fn a_tie_goes_to_the_even_hundredth() {
    assert_eq!(amount(1_005, 3), "1.00");
    assert_eq!(amount(1_015, 3), "1.02");
    assert_eq!(amount(125, 3), "0.12");
    assert_eq!(amount(375, 3), "0.38");
    assert_eq!(amount(5, 3), "0.00");
    assert_eq!(amount(15, 3), "0.02");
}

#[test]
fn rounding_carries_into_the_whole_part() {
    assert_eq!(amount(9_995, 3), "10.00");
    assert_eq!(amount(999_999, 6), "1.00");
    assert_eq!(amount(99_999_999_999, 9), "100.00");
}

#[test]
fn a_quantity_of_128_bits_is_rendered_in_full() {
    assert_eq!(amount(u128::MAX, 0), "340282366920938463463374607431768211455.00");
    assert_eq!(amount(u128::MAX, 2), "3402823669209384634633746074317682114.55");
    assert_eq!(amount(u128::MAX, 18), "340282366920938463463.37");
    assert_eq!(amount(u128::MAX, 38), "3.40");
}

#[test]
fn a_quantity_beyond_128_bits_is_rendered_in_full() {
    assert_eq!(wide_amount([0, 0, 1, 0], 0), "340282366920938463463374607431768211456.00");
    assert_eq!(wide_amount([0, 0, 1, 0], 18), "340282366920938463463.37");
    assert_eq!(
        wide_amount([0, 0, 0, 1], 0),
        "6277101735386680763835789423207666416102355444464034512896.00"
    );
    assert_eq!(
        wide_amount(WIDEST, 0),
        "115792089237316195423570985008687907853269984665640564039457584007913129639935.00"
    );
    assert_eq!(
        wide_amount(WIDEST, 1),
        "11579208923731619542357098500868790785326998466564056403945758400791312963993.50"
    );
    assert_eq!(
        wide_amount(WIDEST, 2),
        "1157920892373161954235709850086879078532699846656405640394575840079131296399.35"
    );
    assert_eq!(
        wide_amount(WIDEST, 18),
        "115792089237316195423570985008687907853269984665640564039457.58"
    );
    assert_eq!(wide_amount(WIDEST, 76), "11.58");
    assert_eq!(wide_amount(WIDEST, 77), "1.16");
}

#[test]
fn an_exponent_beyond_the_quantity_gives_zero() {
    assert_eq!(amount(u128::MAX, 40), "0.03");
    assert_eq!(amount(u128::MAX, 41), "0.00");
    assert_eq!(amount(1, 255), "0.00");
    assert_eq!(wide_amount(WIDEST, 78), "0.12");
    assert_eq!(wide_amount(WIDEST, 79), "0.01");
    assert_eq!(wide_amount(WIDEST, 80), "0.00");
    assert_eq!(wide_amount(WIDEST, 255), "0.00");
}

#[test]
fn rounds_a_wide_quantity_to_hundredths() {
    assert_eq!(round_to_hundredths(&wide(1_500_000), 6), wide(150));
    assert_eq!(round_to_hundredths(&wide(2_750_000_000), 9), wide(275));
    assert_eq!(round_to_hundredths(&wide(140_000_000_123_456), 6), wide(14_000_000_012));
    assert_eq!(round_to_hundredths(&wide(12_345), 2), wide(12_345));
    assert_eq!(round_to_hundredths(&wide(9_995), 3), wide(1_000));
    assert_eq!(round_to_hundredths(&[0, 0, 1, 0], 2), [0, 0, 1, 0]);
    assert_eq!(round_to_hundredths(&WIDEST, 79), wide(1));
}

#[test]
fn divides_a_wide_quantity_by_ten() {
    assert_eq!(div_ten(&wide(0)), (wide(0), 0));
    assert_eq!(div_ten(&wide(9)), (wide(0), 9));
    assert_eq!(div_ten(&wide(1_234)), (wide(123), 4));
    assert_eq!(div_ten(&wide(u128::MAX)), (wide(u128::MAX / 10), 5));
    assert_eq!(div_ten(&[0, 0, 1, 0]), (wide(34028236692093846346337460743176821145), 6));
    assert_eq!(
        div_ten(&WIDEST),
        ([0x9999_9999_9999_9999, 0x9999_9999_9999_9999, 0x9999_9999_9999_9999, 0x1999_9999_9999_9999], 5)
    );
}

#[test]
fn tells_zero_and_odd_and_counts_up() {
    assert!(is_zero(&[0, 0, 0, 0]));
    assert!(!is_zero(&[0, 0, 0, 1]));
    assert!(!is_zero(&[1, 0, 0, 0]));
    assert!(is_odd(&[1, 0, 0, 0]));
    assert!(is_odd(&[3, 2, 0, 0]));
    assert!(!is_odd(&[2, 1, 1, 1]));
    assert_eq!(increment(&[0, 0, 0, 0]), [1, 0, 0, 0]);
    assert_eq!(increment(&[u64::MAX, 0, 0, 0]), [0, 1, 0, 0]);
    assert_eq!(increment(&[u64::MAX, u64::MAX, 0, 0]), [0, 0, 1, 0]);
    assert_eq!(increment(&[u64::MAX, u64::MAX, u64::MAX, 7]), [0, 0, 0, 8]);
    assert_eq!(increment(&[5, u64::MAX, 0, 0]), [6, u64::MAX, 0, 0]);
}

#[test]
fn agrees_with_binary_floating_point_away_from_ties() {
    let exponents: [u8; 6] = [0, 1, 2, 3, 6, 9];
    for exponent in exponents {
        let unit = 10f64.powi(exponent as i32);
        let mut quantity: u128 = 0;
        while quantity < 3_000_000_000 {
            let tie = exponent > 2 && (quantity * 2) % 10u128.pow(exponent as u32 - 2) == 0;
            if !tie {
                let expected = format!("{:.2}", quantity as f64 / unit);
                assert_eq!(amount(quantity, exponent), expected);
            }
            quantity = quantity * 3 + 7;
        }
    }
}

#[test]
fn agrees_with_binary_floating_point_on_ties_that_it_holds_exactly() {
    let eighths: [u128; 8] = [125, 375, 625, 875, 1_125, 2_375, 10_625, 999_875];
    for quantity in eighths {
        let expected = format!("{:.2}", quantity as f64 / 1000f64);
        assert_eq!(amount(quantity, 3), expected);
    }
}
