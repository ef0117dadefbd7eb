//! Decimal rendering and number parsing.

use openclaw_aibank::text::{cents, parse_u64, push_amount, push_decimal, push_fixed1, push_fixed2, push_usd, push_usd_wide, strip_hex_prefix};

fn render(f: impl Fn(&mut String)) -> String {
    let mut s = String::new();
    f(&mut s);
    s
}

#[test]
fn usd_amounts_render_with_cents() {
    assert_eq!(render(|s| push_usd(s, 0)), "$0.00");
    assert_eq!(render(|s| push_usd(s, 1_000_000)), "$1.00");
    assert_eq!(render(|s| push_usd(s, 1_234_567)), "$1.23");
    assert_eq!(render(|s| push_usd(s, 1_235_000)), "$1.24");
    assert_eq!(render(|s| push_usd(s, 4_999)), "$0.00");
    assert_eq!(render(|s| push_usd(s, 5_000)), "$0.01");
    assert_eq!(render(|s| push_usd_wide(s, 12_345_678_900_000_000_000_000)), "$12345678900000000.00");
}

#[test]
fn fixed_point_and_decimal() {
    assert_eq!(render(|s| push_decimal(s, 0)), "0");
    assert_eq!(render(|s| push_decimal(s, 1_234_567_890)), "1234567890");
    assert_eq!(render(|s| push_fixed2(s, 605)), "6.05");
    assert_eq!(render(|s| push_fixed1(s, 755)), "75.5");
    assert_eq!(cents(1_994_999), 199);
    assert_eq!(cents(1_995_000), 200);
}

#[test]
fn u64_parsing_follows_std() {
    assert_eq!(parse_u64("84532"), Some(84532));
    assert_eq!(parse_u64("+7"), Some(7));
    assert_eq!(parse_u64("18446744073709551615"), Some(u64::MAX));
    assert_eq!(parse_u64("18446744073709551616"), None);
    assert_eq!(parse_u64(""), None);
    assert_eq!(parse_u64("+"), None);
    assert_eq!(parse_u64("-1"), None);
    assert_eq!(parse_u64("12a"), None);
    for t in ["0", "42", "+42", "007", " 1", "9999999999999999999", "99999999999999999999"] {
        assert_eq!(parse_u64(t), t.parse::<u64>().ok());
    }
}

#[test]
fn hex_prefix_is_stripped_once() {
    assert_eq!(strip_hex_prefix("0xabc"), "abc");
    assert_eq!(strip_hex_prefix("abc"), "abc");
    assert_eq!(strip_hex_prefix("0x0xab"), "0xab");
    assert_eq!(strip_hex_prefix("0"), "0");
}

#[test]
fn plain_amounts_print_like_floats() {
    for micro in [0u64, 1, 10, 500_000, 1_000_000, 1_234_567, 5_000_500_000, 999_999, 100_000, 120_000_000] {
        let shown = render(|s| push_amount(s, micro));
        assert_eq!(shown, format!("{}", micro as f64 / 1_000_000.0));
    }
}
