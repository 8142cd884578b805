use zephyr_mcumgr::text::{push_decimal, push_hex, push_signed_decimal};

#[test]
fn decimal_text() {
    for (n, text) in [
        (0u64, "0"),
        (9, "9"),
        (10, "10"),
        (99, "99"),
        (100, "100"),
        (1234567890, "1234567890"),
        (u64::MAX, "18446744073709551615"),
    ] {
        let mut s = String::from("n=");
        push_decimal(&mut s, n);
        assert_eq!(s, format!("n={}", text));
        assert_eq!(s, format!("n={}", n));
    }
}

#[test]
fn signed_decimal_text() {
    for v in [0i64, 1, -1, -9, -10, 42, -999, i64::MAX, i64::MIN, i64::MIN + 1] {
        let mut s = String::new();
        push_signed_decimal(&mut s, v);
        assert_eq!(s, v.to_string());
    }
}

#[test]
fn hex_text() {
    let mut s = String::from("0x");
    push_hex(&mut s, &[0x00, 0x0F, 0xF0, 0xAB, 0x9C, 0xFF]);
    assert_eq!(s, "0x000ff0ab9cff");
    let mut s = String::new();
    push_hex(&mut s, &[]);
    assert_eq!(s, "");
    let all: Vec<u8> = (0..=255).collect();
    let mut s = String::new();
    push_hex(&mut s, &all);
    assert_eq!(s, hex::encode(&all));
}
