use hp_vendor::util::text::{chars_of, push_decimal, push_signed_decimal};

#[test]
fn chars_of_keeps_every_character() {
    assert_eq!(chars_of("a{é}"), vec!['a', '{', 'é', '}']);
    assert_eq!(chars_of(""), Vec::<char>::new());
}

#[test]
fn push_decimal_appends_the_numeral() {
    let mut out = String::from("n=");
    push_decimal(&mut out, 0);
    assert_eq!(out, "n=0");
    push_decimal(&mut out, 10);
    assert_eq!(out, "n=010");
    push_decimal(&mut out, 9_876_543_210);
    assert_eq!(out, "n=0109876543210");
}

#[test]
fn push_decimal_of_the_largest_number() {
    let mut out = String::new();
    push_decimal(&mut out, u64::MAX);
    assert_eq!(out, "18446744073709551615");
}

#[test]
fn push_signed_decimal_writes_the_sign() {
    let mut out = String::new();
    push_signed_decimal(&mut out, -7);
    assert_eq!(out, "-7");
    push_signed_decimal(&mut out, 12);
    assert_eq!(out, "-712");
}

#[test]
fn push_signed_decimal_at_the_limits() {
    let mut low = String::new();
    push_signed_decimal(&mut low, i64::MIN);
    assert_eq!(low, "-9223372036854775808");
    let mut high = String::new();
    push_signed_decimal(&mut high, i64::MAX);
    assert_eq!(high, "9223372036854775807");
}
