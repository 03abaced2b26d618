use hello_syntax::decimal::{signed_text, unsigned_text};

#[test]
fn unsigned_text_of_single_digits() {
    assert_eq!(unsigned_text(0), "0");
    assert_eq!(unsigned_text(7), "7");
    assert_eq!(unsigned_text(9), "9");
}

#[test]
fn unsigned_text_has_no_leading_zero() {
    assert_eq!(unsigned_text(10), "10");
    assert_eq!(unsigned_text(100), "100");
    assert_eq!(unsigned_text(1234567890), "1234567890");
    assert_eq!(unsigned_text(4000000000), "4000000000");
}

#[test]
fn unsigned_text_of_the_largest_value() {
    assert_eq!(
        unsigned_text(u128::MAX),
        "340282366920938463463374607431768211455"
    );
}

#[test]
fn signed_text_of_non_negative_values() {
    assert_eq!(signed_text(0), "0");
    assert_eq!(signed_text(127), "127");
    assert_eq!(signed_text(2000000000), "2000000000");
    assert_eq!(
        signed_text(i128::MAX),
        "170141183460469231731687303715884105727"
    );
}

#[test]
fn signed_text_of_negative_values() {
    assert_eq!(signed_text(-1), "-1");
    assert_eq!(signed_text(-10), "-10");
    assert_eq!(signed_text(-128), "-128");
    assert_eq!(
        signed_text(i128::MIN),
        "-170141183460469231731687303715884105728"
    );
}

#[test]
fn texts_agree_with_the_standard_rendering() {
    let mut n: u128 = 1;
    while n < u128::MAX / 7 {
        assert_eq!(unsigned_text(n), format!("{}", n));
        assert_eq!(unsigned_text(n - 1), format!("{}", n - 1));
        let v: i128 = (n / 2) as i128;
        assert_eq!(signed_text(v), format!("{}", v));
        assert_eq!(signed_text(-v), format!("{}", -v));
        n = n * 7 + 3;
    }
}

#[test]
fn distinct_values_have_distinct_texts() {
    assert_ne!(unsigned_text(1), unsigned_text(10));
    assert_ne!(signed_text(-5), signed_text(5));
    assert_ne!(signed_text(0), signed_text(-1));
}
