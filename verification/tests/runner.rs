use hello_syntax::demos::{
    test_bool, test_branch, test_char, test_float, test_integer, test_mutable, test_tuple,
};
use hello_syntax::runner::run_all;

#[test]
fn full_run_shows_every_line_in_order() {
    let varf32: f32 = 123.45;
    let varf64: f64 = 123.456789;
    let vare2: f32 = 123.456;
    let lines = run_all(
        &format!("{}", varf32),
        &format!("{}", varf64),
        &format!("{}", vare2),
    );
    assert_eq!(
        lines,
        vec![
            "x = 3",
            "y = 4",
            "y = 5",
            "i8 = 127",
            "i16 = 32767",
            "i32 = 2147483647",
            "i64 = 9223372036854775807",
            "i128 = 170141183460469231731687303715884105727",
            "u8 = 255",
            "u16 = 65535",
            "u32 = 4000000000",
            "u64 = 4000000000",
            "u128 = 4000000000",
            "f32 = 123.45",
            "f64 = 123.456789",
            "bool = false",
            "char = \u{1F60E}",
            "tup.0 = 4000000000",
            "tup.1 = 65535",
            "tup.2 = 123.456",
            "(1) This is executed.",
            "(2) This is executed.",
            "(3) This is executed.",
        ]
    );
}

#[test]
fn full_run_is_the_routines_one_after_another() {
    let mut expected: Vec<String> = Vec::new();
    expected.extend(test_mutable());
    expected.extend(test_integer());
    expected.extend(test_float("a", "b"));
    expected.extend(test_bool());
    expected.extend(test_char());
    expected.extend(test_tuple("c"));
    expected.extend(test_branch());
    assert_eq!(run_all("a", "b", "c"), expected);
    assert_eq!(expected.len(), 23);
}

#[test]
fn full_run_repeats_itself() {
    let first = run_all("123.45", "123.456789", "123.456");
    let second = run_all("123.45", "123.456789", "123.456");
    assert_eq!(first, second);
    let bytes_first: Vec<u8> = first.join("\n").into_bytes();
    let bytes_second: Vec<u8> = second.join("\n").into_bytes();
    assert_eq!(bytes_first, bytes_second);
}
