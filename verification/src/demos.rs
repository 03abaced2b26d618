//! The demonstration routines. Each returns the lines it has to show, in
//! order; printing them is left to the caller.
//!
//! A routine states its lines as plain text. Beside it stands a lemma that
//! spells the same lines out as labels and values, which is how the routine
//! builds them.

use vstd::prelude::*;
use crate::decimal::{decimal, signed_decimal};
use crate::line::{
    bool_line, bool_word, char_line, labelled, labelled_line, signed_line, unsigned_line,
};

verus! {

/// Adds one line at the end of a transcript.
fn push_line(lines: &mut Vec<String>, line: String)
    ensures
        final(lines).deep_view() == old(lines).deep_view().push(line@),
{
    lines.push(line);
    assert(lines.deep_view() =~= old(lines).deep_view().push(line@));
}

/// What the mutability routine shows: a binding that never changes, then a
/// mutable one before and after it is assigned anew.
pub open spec fn mutable_lines() -> Seq<Seq<char>> {
    seq!["x = 3"@, "y = 4"@, "y = 5"@]
}

/// The lines of the mutability routine are `x` with the value three, and `y`
/// with four and then five.
pub proof fn lemma_mutable_lines_by_value()
    ensures
        mutable_lines() == seq![
            labelled("x"@, signed_decimal(3)),
            labelled("y"@, signed_decimal(4)),
            labelled("y"@, signed_decimal(5)),
        ],
{
    reveal_strlit("x");
    reveal_strlit("y");
    reveal_strlit("x = 3");
    reveal_strlit("y = 4");
    reveal_strlit("y = 5");
    assert(labelled("x"@, signed_decimal(3)) =~= "x = 3"@);
    assert(labelled("y"@, signed_decimal(4)) =~= "y = 4"@);
    assert(labelled("y"@, signed_decimal(5)) =~= "y = 5"@);
}

/// Binds `x` for good and `y` mutably, and shows `y` again once it has been
/// given a new value.
pub fn test_mutable() -> (lines: Vec<String>)
    ensures
        lines.deep_view() == mutable_lines(),
        lines@.len() == 3,
{
    let mut lines: Vec<String> = Vec::new();
    let x: i32 = 3;
    push_line(&mut lines, signed_line("x", x as i128));
    let mut y: i32 = 4;
    push_line(&mut lines, signed_line("y", y as i128));
    y = 5;
    push_line(&mut lines, signed_line("y", y as i128));
    proof {
        lemma_mutable_lines_by_value();
        assert(lines.deep_view() =~= mutable_lines());
    }
    lines
}

/// What the integer routine shows: one line for each of the ten fixed-width
/// integer types, signed before unsigned and narrow before wide.
pub open spec fn integer_lines() -> Seq<Seq<char>> {
    seq![
        "i8 = 127"@,
        "i16 = 32767"@,
        "i32 = 2147483647"@,
        "i64 = 9223372036854775807"@,
        "i128 = 170141183460469231731687303715884105727"@,
        "u8 = 255"@,
        "u16 = 65535"@,
        "u32 = 4000000000"@,
        "u64 = 4000000000"@,
        "u128 = 4000000000"@,
    ]
}

/// The decimal texts of the largest 64-bit and 128-bit signed integers.
proof fn lemma_widest_signed_texts()
    ensures
        decimal(i64::MAX as nat) == "9223372036854775807"@,
        decimal(i128::MAX as nat) == "170141183460469231731687303715884105727"@,
{
    reveal_with_fuel(decimal, 40);
    reveal_strlit("9223372036854775807");
    reveal_strlit("170141183460469231731687303715884105727");
    assert(decimal(i64::MAX as nat) =~= "9223372036854775807"@);
    assert(decimal(i128::MAX as nat) =~= "170141183460469231731687303715884105727"@);
}

/// Each line of the integer routine is the name of a type and a value of that
/// type in decimal. Every signed type holds the largest value it can, and so
/// do the 8-bit and 16-bit unsigned types; the unsigned types from 32 bits up
/// hold one that no signed 32-bit integer can.
pub proof fn lemma_integer_lines_by_value()
    ensures
        integer_lines() == seq![
            labelled("i8"@, signed_decimal(i8::MAX as int)),
            labelled("i16"@, signed_decimal(i16::MAX as int)),
            labelled("i32"@, signed_decimal(i32::MAX as int)),
            labelled("i64"@, signed_decimal(i64::MAX as int)),
            labelled("i128"@, signed_decimal(i128::MAX as int)),
            labelled("u8"@, decimal(u8::MAX as nat)),
            labelled("u16"@, decimal(u16::MAX as nat)),
            labelled("u32"@, decimal(4000000000)),
            labelled("u64"@, decimal(4000000000)),
            labelled("u128"@, decimal(4000000000)),
        ],
        i32::MAX < 4000000000 <= u32::MAX,
{
    reveal_with_fuel(decimal, 10);
    lemma_widest_signed_texts();
    reveal_strlit("i8");
    reveal_strlit("i16");
    reveal_strlit("i32");
    reveal_strlit("i64");
    reveal_strlit("i128");
    reveal_strlit("u8");
    reveal_strlit("u16");
    reveal_strlit("u32");
    reveal_strlit("u64");
    reveal_strlit("u128");
    reveal_strlit("i8 = 127");
    reveal_strlit("i16 = 32767");
    reveal_strlit("i32 = 2147483647");
    reveal_strlit("i64 = 9223372036854775807");
    reveal_strlit("i128 = 170141183460469231731687303715884105727");
    reveal_strlit("9223372036854775807");
    reveal_strlit("170141183460469231731687303715884105727");
    reveal_strlit("u8 = 255");
    reveal_strlit("u16 = 65535");
    reveal_strlit("u32 = 4000000000");
    reveal_strlit("u64 = 4000000000");
    reveal_strlit("u128 = 4000000000");
    assert(labelled("i8"@, signed_decimal(127)) =~= "i8 = 127"@);
    assert(labelled("i16"@, signed_decimal(32767)) =~= "i16 = 32767"@);
    assert(labelled("i32"@, signed_decimal(2147483647)) =~= "i32 = 2147483647"@);
    assert(labelled("i64"@, signed_decimal(i64::MAX as int)) =~= "i64 = 9223372036854775807"@);
    assert(labelled("i128"@, signed_decimal(i128::MAX as int))
        =~= "i128 = 170141183460469231731687303715884105727"@);
    assert(labelled("u8"@, decimal(255)) =~= "u8 = 255"@);
    assert(labelled("u16"@, decimal(65535)) =~= "u16 = 65535"@);
    assert(labelled("u32"@, decimal(4000000000)) =~= "u32 = 4000000000"@);
    assert(labelled("u64"@, decimal(4000000000)) =~= "u64 = 4000000000"@);
    assert(labelled("u128"@, decimal(4000000000)) =~= "u128 = 4000000000"@);
}

/// Binds one value of each fixed-width integer type and shows it under the
/// name of its type. Each signed type is shown at the top of its range.
pub fn test_integer() -> (lines: Vec<String>)
    ensures
        lines.deep_view() == integer_lines(),
        lines@.len() == 10,
{
    let mut lines: Vec<String> = Vec::new();
    let vari8: i8 = 127;
    push_line(&mut lines, signed_line("i8", vari8 as i128));
    let vari16: i16 = 32767;
    push_line(&mut lines, signed_line("i16", vari16 as i128));
    let vari32: i32 = 2147483647;
    push_line(&mut lines, signed_line("i32", vari32 as i128));
    let vari64: i64 = 9223372036854775807;
    push_line(&mut lines, signed_line("i64", vari64 as i128));
    let vari128: i128 = 170141183460469231731687303715884105727;
    push_line(&mut lines, signed_line("i128", vari128));
    let varu8: u8 = 255;
    push_line(&mut lines, unsigned_line("u8", varu8 as u128));
    let varu16: u16 = 65535;
    push_line(&mut lines, unsigned_line("u16", varu16 as u128));
    let varu32: u32 = 4000000000;
    push_line(&mut lines, unsigned_line("u32", varu32 as u128));
    let varu64: u64 = 4000000000;
    push_line(&mut lines, unsigned_line("u64", varu64 as u128));
    let varu128: u128 = 4000000000;
    push_line(&mut lines, unsigned_line("u128", varu128));
    proof {
        lemma_integer_lines_by_value();
        assert(lines.deep_view() =~= integer_lines());
    }
    lines
}

/// What the floating-point routine shows, given the texts of its two values:
/// `single` for the 32-bit one and `double` for the 64-bit one.
pub open spec fn float_lines(single: Seq<char>, double: Seq<char>) -> Seq<Seq<char>> {
    seq!["f32 = "@ + single, "f64 = "@ + double]
}

/// The lines of the floating-point routine are the names of the two types,
/// each with the text it was given.
pub proof fn lemma_float_lines_by_value(single: Seq<char>, double: Seq<char>)
    ensures
        float_lines(single, double) == seq![labelled("f32"@, single), labelled("f64"@, double)],
{
    reveal_strlit("f32");
    reveal_strlit("f64");
    reveal_strlit("f32 = ");
    reveal_strlit("f64 = ");
    assert(labelled("f32"@, single) =~= "f32 = "@ + single);
    assert(labelled("f64"@, double) =~= "f64 = "@ + double);
}

/// Shows a single-precision and a double-precision value under the names of
/// their types. The values arrive as text, each rendered by its own type, so
/// the single-precision one carries no more digits than that type can hold.
pub fn test_float(single: &str, double: &str) -> (lines: Vec<String>)
    ensures
        lines.deep_view() == float_lines(single@, double@),
        lines@.len() == 2,
{
    let mut lines: Vec<String> = Vec::new();
    push_line(&mut lines, labelled_line("f32", single));
    push_line(&mut lines, labelled_line("f64", double));
    proof {
        lemma_float_lines_by_value(single@, double@);
        assert(lines.deep_view() =~= float_lines(single@, double@));
    }
    lines
}

/// What the boolean routine shows.
pub open spec fn bool_lines() -> Seq<Seq<char>> {
    seq!["bool = false"@]
}

/// The line of the boolean routine is the word for an unset flag under the
/// name of the type.
pub proof fn lemma_bool_lines_by_value()
    ensures
        bool_lines() == seq![labelled("bool"@, bool_word(false))],
{
    reveal_strlit("bool");
    reveal_strlit("bool = false");
    assert(labelled("bool"@, bool_word(false)) =~= "bool = false"@);
}

/// Binds a truth value and shows it.
pub fn test_bool() -> (lines: Vec<String>)
    ensures
        lines.deep_view() == bool_lines(),
        lines@.len() == 1,
{
    let mut lines: Vec<String> = Vec::new();
    let varbool: bool = false;
    push_line(&mut lines, bool_line("bool", varbool));
    proof {
        lemma_bool_lines_by_value();
        assert(lines.deep_view() =~= bool_lines());
    }
    lines
}

/// What the character routine shows: the smiling face with sunglasses, a
/// scalar value far beyond the single-byte range.
pub open spec fn char_lines() -> Seq<Seq<char>> {
    seq!["char = \u{1F60E}"@]
}

/// The line of the character routine holds one character after the
/// separator, the scalar value 1F60E.
pub proof fn lemma_char_lines_by_value()
    ensures
        char_lines() == seq![labelled("char"@, seq!['\u{1F60E}'])],
        char_lines()[0].len() == 8,
{
    reveal_strlit("char");
    reveal_strlit("char = \u{1F60E}");
    assert(labelled("char"@, seq!['\u{1F60E}']) =~= "char = \u{1F60E}"@);
}

/// Binds a character from outside the Basic Latin range and shows it.
pub fn test_char() -> (lines: Vec<String>)
    ensures
        lines.deep_view() == char_lines(),
        lines@.len() == 1,
{
    let mut lines: Vec<String> = Vec::new();
    let varchar: char = '\u{1F60E}';
    push_line(&mut lines, char_line("char", varchar));
    proof {
        lemma_char_lines_by_value();
        assert(lines.deep_view() =~= char_lines());
    }
    lines
}

/// What the tuple routine shows, given the text of the tuple's last element.
pub open spec fn tuple_lines(third: Seq<char>) -> Seq<Seq<char>> {
    seq!["tup.0 = 4000000000"@, "tup.1 = 65535"@, "tup.2 = "@ + third]
}

/// The lines of the tuple routine are the three positions, each with the
/// element that stands there.
pub proof fn lemma_tuple_lines_by_value(third: Seq<char>)
    ensures
        tuple_lines(third) == seq![
            labelled("tup.0"@, decimal(4000000000)),
            labelled("tup.1"@, decimal(65535)),
            labelled("tup.2"@, third),
        ],
{
    reveal_with_fuel(decimal, 10);
    reveal_strlit("tup.0");
    reveal_strlit("tup.1");
    reveal_strlit("tup.2");
    reveal_strlit("tup.0 = 4000000000");
    reveal_strlit("tup.1 = 65535");
    reveal_strlit("tup.2 = ");
    assert(labelled("tup.0"@, decimal(4000000000)) =~= "tup.0 = 4000000000"@);
    assert(labelled("tup.1"@, decimal(65535)) =~= "tup.1 = 65535"@);
    assert(labelled("tup.2"@, third) =~= "tup.2 = "@ + third);
}

/// Builds a tuple of three elements of different types, takes each element
/// out by its position and shows the three one by one. The last element is a
/// single-precision number and arrives as the text that its type renders.
pub fn test_tuple(third: &str) -> (lines: Vec<String>)
    ensures
        lines.deep_view() == tuple_lines(third@),
        lines@.len() == 3,
{
    let mut lines: Vec<String> = Vec::new();
    let vartuple: (u32, u16, &str) = (4000000000, 65535, third);
    let vare0: u32 = vartuple.0;
    let vare1: u16 = vartuple.1;
    let vare2: &str = vartuple.2;
    push_line(&mut lines, unsigned_line("tup.0", vare0 as u128));
    push_line(&mut lines, unsigned_line("tup.1", vare1 as u128));
    push_line(&mut lines, labelled_line("tup.2", vare2));
    proof {
        lemma_tuple_lines_by_value(third@);
        assert(lines.deep_view() =~= tuple_lines(third@));
    }
    lines
}

/// What three conditionals report for a number `x` and a flag: whether `x` is
/// below five, whether it is above three, and, only where the flag is unset,
/// a third line.
pub open spec fn branch_lines(x: int, flag: bool) -> Seq<Seq<char>> {
    let first = if x < 5 {
        "(1) This is not executed."@
    } else {
        "(1) This is executed."@
    };
    let second = if x > 3 {
        "(2) This is executed."@
    } else {
        "(2) This is not executed."@
    };
    if !flag {
        seq![first, second, "(3) This is executed."@]
    } else {
        seq![first, second]
    }
}

/// Runs the three conditionals on the given number and flag. The first two
/// have both arms and always report; the third has none for a set flag.
pub fn branch(x: i32, flag: bool) -> (lines: Vec<String>)
    ensures
        lines.deep_view() == branch_lines(x as int, flag),
        lines@.len() == if flag { 2nat } else { 3nat },
{
    let mut lines: Vec<String> = Vec::new();
    if x < 5 {
        push_line(&mut lines, String::from_str("(1) This is not executed."));
    } else {
        push_line(&mut lines, String::from_str("(1) This is executed."));
    }
    if x > 3 {
        push_line(&mut lines, String::from_str("(2) This is executed."));
    } else {
        push_line(&mut lines, String::from_str("(2) This is not executed."));
    }
    if !flag {
        push_line(&mut lines, String::from_str("(3) This is executed."));
    }
    assert(lines.deep_view() =~= branch_lines(x as int, flag));
    lines
}

/// What the branching routine shows: with five and an unset flag, the arm
/// that each of the three conditionals takes.
pub open spec fn executed_lines() -> Seq<Seq<char>> {
    seq!["(1) This is executed."@, "(2) This is executed."@, "(3) This is executed."@]
}

/// Runs the three conditionals on the number five and an unset flag: five is
/// not below five, it is above three, and the flag is unset.
pub fn test_branch() -> (lines: Vec<String>)
    ensures
        lines.deep_view() == executed_lines(),
        lines.deep_view() == branch_lines(5, false),
        lines@.len() == 3,
{
    let x: i32 = 5;
    let varbool: bool = false;
    let lines = branch(x, varbool);
    assert(lines.deep_view() =~= executed_lines());
    lines
}

} // verus!
