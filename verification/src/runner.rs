//! The whole walk: every routine once, in a fixed order.

use vstd::prelude::*;
use crate::demos::{
    bool_lines, char_lines, executed_lines, float_lines, integer_lines, mutable_lines, test_bool,
    test_branch, test_char, test_float, test_integer, test_mutable, test_tuple, tuple_lines,
};

verus! {

/// The lines of a full run, given the texts of the three floating-point
/// values: mutability first, then integers, floating point, the truth value,
/// the character, the tuple, and branching last.
pub open spec fn run_lines(single: Seq<char>, double: Seq<char>, third: Seq<char>) -> Seq<
    Seq<char>,
> {
    mutable_lines() + integer_lines() + float_lines(single, double) + bool_lines() + char_lines()
        + tuple_lines(third) + executed_lines()
}

/// No routine is silent: each shows a fixed number of lines, at least one,
/// whatever texts it is given.
pub proof fn lemma_every_routine_shows_lines(
    single: Seq<char>,
    double: Seq<char>,
    third: Seq<char>,
)
    ensures
        mutable_lines().len() == 3,
        integer_lines().len() == 10,
        float_lines(single, double).len() == 2,
        bool_lines().len() == 1,
        char_lines().len() == 1,
        tuple_lines(third).len() == 3,
        executed_lines().len() == 3,
{
}

/// A full run is the seven routines' lines and nothing else, each routine's
/// block whole and in its place.
pub proof fn lemma_run_keeps_order(single: Seq<char>, double: Seq<char>, third: Seq<char>)
    ensures
        run_lines(single, double, third).len() == 23,
        run_lines(single, double, third).subrange(0, 3) == mutable_lines(),
        run_lines(single, double, third).subrange(3, 13) == integer_lines(),
        run_lines(single, double, third).subrange(13, 15) == float_lines(single, double),
        run_lines(single, double, third).subrange(15, 16) == bool_lines(),
        run_lines(single, double, third).subrange(16, 17) == char_lines(),
        run_lines(single, double, third).subrange(17, 20) == tuple_lines(third),
        run_lines(single, double, third).subrange(20, 23) == executed_lines(),
{
    let run = run_lines(single, double, third);
    assert(run.subrange(0, 3) =~= mutable_lines());
    assert(run.subrange(3, 13) =~= integer_lines());
    assert(run.subrange(13, 15) =~= float_lines(single, double));
    assert(run.subrange(15, 16) =~= bool_lines());
    assert(run.subrange(16, 17) =~= char_lines());
    assert(run.subrange(17, 20) =~= tuple_lines(third));
    assert(run.subrange(20, 23) =~= executed_lines());
}

/// Moves the lines of one routine to the end of the transcript.
fn extend(lines: &mut Vec<String>, part: Vec<String>)
    ensures
        final(lines).deep_view() == old(lines).deep_view() + part.deep_view(),
{
    let mut part = part;
    let ghost moved = part.deep_view();
    lines.append(&mut part);
    assert(lines.deep_view() =~= old(lines).deep_view() + moved);
}

/// Runs the seven routines one after another, each exactly once, and returns
/// everything they show as one transcript. `single` and `double` are the
/// texts of the two floating-point values, `third` that of the tuple's last
/// element.
pub fn run_all(single: &str, double: &str, third: &str) -> (lines: Vec<String>)
    ensures
        lines.deep_view() == run_lines(single@, double@, third@),
        lines@.len() == 23,
{
    let mut lines: Vec<String> = Vec::new();
    extend(&mut lines, test_mutable());
    extend(&mut lines, test_integer());
    extend(&mut lines, test_float(single, double));
    extend(&mut lines, test_bool());
    extend(&mut lines, test_char());
    extend(&mut lines, test_tuple(third));
    extend(&mut lines, test_branch());
    assert(lines.deep_view() =~= run_lines(single@, double@, third@));
    lines
}

} // verus!
