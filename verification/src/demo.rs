//! The demonstration: a greeting, two loops and two ways of rebinding text,
//! each writing its lines to a transcript.

use crate::decimal::{decimal, decimal_digits, to_decimal};
use crate::transcript::Transcript;
use vstd::prelude::*;

verus! {

/// A line made of `prefix` and, behind it, `n` in decimal notation.
pub open spec fn numbered(prefix: Seq<char>, n: int) -> Seq<char> {
    prefix + decimal(n)
}

/// Builds the line that `numbered` describes.
pub fn numbered_line(prefix: &str, n: i32) -> (line: String)
    ensures
        line@ == numbered(prefix@, n as int),
{
    let number: String = to_decimal(n);
    String::from_str(prefix).concat(number.as_str())
}

/// What the range loop writes: one line for each of 1, 2 and 3, counting
/// upwards, both ends of the range included.
pub open spec fn range_loop_lines() -> Seq<Seq<char>> {
    seq!["loop_1: 1"@, "loop_1: 2"@, "loop_1: 3"@]
}

/// The lines of the range loop are the prefix `loop_1: ` followed by 1, 2
/// and 3 in decimal notation.
pub proof fn lemma_range_loop_lines()
    ensures
        numbered("loop_1: "@, 1) == "loop_1: 1"@,
        numbered("loop_1: "@, 2) == "loop_1: 2"@,
        numbered("loop_1: "@, 3) == "loop_1: 3"@,
{
    reveal_strlit("0123456789");
    reveal_strlit("loop_1: ");
    reveal_strlit("loop_1: 1");
    reveal_strlit("loop_1: 2");
    reveal_strlit("loop_1: 3");
    assert(decimal(1) =~= seq!['1']);
    assert(decimal(2) =~= seq!['2']);
    assert(decimal(3) =~= seq!['3']);
    assert(numbered("loop_1: "@, 1) =~= "loop_1: 1"@);
    assert(numbered("loop_1: "@, 2) =~= "loop_1: 2"@);
    assert(numbered("loop_1: "@, 3) =~= "loop_1: 3"@);
}

/// Counts from 1 to 3, both included, and writes one numbered line for each
/// value.
pub fn my_for_loop_1(out: &mut Transcript)
    ensures
        final(out)@ == old(out)@ + range_loop_lines(),
{
    let ghost before = out@;
    let mut n: i32 = 1;
    while n <= 3
        invariant
            1 <= n <= 4,
            out@ == before + Seq::new((n - 1) as nat, |k: int| numbered("loop_1: "@, k + 1)),
        decreases 4 - n,
    {
        let line: String = numbered_line("loop_1: ", n);
        out.print_line(line.as_str());
        n = n + 1;
    }
    proof {
        lemma_range_loop_lines();
        assert(out@ =~= before + range_loop_lines());
    }
}

/// What the array loop writes: one line for each of 10, 20 and 30, in the
/// order in which the array stores them.
pub open spec fn array_loop_lines() -> Seq<Seq<char>> {
    seq!["loop_2: 10"@, "loop_2: 20"@, "loop_2: 30"@]
}

/// The lines of the array loop are the prefix `loop_2: ` followed by 10, 20
/// and 30 in decimal notation.
pub proof fn lemma_array_loop_lines()
    ensures
        numbered("loop_2: "@, 10) == "loop_2: 10"@,
        numbered("loop_2: "@, 20) == "loop_2: 20"@,
        numbered("loop_2: "@, 30) == "loop_2: 30"@,
{
    reveal_strlit("0123456789");
    reveal_strlit("loop_2: ");
    reveal_strlit("loop_2: 10");
    reveal_strlit("loop_2: 20");
    reveal_strlit("loop_2: 30");
    reveal_with_fuel(decimal_digits, 2);
    assert(decimal(10) =~= seq!['1', '0']);
    assert(decimal(20) =~= seq!['2', '0']);
    assert(decimal(30) =~= seq!['3', '0']);
    assert(numbered("loop_2: "@, 10) =~= "loop_2: 10"@);
    assert(numbered("loop_2: "@, 20) =~= "loop_2: 20"@);
    assert(numbered("loop_2: "@, 30) =~= "loop_2: 30"@);
}

/// Walks the array 10, 20, 30 from its first item to its last and writes one
/// numbered line for each.
pub fn my_for_loop_2(out: &mut Transcript)
    ensures
        final(out)@ == old(out)@ + array_loop_lines(),
{
    let ghost before = out@;
    let arr: [i32; 3] = [10, 20, 30];
    for i in items: &arr
        invariant
            arr@ == seq![10i32, 20i32, 30i32],
            out@ == before + Seq::new(
                items.index() as nat,
                |k: int| numbered("loop_2: "@, arr@[k] as int),
            ),
    {
        let line: String = numbered_line("loop_2: ", *i);
        out.print_line(line.as_str());
    }
    proof {
        lemma_array_loop_lines();
        assert(out@ =~= before + array_loop_lines());
    }
}

/// What the literal-text step writes: the first literal, then the literal
/// that the variable was rebound to.
pub open spec fn literal_text_lines() -> Seq<Seq<char>> {
    seq!["Hello, String"@, "Hello, Rust"@]
}

/// Writes a text literal, rebinds the variable to a second literal and
/// writes that one.
pub fn str_1(out: &mut Transcript)
    ensures
        final(out)@ == old(out)@ + literal_text_lines(),
{
    let mut str1: &str = "Hello, String";
    out.print_line(str1);
    str1 = "Hello, Rust";
    out.print_line(str1);
    proof {
        assert(out@ =~= old(out)@ + literal_text_lines());
    }
}

/// What the owned-text step writes: the first text, the text that replaced
/// it, and that same text read once more through an exclusive alias.
pub open spec fn owned_text_lines() -> Seq<Seq<char>> {
    seq!["Hello, String2"@, "Hello, Rust2"@, "Hello, Rust2"@]
}

/// Writes an owned text, replaces it and writes it again, then writes it a
/// third time through an exclusive alias, which reads the replacement and
/// not the text that was replaced.
pub fn str_2(out: &mut Transcript)
    ensures
        final(out)@ == old(out)@ + owned_text_lines(),
{
    let mut str1: String = String::from_str("Hello, String2");
    out.print_line(str1.as_str());
    str1 = String::from_str("Hello, Rust2");
    out.print_line(str1.as_str());
    let str2: &mut String = &mut str1;
    out.print_line(str2.as_str());
    proof {
        assert(out@ =~= old(out)@ + owned_text_lines());
    }
}

/// What the greeting step writes.
pub open spec fn greeting_lines() -> Seq<Seq<char>> {
    seq!["Hello, world!"@]
}

/// Everything that one run writes, line by line.
pub open spec fn demo_output() -> Seq<Seq<char>> {
    seq![
        "Hello, world!"@,
        "loop_1: 1"@,
        "loop_1: 2"@,
        "loop_1: 3"@,
        "loop_2: 10"@,
        "loop_2: 20"@,
        "loop_2: 30"@,
        "Hello, String"@,
        "Hello, Rust"@,
        "Hello, String2"@,
        "Hello, Rust2"@,
        "Hello, Rust2"@,
    ]
}

/// One run is the five steps in their order: the greeting, the range loop,
/// the array loop, the literal text and the owned text.
pub proof fn lemma_demo_output_is_the_steps()
    ensures
        demo_output() == greeting_lines() + range_loop_lines() + array_loop_lines()
            + literal_text_lines() + owned_text_lines(),
{
    assert(demo_output() =~= greeting_lines() + range_loop_lines() + array_loop_lines()
        + literal_text_lines() + owned_text_lines());
}

/// Runs the demonstration once: writes the greeting, then runs the range
/// loop, the array loop, the literal-text step and the owned-text step.
/// Whatever `out` held before, the run adds the same lines behind it.
pub fn run(out: &mut Transcript)
    ensures
        final(out)@ == old(out)@ + demo_output(),
{
    out.print_line("Hello, world!");
    my_for_loop_1(out);
    my_for_loop_2(out);
    str_1(out);
    str_2(out);
    proof {
        lemma_demo_output_is_the_steps();
        assert(out@ =~= old(out)@ + demo_output());
    }
}

/// Any two runs write the same lines, whatever their transcripts held
/// before: what a run adds depends on nothing that an earlier run left
/// behind. This holds of two runs that each start afresh, and of a second run
/// that goes on where the first one ended.
pub proof fn lemma_runs_write_the_same_lines(
    before_first: Seq<Seq<char>>,
    after_first: Seq<Seq<char>>,
    before_second: Seq<Seq<char>>,
    after_second: Seq<Seq<char>>,
)
    requires
        after_first == before_first + demo_output(),
        after_second == before_second + demo_output(),
    ensures
        after_first.subrange(before_first.len() as int, after_first.len() as int)
            == after_second.subrange(before_second.len() as int, after_second.len() as int),
        before_second == after_first ==> after_second == before_first + demo_output()
            + demo_output(),
{
    assert(after_first.subrange(before_first.len() as int, after_first.len() as int)
        =~= demo_output());
    assert(after_second.subrange(before_second.len() as int, after_second.len() as int)
        =~= demo_output());
}

} // verus!
