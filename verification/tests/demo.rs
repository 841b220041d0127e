use demo_runner::demo::{my_for_loop_1, my_for_loop_2, numbered_line, run, str_1, str_2};
use demo_runner::transcript::Transcript;

fn written(out: &Transcript) -> Vec<String> {
    out.lines().clone()
}

#[test]
fn run_writes_the_whole_output_in_order() {
    let mut out = Transcript::new();
    run(&mut out);
    assert_eq!(
        written(&out),
        vec![
            "Hello, world!",
            "loop_1: 1",
            "loop_1: 2",
            "loop_1: 3",
            "loop_2: 10",
            "loop_2: 20",
            "loop_2: 30",
            "Hello, String",
            "Hello, Rust",
            "Hello, String2",
            "Hello, Rust2",
            "Hello, Rust2",
        ]
    );
}

#[test]
fn run_starts_with_the_greeting() {
    let mut out = Transcript::new();
    run(&mut out);
    assert_eq!(out.lines()[0], "Hello, world!");
    assert_eq!(out.lines().len(), 12);
}

#[test]
fn range_loop_counts_one_to_three_inclusive() {
    let mut out = Transcript::new();
    my_for_loop_1(&mut out);
    assert_eq!(written(&out), vec!["loop_1: 1", "loop_1: 2", "loop_1: 3"]);
}

#[test]
fn array_loop_keeps_the_stored_order() {
    let mut out = Transcript::new();
    my_for_loop_2(&mut out);
    assert_eq!(written(&out), vec!["loop_2: 10", "loop_2: 20", "loop_2: 30"]);
}

#[test]
fn literal_text_is_written_before_its_replacement() {
    let mut out = Transcript::new();
    str_1(&mut out);
    assert_eq!(written(&out), vec!["Hello, String", "Hello, Rust"]);
}

#[test]
fn owned_text_alias_reads_the_replacement() {
    let mut out = Transcript::new();
    str_2(&mut out);
    assert_eq!(
        written(&out),
        vec!["Hello, String2", "Hello, Rust2", "Hello, Rust2"]
    );
}

#[test]
fn a_second_run_writes_what_the_first_wrote() {
    let mut out = Transcript::new();
    run(&mut out);
    let first = written(&out);
    run(&mut out);
    let both = written(&out);
    assert_eq!(both.len(), 2 * first.len());
    assert_eq!(both[..first.len()], first[..]);
    assert_eq!(both[first.len()..], first[..]);
}

#[test]
fn two_fresh_runs_agree() {
    let mut one = Transcript::new();
    let mut two = Transcript::new();
    run(&mut one);
    run(&mut two);
    assert_eq!(written(&one), written(&two));
}

#[test]
fn steps_add_behind_what_was_written() {
    let mut out = Transcript::new();
    out.print_line("before");
    str_1(&mut out);
    my_for_loop_1(&mut out);
    assert_eq!(
        written(&out),
        vec![
            "before",
            "Hello, String",
            "Hello, Rust",
            "loop_1: 1",
            "loop_1: 2",
            "loop_1: 3",
        ]
    );
}

#[test]
fn numbered_line_joins_prefix_and_number() {
    assert_eq!(numbered_line("loop_1: ", 3), "loop_1: 3");
    assert_eq!(numbered_line("loop_2: ", 30), "loop_2: 30");
    assert_eq!(numbered_line("", -5), "-5");
    assert_eq!(numbered_line("n = ", 0), "n = 0");
}
