//! The runtime's command line, and the launcher's exit status.
use crate::views;
use vstd::prelude::*;

verus! {

/// The runtime's command line:
/// `run <program> <extra runtime args...> -- <application args...>`.
pub open spec fn command_line_of(
    program: Seq<char>,
    extra: Seq<Seq<char>>,
    app_args: Seq<Seq<char>>,
) -> Seq<Seq<char>> {
    seq!["run"@, program] + extra + seq!["--"@] + app_args
}

/// Appends copies of `items` to `out`.
fn push_all(out: &mut Vec<String>, items: &Vec<String>)
    ensures
        final(out)@ == old(out)@ + items@,
{
    let mut i: usize = 0;
    while i < items.len()
        invariant
            0 <= i <= items@.len(),
            out@ == old(out)@ + items@.subrange(0, i as int),
        decreases items@.len() - i,
    {
        out.push(items[i].clone());
        i = i + 1;
        assert(out@ =~= old(out)@ + items@.subrange(0, i as int));
    }
    assert(items@.subrange(0, items@.len() as int) =~= items@);
}

/// Assembles the runtime's command line, in a fixed order: `run`, the
/// program, the extra runtime arguments, `--`, then the application's own.
pub fn assemble_args(program: &String, extra: &Vec<String>, app_args: &Vec<String>) -> (r: Vec<
    String,
>)
    ensures
        views(r@) == command_line_of(program@, views(extra@), views(app_args@)),
{
    let mut out: Vec<String> = Vec::new();
    out.push(String::from_str("run"));
    out.push(program.clone());
    push_all(&mut out, extra);
    out.push(String::from_str("--"));
    push_all(&mut out, app_args);
    assert(views(out@) =~= command_line_of(program@, views(extra@), views(app_args@)));
    out
}

/// The exit status that stands for a runtime which ended without one (it
/// was stopped by a signal).
pub const NO_STATUS_EXIT: i32 = 1;

/// The launcher's exit status: the runtime's own, where it has one.
pub fn exit_code(runtime_status: Option<i32>) -> (r: i32)
    ensures
        runtime_status matches Some(c) ==> r == c,
        runtime_status is None ==> r == NO_STATUS_EXIT && r != 0,
{
    match runtime_status {
        Some(c) => c,
        None => NO_STATUS_EXIT,
    }
}

} // verus!
