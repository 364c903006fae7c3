//! The outpost process's command line.
//!
//! Two ways to run: `--pipe-in <handle> --pipe-out <handle>`, the production
//! mode, spawned by the supervisor with two inherited pipe handle values
//! passed as decimal; and `--attach <pid>`, a development mode that watches
//! one process directly. Arguments are read in flag and value pairs after the
//! program name; an unrecognized flag, a flag without its value or a value
//! that is not a number in range makes the whole command line invalid. A
//! later occurrence of a flag overrides an earlier one, and attach mode wins
//! over pipe mode.

use vstd::prelude::*;

use crate::text::{decimal_nat, parse_decimal, str_equal};

verus! {

/// How the outpost runs.
#[derive(Clone, Copy, Debug, PartialEq, Eq)]
pub enum Mode {
    /// Production: commands arrive on `pipe_in`, messages leave on
    /// `pipe_out`.
    Pipe { pipe_in: usize, pipe_out: usize },
    /// Development: watch `pid` directly.
    Attach { pid: u32 },
}

/// A flag's value, parsed as a decimal no larger than `max`.
pub open spec fn flag_value(args: Seq<Seq<char>>, index: int, max: int) -> Option<int> {
    if index + 1 < args.len() {
        match decimal_nat(args[index + 1]) {
            Some(n) => if n <= max {
                Some(n)
            } else {
                None
            },
            None => None,
        }
    } else {
        None
    }
}

/// The values the flags read from position `index` on set, starting from
/// `found` (pipe in, pipe out, attach); `None` when a flag is not one of the
/// three, lacks its value, or its value is not a number in range.
pub open spec fn scan_args(args: Seq<Seq<char>>, index: int, found: (Option<int>, Option<int>, Option<int>)) -> Option<
    (Option<int>, Option<int>, Option<int>),
>
    decreases args.len() - index,
{
    if index < 1 || index >= args.len() {
        Some(found)
    } else {
        let arg = args[index];
        if arg == "--pipe-in"@ {
            match flag_value(args, index, usize::MAX as int) {
                Some(v) => scan_args(args, index + 2, (Some(v), found.1, found.2)),
                None => None,
            }
        } else if arg == "--pipe-out"@ {
            match flag_value(args, index, usize::MAX as int) {
                Some(v) => scan_args(args, index + 2, (found.0, Some(v), found.2)),
                None => None,
            }
        } else if arg == "--attach"@ {
            match flag_value(args, index, u32::MAX as int) {
                Some(v) => scan_args(args, index + 2, (found.0, found.1, Some(v))),
                None => None,
            }
        } else {
            None
        }
    }
}

/// The mode a command line selects: none when an argument is unrecognized
/// or incomplete; else attach when a pid was given, else pipe mode when both
/// handles were, else none.
pub open spec fn mode_of(args: Seq<Seq<char>>) -> Option<Mode> {
    match scan_args(args, 1, (None, None, None)) {
        None => None,
        Some(found) => match found.2 {
            Some(pid) => Some(Mode::Attach { pid: pid as u32 }),
            None => match (found.0, found.1) {
                (Some(pipe_in), Some(pipe_out)) => Some(
                    Mode::Pipe { pipe_in: pipe_in as usize, pipe_out: pipe_out as usize },
                ),
                _ => None,
            },
        },
    }
}

/// The arguments as the contracts see them.
pub open spec fn args_view(args: Seq<String>) -> Seq<Seq<char>> {
    args.map_values(|a: String| a@)
}

/// Parses the value after the flag at `index`.
fn value_after(args: &[String], index: usize, max: u64) -> (r: Option<u64>)
    requires
        index < args@.len(),
    ensures
        match flag_value(args_view(args@), index as int, max as int) {
            Some(n) => 0 <= n <= max && r == Some(n as u64),
            None => r is None,
        },
{
    if index < args.len() - 1 {
        assert(args_view(args@)[index + 1] == args@[index + 1]@);
        parse_decimal(args[index + 1].as_str(), max)
    } else {
        None
    }
}

/// Parses the command line into a run mode; `None` on unrecognized or
/// incomplete arguments.
pub fn parse_args(args: &[String]) -> (r: Option<Mode>)
    ensures
        r == mode_of(args_view(args@)),
{
    let ghost view = args_view(args@);
    let mut pipe_in: Option<u64> = None;
    let mut pipe_out: Option<u64> = None;
    let mut attach: Option<u64> = None;
    let mut index: usize = 1;
    let len = args.len();
    while index < len
        invariant
            len == args@.len(),
            view == args_view(args@),
            index >= 1,
            scan_args(view, 1, (None, None, None)) == scan_args(
                view,
                index as int,
                (
                    match pipe_in {
                        Some(v) => Some(v as int),
                        None => None,
                    },
                    match pipe_out {
                        Some(v) => Some(v as int),
                        None => None,
                    },
                    match attach {
                        Some(v) => Some(v as int),
                        None => None,
                    },
                ),
            ),
            pipe_in matches Some(v) ==> v <= usize::MAX,
            pipe_out matches Some(v) ==> v <= usize::MAX,
            attach matches Some(v) ==> v <= u32::MAX,
        decreases len - index,
    {
        let arg = args[index].as_str();
        assert(view[index as int] == arg@);
        if str_equal(arg, "--pipe-in") {
            match value_after(args, index, usize::MAX as u64) {
                Some(v) => pipe_in = Some(v),
                None => return None,
            }
        } else if str_equal(arg, "--pipe-out") {
            match value_after(args, index, usize::MAX as u64) {
                Some(v) => pipe_out = Some(v),
                None => return None,
            }
        } else if str_equal(arg, "--attach") {
            match value_after(args, index, u32::MAX as u64) {
                Some(v) => attach = Some(v),
                None => return None,
            }
        } else {
            return None;
        }
        if len - index <= 2 {
            index = len;
        } else {
            index = index + 2;
        }
    }
    if let Some(pid) = attach {
        return Some(Mode::Attach { pid: pid as u32 });
    }
    match (pipe_in, pipe_out) {
        (Some(pipe_in), Some(pipe_out)) => Some(Mode::Pipe { pipe_in: pipe_in as usize, pipe_out: pipe_out as usize }),
        _ => None,
    }
}

} // verus!
