//! The command line: which command a run performs, and how much of the diff
//! it sends.
use vstd::prelude::*;
use vstd::string::StringExecFns;
use crate::text::{chars_of, string_of, text_equals};

verus! {

broadcast use vstd::string::group_string_axioms;

/// What a run does.
#[derive(Debug, Clone, PartialEq, Eq)]
pub enum CliCommand {
    /// No argument: summarize the staged changes.
    Summarize,
    /// `verify`: check the configuration file.
    Verify,
    /// `help`, `--help` or `-h`: show the usage.
    Help,
    /// Any other first argument.
    Unknown { name: String },
}

/// Reads the command from the arguments, the program name first.
pub fn parse_command(args: &Vec<String>) -> (r: CliCommand)
    ensures
        args@.len() <= 1 ==> r == CliCommand::Summarize,
        args@.len() > 1 && args@[1]@ == "verify"@ ==> r == CliCommand::Verify,
        args@.len() > 1 && (args@[1]@ == "help"@ || args@[1]@ == "--help"@ || args@[1]@
            == "-h"@) ==> r == CliCommand::Help,
        args@.len() > 1 && args@[1]@ != "verify"@ && args@[1]@ != "help"@ && args@[1]@
            != "--help"@ && args@[1]@ != "-h"@ ==> r == (CliCommand::Unknown { name: args@[1] }),
{
    if args.len() <= 1 {
        return CliCommand::Summarize;
    }
    let a = args[1].as_str();
    proof {
        reveal_strlit("verify");
        reveal_strlit("help");
        reveal_strlit("--help");
        reveal_strlit("-h");
        assert("verify"@ != "help"@ && "verify"@ != "--help"@ && "verify"@ != "-h"@) by {
            assert("verify"@.len() != "help"@.len());
            assert("verify"@[0] != "--help"@[0]);
            assert("verify"@.len() != "-h"@.len());
        }
    }
    if text_equals(a, "verify") {
        CliCommand::Verify
    } else if text_equals(a, "help") || text_equals(a, "--help") || text_equals(a, "-h") {
        CliCommand::Help
    } else {
        CliCommand::Unknown { name: args[1].clone() }
    }
}

/// The diff as it is sent: where it is longer than `max_len` bytes, its
/// first `max_len` characters.
pub open spec fn truncated(diff: &str, max_len: usize) -> Seq<char> {
    if diff.len() > max_len {
        diff@.take(if max_len < diff@.len() { max_len as int } else { diff@.len() as int })
    } else {
        diff@
    }
}

/// Cuts the diff down to `max_len` characters where it is longer than
/// `max_len` bytes.
pub fn truncate_diff(diff: &str, max_len: usize) -> (r: String)
    ensures
        r@ == truncated(diff, max_len),
{
    if diff.len() <= max_len {
        return String::from_str(diff);
    }
    let all = chars_of(diff);
    let end: usize = if max_len < all.len() { max_len } else { all.len() };
    let mut out: Vec<char> = Vec::new();
    let mut i: usize = 0;
    while i < end
        invariant
            i <= end <= all@.len(),
            out@ == all@.take(i as int),
        decreases end - i,
    {
        out.push(all[i]);
        i = i + 1;
        assert(out@ =~= all@.take(i as int));
    }
    string_of(&out)
}

} // verus!
