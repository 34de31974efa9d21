//! Operator commands: a closed enumeration derived from one line of input.

use vstd::prelude::*;
use vstd::string::StrSliceExecFns;

verus! {

/// One operator command, derived from a single line of input.
///
/// Anything other than the three recognized words is `Unrecognized` and is
/// ignored by the event loop: no state change, the loop continues.
#[derive(Clone, Copy, PartialEq, Eq, Structural, Debug)]
pub enum Command {
    ShowReceiveAddress,
    ShowBalance,
    Shutdown,
    Unrecognized,
}

/// What one line of operator input means.
pub open spec fn parse_spec(line: Seq<char>) -> Command {
    if line == "address"@ {
        Command::ShowReceiveAddress
    } else if line == "balance"@ {
        Command::ShowBalance
    } else if line == "shutdown"@ {
        Command::Shutdown
    } else {
        Command::Unrecognized
    }
}

/// Character-for-character equality of two string slices.
fn str_eq(a: &str, b: &str) -> (r: bool)
    ensures
        r == (a@ == b@),
{
    let a_len: usize = a.unicode_len();
    let b_len: usize = b.unicode_len();
    if a_len != b_len {
        return false;
    }
    let mut i: usize = 0;
    while i < a_len
        invariant
            a_len == a@.len(),
            a_len == b@.len(),
            i <= a_len,
            forall|j: int| 0 <= j < i ==> a@[j] == b@[j],
        decreases a_len - i,
    {
        if a.get_char(i) != b.get_char(i) {
            return false;
        }
        i = i + 1;
    }
    proof {
        assert(a@ =~= b@);
    }
    true
}

/// Turn one trimmed line of operator input into a command.
pub fn parse(line: &str) -> (c: Command)
    ensures
        c == parse_spec(line@),
{
    if str_eq(line, "address") {
        Command::ShowReceiveAddress
    } else if str_eq(line, "balance") {
        Command::ShowBalance
    } else if str_eq(line, "shutdown") {
        Command::Shutdown
    } else {
        Command::Unrecognized
    }
}

} // verus!
