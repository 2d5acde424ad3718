//! The line that the test program prints for each test.

use vstd::prelude::*;
use vstd::string::*;

verus! {

/// The word for a test's outcome.
pub open spec fn verdict(passed: bool) -> Seq<char> {
    if passed {
        "PASSED"@
    } else {
        "FAILED"@
    }
}

/// The line for a test: its name, a dash between two blanks, and the word
/// for its outcome.
pub fn e2e_test(name: &str, passed: bool) -> (line: String)
    ensures
        line@ == name@ + " - "@ + verdict(passed),
{
    let result: &str = if passed {
        "PASSED"
    } else {
        "FAILED"
    };
    String::from_str(name).concat(" - ").concat(result)
}

} // verus!
