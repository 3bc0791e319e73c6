//! Putting the texts of errors together.

use vstd::prelude::*;
use vstd::string::StringExecFns;

verus! {

/// The three texts in a row.
pub fn join3(first: &str, second: &str, third: &str) -> (text: String)
    ensures
        text@ == first@ + second@ + third@,
{
    let mut text = String::from_str(first);
    text.append(second);
    text.append(third);
    text
}

/// The four texts in a row.
pub fn join4(first: &str, second: &str, third: &str, fourth: &str) -> (text: String)
    ensures
        text@ == first@ + second@ + third@ + fourth@,
{
    let mut text = join3(first, second, third);
    text.append(fourth);
    text
}

} // verus!
