//! The answers that the line-protocol service writes back to its clients.
use vstd::prelude::*;



verus! {

/// The line written back for the answer `text`: the text and a line break.
pub fn response_line(text: &str) -> (r: String)
    ensures
        r@ == text@ + "\n"@,
{
    let mut r = String::from_str(text);
    r.append("\n");
    r
}

} // verus!
