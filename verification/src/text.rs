//! Small helpers for building text.

use vstd::prelude::*;
use vstd::string::StringExecFns;

verus! {

/// The views of a sequence of strings, in order.
pub open spec fn texts(lines: Seq<String>) -> Seq<Seq<char>> {
    lines.map_values(|line: String| line@)
}

/// `label` followed by `value`.
pub fn labelled(label: &str, value: &str) -> (s: String)
    ensures
        s@ == label@ + value@,
{
    String::from_str(label).concat(value)
}

/// `head`, `middle` and `tail`, one after the other.
pub fn framed(head: &str, middle: &str, tail: &str) -> (s: String)
    ensures
        s@ == head@ + middle@ + tail@,
{
    String::from_str(head).concat(middle).concat(tail)
}

} // verus!
