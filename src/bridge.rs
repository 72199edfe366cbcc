//! The text that the host-facing calls hand to the host's notification and
//! logging sinks. The sinks themselves, and the rendering of floating-point
//! values, belong to the host side.
use vstd::prelude::*;
use vstd::string::StringExecFns;
use crate::decimal::{decimal, decimal_string};

verus! {

/// The fixed greeting shown by `greet`.
pub open spec fn greeting() -> Seq<char> {
    "From WASM, with love."@
}

/// The notification that reports an array's length: `a.len() = <len>`.
pub open spec fn length_notice_text(len: nat) -> Seq<char> {
    "a.len() = "@ + decimal(len)
}

/// The log line of one element: `a[<index>] = <value>`, where `value` is the
/// element as the host renders it.
pub open spec fn element_line_text(index: nat, value: Seq<char>) -> Seq<char> {
    "a["@ + decimal(index) + "] = "@ + value
}

/// The greeting text; every call gives the same text.
pub fn greet_message() -> (r: String)
    ensures
        r@ == greeting(),
{
    String::from_str("From WASM, with love.")
}

/// The notification that reports an array of `len` elements.
pub fn length_notice(len: usize) -> (r: String)
    ensures
        r@ == length_notice_text(len as nat),
{
    let digits = decimal_string(len);
    String::from_str("a.len() = ").concat(digits.as_str())
}

/// The log line of the element at `index`, whose rendered value is `value`.
pub fn element_line(index: usize, value: &str) -> (r: String)
    ensures
        r@ == element_line_text(index as nat, value@),
{
    let digits = decimal_string(index);
    let mut line = String::from_str("a[");
    line.append(digits.as_str());
    line.append("] = ");
    line.append(value);
    line
}

/// What `accept_array` emits for an array whose elements render as `values`:
/// one notification reporting the length, then one log line per element, in
/// index order.
pub fn accept_array_messages(values: &Vec<String>) -> (r: (String, Vec<String>))
    ensures
        r.0@ == length_notice_text(values.len() as nat),
        r.1.len() == values.len(),
        forall|i: int|
            0 <= i < values.len() ==> (#[trigger] r.1[i])@ == element_line_text(
                i as nat,
                values[i]@,
            ),
{
    let notice = length_notice(values.len());
    let mut lines: Vec<String> = Vec::new();
    let mut i: usize = 0;
    while i < values.len()
        invariant
            i <= values.len(),
            lines.len() == i,
            forall|j: int|
                0 <= j < i ==> (#[trigger] lines[j])@ == element_line_text(
                    j as nat,
                    values[j]@,
                ),
        decreases values.len() - i,
    {
        lines.push(element_line(i, values[i].as_str()));
        i = i + 1;
    }
    (notice, lines)
}

} // verus!
