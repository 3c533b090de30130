//! Small verified helpers for building the text of log lines and messages.

use vstd::prelude::*;

verus! {

/// Equality of two string slices, by their characters.
pub fn same_text(a: &str, b: &str) -> (same: bool)
    ensures
        same == (a@ == b@),
{
    let left = String::from_str(a);
    let right = String::from_str(b);
    left == right
}

/// An owned copy of a string slice.
pub fn owned(a: &str) -> (copy: String)
    ensures
        copy@ == a@,
{
    String::from_str(a)
}

/// The two slices written one after the other.
pub fn join2(a: &str, b: &str) -> (joined: String)
    ensures
        joined@ == a@ + b@,
{
    let mut joined = String::from_str(a);
    joined.append(b);
    joined
}

/// The four slices written one after the other.
pub fn join4(a: &str, b: &str, c: &str, d: &str) -> (joined: String)
    ensures
        joined@ == a@ + b@ + c@ + d@,
{
    let mut joined = String::from_str(a);
    joined.append(b);
    joined.append(c);
    joined.append(d);
    joined
}

/// The five slices written one after the other.
pub fn join5(a: &str, b: &str, c: &str, d: &str, e: &str) -> (joined: String)
    ensures
        joined@ == a@ + b@ + c@ + d@ + e@,
{
    let mut joined = String::from_str(a);
    joined.append(b);
    joined.append(c);
    joined.append(d);
    joined.append(e);
    joined
}

} // verus!
