//! Small functions on numbers and strings: returning values, borrowing a
//! string to read or to change it, and handing ownership in and out.

use vstd::prelude::*;
use vstd::string::StringExecFns;

verus! {

/// Returns 5.
pub fn five() -> (r: i32)
    ensures
        r == 5,
{
    5
}

/// Returns 8.
pub fn six() -> (r: i32)
    ensures
        r == 8,
{
    5 + 3
}

/// Returns `x + 1`; `x` must be below `i32::MAX`.
pub fn plus_one(x: i32) -> (r: i32)
    requires
        x < i32::MAX,
    ensures
        r == x + 1,
{
    x + 1
}

/// The length of `s` in bytes of its UTF-8 encoding.
pub fn calculates_length(s: &String) -> (len: usize)
    ensures
        len == vstd::utf8::encode_utf8(s@).len() as usize,
{
    s.as_str().len()
}

/// Appends ", world" to `some_string`.
pub fn change(some_string: &mut String)
    ensures
        final(some_string)@ == old(some_string)@ + ", world"@,
{
    some_string.append(", world");
}

/// A new string "hello", owned by the caller.
pub fn dangle() -> (s: String)
    ensures
        s@ == "hello"@,
{
    String::from_str("hello")
}

/// A new string "yours", owned by the caller.
pub fn gives_ownership() -> (s: String)
    ensures
        s@ == "yours"@,
{
    String::from_str("yours")
}

/// Takes `a_string` and hands it back unchanged.
pub fn takes_and_gives_back(a_string: String) -> (s: String)
    ensures
        s == a_string,
{
    a_string
}

} // verus!
