//! The ownership demonstrations: moving a buffer into and out of functions,
//! duplicating scalars, and borrowing by reference.

use vstd::prelude::*;
use crate::decimal::dec_str_int;
use crate::decimal::format_i32;
use crate::decimal::format_u64;

verus! {

/// Takes ownership of the buffer and returns the line that reports it; the
/// caller's binding is consumed by the call.
pub fn takes_ownership(some_string: String) -> (r: String)
    ensures
        r@ == some_string@ + " - from takes_ownership"@,
{
    let mut r = some_string;
    r.append(" - from takes_ownership");
    r
}

/// Receives a duplicate of the scalar and returns the line that reports it;
/// the caller's binding stays usable after the call.
pub fn makes_copy(some_integer: i32) -> (r: String)
    ensures
        r@ == dec_str_int(some_integer as int) + " - from makes_copy"@,
{
    let mut r = format_i32(some_integer);
    r.append(" - from makes_copy");
    r
}

/// Moves a freshly built buffer into `takes_ownership`, then duplicates a
/// scalar into `makes_copy`; returns the two lines they produce.
pub fn scope_test() -> (r: (String, String))
    ensures
        r.0@ == "hello - from takes_ownership"@,
        r.1@ == "5 - from makes_copy"@,
{
    let s = String::from_str("hello");
    let line_s = takes_ownership(s);
    let x: i32 = 5;
    let line_x = makes_copy(x);
    proof {
        reveal_strlit("hello");
        reveal_strlit(" - from takes_ownership");
        reveal_strlit("hello - from takes_ownership");
        assert(line_s@ =~= "hello - from takes_ownership"@);
        reveal_strlit(" - from makes_copy");
        reveal_strlit("5 - from makes_copy");
        assert(line_x@ =~= "5 - from makes_copy"@);
    }
    (line_s, line_x)
}

/// Builds a buffer and moves its ownership out to the caller.
pub fn gives_ownership() -> (r: String)
    ensures
        r@ == "yours"@,
{
    let some_string = String::from_str("yours");
    some_string
}

/// Takes ownership of a buffer and returns that same ownership back to the
/// caller under the caller's new binding.
pub fn takes_and_gives_back(a_string: String) -> (r: String)
    ensures
        r == a_string,
{
    a_string
}

/// Receives ownership from a producer, then passes a second buffer through a
/// helper that hands it back; nothing is reported, and both buffers are
/// released when this scope ends.
pub fn transfer_return() {
    let _s1 = gives_ownership();
    let s2 = String::from_str("hello");
    let _s3 = takes_and_gives_back(s2);
}

/// Reports the number of characters in the referenced buffer without taking
/// ownership of it.
pub fn calculate_length(s: &String) -> (len: usize)
    ensures
        len == s@.len(),
{
    s.as_str().unicode_len()
}

/// Lends a buffer to the length computation and builds the line that reports
/// both the buffer and its length; the buffer stays valid after the borrow
/// and is read again here.
pub fn pass_reference() -> (r: String)
    ensures
        r@ == "The length of 'hello' is 5."@,
{
    let s1 = String::from_str("hello");
    let len: usize = calculate_length(&s1);
    let mut r = String::from_str("The length of '");
    r.append(s1.as_str());
    r.append("' is ");
    let len_text = format_u64(len as u64);
    r.append(len_text.as_str());
    r.append(".");
    proof {
        reveal_strlit("hello");
        reveal_strlit("The length of '");
        reveal_strlit("' is ");
        reveal_strlit(".");
        reveal_strlit("The length of 'hello' is 5.");
        assert(r@ =~= "The length of 'hello' is 5."@);
    }
    r
}

} // verus!
