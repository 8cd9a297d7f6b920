//! Building blocks of a walkthrough of ownership, borrowing, and string
//! slicing: owned text buffers, scalar copies, a first-word scanner, and a
//! runner that assembles the walkthrough's printed lines.

use vstd::prelude::*;

pub mod decimal;
pub mod ownership;
pub mod slice;

verus! {

/// Runs the whole walkthrough and returns, in order, exactly the lines it
/// reports: the appended buffer, the deep copy, the duplicated scalar, the
/// two ownership-transfer reports, the borrowed length, and the three
/// slicing lines.
pub fn demo_lines() -> (r: Vec<String>)
    ensures
        r@.len() == 9,
        r@[0]@ == "hello, world!"@,
        r@[1]@ == "s1 = hello, s2 = hello"@,
        r@[2]@ == "x = 5, y = 5"@,
        r@[3]@ == "hello - from takes_ownership"@,
        r@[4]@ == "5 - from makes_copy"@,
        r@[5]@ == "The length of 'hello' is 5."@,
        r@[6]@ == "from 0 to 5 = hello, from 6 to 11 = world"@,
        r@[7]@ == "first word in s is: hello"@,
        r@[8]@ == "You can copy with .. so s = hello world and slice = hello world"@,
{
    let _s: &str = "hello";
    {
        let _s: &str = "hello";
    }

    let mut mutable_s = String::from_str("hello");
    mutable_s.append(", world!");
    proof {
        reveal_strlit("hello");
        reveal_strlit(", world!");
        reveal_strlit("hello, world!");
        assert(mutable_s@ =~= "hello, world!"@);
    }

    {
        let _s = String::from_str("hello");
    }

    let s1 = String::from_str("hello");
    let s2 = s1.clone();
    let mut line_copy = String::from_str("s1 = ");
    line_copy.append(s1.as_str());
    line_copy.append(", s2 = ");
    line_copy.append(s2.as_str());
    proof {
        reveal_strlit("s1 = ");
        reveal_strlit(", s2 = ");
        reveal_strlit("s1 = hello, s2 = hello");
        assert(line_copy@ =~= "s1 = hello, s2 = hello"@);
    }

    let x: i32 = 5;
    let y: i32 = x;
    let mut line_scalar = String::from_str("x = ");
    let x_text = decimal::format_i32(x);
    line_scalar.append(x_text.as_str());
    line_scalar.append(", y = ");
    let y_text = decimal::format_i32(y);
    line_scalar.append(y_text.as_str());
    proof {
        reveal_strlit("x = ");
        reveal_strlit(", y = ");
        reveal_strlit("x = 5, y = 5");
        assert(line_scalar@ =~= "x = 5, y = 5"@);
    }

    let (line_moved, line_copied) = ownership::scope_test();
    ownership::transfer_return();
    let line_length = ownership::pass_reference();
    let (line_views, line_word, line_slice) = slice::slice();

    let mut r: Vec<String> = Vec::new();
    r.push(mutable_s);
    r.push(line_copy);
    r.push(line_scalar);
    r.push(line_moved);
    r.push(line_copied);
    r.push(line_length);
    r.push(line_views);
    r.push(line_word);
    r.push(line_slice);
    r
}

} // verus!
