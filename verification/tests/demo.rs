use ownership_demo::decimal::format_i32;
use ownership_demo::decimal::format_u64;
use ownership_demo::demo_lines;
use ownership_demo::ownership::calculate_length;
use ownership_demo::ownership::gives_ownership;
use ownership_demo::ownership::makes_copy;
use ownership_demo::ownership::pass_reference;
use ownership_demo::ownership::scope_test;
use ownership_demo::ownership::takes_and_gives_back;
use ownership_demo::ownership::takes_ownership;
use ownership_demo::ownership::transfer_return;
use ownership_demo::slice::first_word;
use ownership_demo::slice::slice;
use ownership_demo::slice::substring;

#[test]
fn slicing_fixed_offsets() {
    let s = String::from("hello world");
    assert_eq!(substring(s.as_str(), 0, 5), "hello");
    assert_eq!(substring(s.as_str(), 6, 11), "world");
    assert_eq!(substring(s.as_str(), 0, 11), "hello world");
}

#[test]
fn first_word_stops_at_first_space() {
    assert_eq!(first_word("hello world"), "hello");
}

#[test]
fn first_word_space_later_ignored() {
    assert_eq!(first_word("a bc d"), "a");
}

#[test]
fn first_word_without_space_returns_all() {
    assert_eq!(first_word("helloworld"), "helloworld");
}

#[test]
fn first_word_empty_input() {
    assert_eq!(first_word(""), "");
}

#[test]
fn first_word_leading_space() {
    assert_eq!(first_word(" hi"), "");
}

#[test]
fn clone_is_independent() {
    let s1 = String::from("hello");
    let mut s2 = s1.clone();
    assert_eq!(s1, s2);
    s2.push_str(" world");
    assert_eq!(s1, "hello");
    assert_eq!(s2, "hello world");
}

#[test]
fn borrowed_length_leaves_buffer_valid() {
    let s = String::from("hello");
    let len = calculate_length(&s);
    assert_eq!(len, 5);
    assert_eq!(s, "hello");
}

#[test]
fn scalar_duplication_keeps_both() {
    let x: i32 = 5;
    let y: i32 = x;
    assert_eq!(x, 5);
    assert_eq!(y, 5);
    assert_eq!(x, y);
}

#[test]
fn takes_ownership_line() {
    let s = String::from("hello");
    assert_eq!(takes_ownership(s), "hello - from takes_ownership");
}

#[test]
fn makes_copy_line() {
    let x: i32 = 5;
    assert_eq!(makes_copy(x), "5 - from makes_copy");
    assert_eq!(makes_copy(-3), "-3 - from makes_copy");
    assert_eq!(x, 5);
}

#[test]
fn scope_test_lines() {
    let (moved, copied) = scope_test();
    assert_eq!(moved, "hello - from takes_ownership");
    assert_eq!(copied, "5 - from makes_copy");
}

#[test]
fn ownership_returned_from_functions() {
    assert_eq!(gives_ownership(), "yours");
    let s2 = String::from("hello");
    let s3 = takes_and_gives_back(s2);
    assert_eq!(s3, "hello");
    transfer_return();
}

#[test]
fn pass_reference_line() {
    assert_eq!(pass_reference(), "The length of 'hello' is 5.");
}

#[test]
fn slice_lines() {
    let (views, word, copy) = slice();
    assert_eq!(views, "from 0 to 5 = hello, from 6 to 11 = world");
    assert_eq!(word, "first word in s is: hello");
    assert_eq!(copy, "You can copy with .. so s = hello world and slice = hello world");
}

#[test]
fn decimal_exact_values() {
    assert_eq!(format_u64(0), "0");
    assert_eq!(format_u64(5), "5");
    assert_eq!(format_u64(10), "10");
    assert_eq!(format_u64(1234567890123), "1234567890123");
    assert_eq!(format_u64(u64::MAX), "18446744073709551615");
    assert_eq!(format_i32(5), "5");
    assert_eq!(format_i32(0), "0");
    assert_eq!(format_i32(-207), "-207");
    assert_eq!(format_i32(i32::MAX), "2147483647");
    assert_eq!(format_i32(i32::MIN), "-2147483648");
}

#[test]
fn all_nine_lines_in_order() {
    let lines = demo_lines();
    let expected = vec![
        "hello, world!",
        "s1 = hello, s2 = hello",
        "x = 5, y = 5",
        "hello - from takes_ownership",
        "5 - from makes_copy",
        "The length of 'hello' is 5.",
        "from 0 to 5 = hello, from 6 to 11 = world",
        "first word in s is: hello",
        "You can copy with .. so s = hello world and slice = hello world",
    ];
    assert_eq!(lines.len(), 9);
    for (line, want) in lines.iter().zip(expected.iter()) {
        assert_eq!(line, want);
    }
}
