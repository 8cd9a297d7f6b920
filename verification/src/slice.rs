//! The substring-slicing demonstration: non-owning views into a text buffer
//! and a scanner that finds the first word.

use vstd::prelude::*;

verus! {

/// Holds when `r` is the prefix of `s` that ends exactly at the first space,
/// or all of `s` when no space occurs in it.
pub open spec fn is_first_word(s: Seq<char>, r: Seq<char>) -> bool {
    &&& r.len() <= s.len()
    &&& r == s.subrange(0, r.len() as int)
    &&& forall|i: int| 0 <= i < r.len() ==> s[i] != ' '
    &&& r.len() < s.len() ==> s[r.len() as int] == ' '
}

/// Returns the view of `s` up to, and excluding, the first space character,
/// or a view of the whole of `s` when it holds no space.
pub fn first_word<'a>(s: &'a str) -> (r: &'a str)
    ensures
        is_first_word(s@, r@),
{
    let n: usize = s.unicode_len();
    let mut i: usize = 0;
    while i < n
        invariant
            n == s@.len(),
            i <= n,
            forall|j: int| 0 <= j < i ==> s@[j] != ' ',
        decreases n - i,
    {
        if s.get_char(i) == ' ' {
            return s.substring_char(0, i);
        }
        i = i + 1;
    }
    s.substring_char(0, n)
}

/// Returns the view of `s` over the character offsets `[from, to)` without
/// copying the underlying data.
pub fn substring<'a>(s: &'a str, from: usize, to: usize) -> (r: &'a str)
    requires
        from <= to <= s@.len(),
    ensures
        r@ == s@.subrange(from as int, to as int),
{
    s.substring_char(from, to)
}

/// A scan of an input that holds no space returns the entire input.
pub proof fn lemma_first_word_no_space(s: Seq<char>, r: Seq<char>)
    requires
        is_first_word(s, r),
        forall|i: int| 0 <= i < s.len() ==> s[i] != ' ',
    ensures
        r == s,
{
    if r.len() < s.len() {
        assert(s[r.len() as int] == ' ');
        assert(false);
    }
    assert(s.subrange(0, s.len() as int) =~= s);
}

/// A scan of an empty input returns an empty view.
pub proof fn lemma_first_word_empty(s: Seq<char>, r: Seq<char>)
    requires
        is_first_word(s, r),
        s.len() == 0,
    ensures
        r == Seq::<char>::empty(),
{
    assert(r =~= Seq::<char>::empty());
}

/// The scan stops exactly at the first space: when position `k` holds the
/// first space of `s`, the result is the view over `[0, k)`.
pub proof fn lemma_first_word_at_space(s: Seq<char>, r: Seq<char>, k: int)
    requires
        is_first_word(s, r),
        0 <= k < s.len(),
        s[k] == ' ',
        forall|i: int| 0 <= i < k ==> s[i] != ' ',
    ensures
        r == s.subrange(0, k),
{
    if r.len() < k {
        assert(s[r.len() as int] == ' ');
        assert(false);
    }
    if r.len() > k {
        assert(s[k] != ' ');
        assert(false);
    }
}

/// Computes the three lines that the slicing demonstration reports: the two
/// fixed views, the first word, and the full-range view beside its source.
pub fn slice() -> (r: (String, String, String))
    ensures
        r.0@ == "from 0 to 5 = hello, from 6 to 11 = world"@,
        r.1@ == "first word in s is: hello"@,
        r.2@ == "You can copy with .. so s = hello world and slice = hello world"@,
{
    let s = String::from_str("hello world");
    proof {
        reveal_strlit("hello world");
    }

    let hello = substring(s.as_str(), 0, 5);
    let world = substring(s.as_str(), 6, 11);
    let mut line_views = String::from_str("from 0 to 5 = ");
    line_views.append(hello);
    line_views.append(", from 6 to 11 = ");
    line_views.append(world);
    proof {
        reveal_strlit("from 0 to 5 = ");
        reveal_strlit(", from 6 to 11 = ");
        reveal_strlit("from 0 to 5 = hello, from 6 to 11 = world");
        assert(line_views@ =~= "from 0 to 5 = hello, from 6 to 11 = world"@);
    }

    let w = first_word(s.as_str());
    proof {
        reveal_strlit("hello");
        lemma_first_word_at_space(s@, w@, 5);
        assert(w@ =~= "hello"@);
    }
    let mut line_word = String::from_str("first word in s is: ");
    line_word.append(w);
    proof {
        reveal_strlit("first word in s is: ");
        reveal_strlit("first word in s is: hello");
        assert(line_word@ =~= "first word in s is: hello"@);
    }

    let len: usize = s.as_str().unicode_len();
    let whole = substring(s.as_str(), 0, len);
    let mut line_copy = String::from_str("You can copy with .. so s = ");
    line_copy.append(s.as_str());
    line_copy.append(" and slice = ");
    line_copy.append(whole);
    proof {
        reveal_strlit("You can copy with .. so s = ");
        reveal_strlit(" and slice = ");
        reveal_strlit("You can copy with .. so s = hello world and slice = hello world");
        assert(line_copy@ =~= "You can copy with .. so s = hello world and slice = hello world"@);
    }

    (line_views, line_word, line_copy)
}

} // verus!
