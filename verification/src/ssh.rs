//! What a shell on a host prints, read out of the buffer it was received
//! in.

use vstd::prelude::*;
use crate::text::{chars_of, text_of};

verus! {

/// Whether `char::is_whitespace` holds of a character.
pub uninterp spec fn is_space(c: char) -> bool;

/// `char::is_whitespace` tells whether a character has the Unicode
/// property `White_Space`; the contract gives that result a name.
pub assume_specification[ char::is_whitespace ](c: char) -> (r: bool)
    ensures
        r == is_space(c),
;

/// Whether `c` is dropped at the end of a buffer: it is the character 0.
pub open spec fn is_padding(c: char) -> bool {
    c == '\0'
}

/// Number of characters at the end of `s` that satisfy `dropped`.
pub open spec fn trailing(s: Seq<char>, dropped: spec_fn(char) -> bool) -> int
    decreases s.len(),
{
    if s.len() > 0 && dropped(s.last()) {
        1 + trailing(s.drop_last(), dropped)
    } else {
        0
    }
}

/// Number of characters at the start of `s` that satisfy `dropped`.
pub open spec fn leading(s: Seq<char>, dropped: spec_fn(char) -> bool) -> int
    decreases s.len(),
{
    if s.len() > 0 && dropped(s[0]) {
        1 + leading(s.drop_first(), dropped)
    } else {
        0
    }
}

/// What was printed: the buffer without the characters 0 at its end, and
/// then without the white space around it.
pub open spec fn cleaned(raw: Seq<char>) -> Seq<char> {
    let text = raw.take(raw.len() - trailing(raw, |c: char| is_padding(c)));
    let from = leading(text, |c: char| is_space(c));
    if from == text.len() {
        Seq::empty()
    } else {
        text.subrange(from, text.len() - trailing(text, |c: char| is_space(c)))
    }
}

/// `trailing` counts exactly the suffix that is dropped.
pub proof fn lemma_trailing(s: Seq<char>, dropped: spec_fn(char) -> bool, n: int)
    requires
        0 <= n <= s.len(),
        forall|i: int| s.len() - n <= i < s.len() ==> dropped(#[trigger] s[i]),
        n < s.len() ==> !dropped(s[s.len() - n - 1]),
    ensures
        trailing(s, dropped) == n,
    decreases n,
{
    if n > 0 {
        assert(dropped(s[s.len() - 1]));
        let t = s.drop_last();
        assert forall|i: int| t.len() - (n - 1) <= i < t.len() implies dropped(#[trigger] t[i]) by {
            assert(t[i] == s[i]);
        }
        if n - 1 < t.len() {
            assert(t[t.len() - (n - 1) - 1] == s[s.len() - n - 1]);
        }
        lemma_trailing(t, dropped, n - 1);
    }
}

/// `leading` counts exactly the prefix that is dropped.
pub proof fn lemma_leading(s: Seq<char>, dropped: spec_fn(char) -> bool, n: int)
    requires
        0 <= n <= s.len(),
        forall|i: int| 0 <= i < n ==> dropped(#[trigger] s[i]),
        n < s.len() ==> !dropped(s[n]),
    ensures
        leading(s, dropped) == n,
    decreases n,
{
    if n > 0 {
        assert(dropped(s[0]));
        let t = s.drop_first();
        assert forall|i: int| 0 <= i < n - 1 implies dropped(#[trigger] t[i]) by {
            assert(t[i] == s[i + 1]);
        }
        if n - 1 < t.len() {
            assert(t[n - 1] == s[n]);
        }
        lemma_leading(t, dropped, n - 1);
    }
}

/// Reads what a shell printed out of the buffer `raw`.
pub fn read(raw: &str) -> (r: String)
    ensures
        r@ == cleaned(raw@),
{
    let v = chars_of(raw);
    let ghost padding = |c: char| is_padding(c);
    let ghost space = |c: char| is_space(c);
    let mut end: usize = v.len();
    while end > 0 && v[end - 1] == '\0'
        invariant
            end <= v.len(),
            forall|i: int| end <= i < v.len() ==> is_padding(#[trigger] v@[i]),
        decreases end,
    {
        end -= 1;
    }
    proof {
        assert forall|i: int| v@.len() - (v.len() - end) <= i < v@.len() implies padding(
            #[trigger] v@[i],
        ) by {}
        lemma_trailing(v@, padding, v.len() - end);
    }
    let ghost text = v@.take(end as int);
    let mut from: usize = 0;
    while from < end && v[from].is_whitespace()
        invariant
            from <= end <= v.len(),
            forall|i: int| 0 <= i < from ==> is_space(#[trigger] v@[i]),
        decreases end - from,
    {
        from += 1;
    }
    proof {
        assert forall|i: int| 0 <= i < from implies space(#[trigger] text[i]) by {
            assert(text[i] == v@[i]);
        }
        if from < end {
            assert(text[from as int] == v@[from as int]);
        }
        lemma_leading(text, space, from as int);
    }
    if from == end {
        return String::new();
    }
    let mut to: usize = end;
    while to > from && v[to - 1].is_whitespace()
        invariant
            from < end <= v.len(),
            from <= to <= end,
            !is_space(v@[from as int]),
            forall|i: int| to <= i < end ==> is_space(#[trigger] v@[i]),
        decreases to,
    {
        to -= 1;
    }
    proof {
        assert(to > from);
        assert forall|i: int| text.len() - (end - to) <= i < text.len() implies space(
            #[trigger] text[i],
        ) by {
            assert(text[i] == v@[i]);
        }
        assert(text[text.len() - (end - to) - 1] == v@[to - 1]);
        lemma_trailing(text, space, end - to);
        assert(v@.subrange(from as int, to as int) == text.subrange(
            from as int,
            text.len() - (end - to),
        ));
    }
    text_of(&v, from, to)
}

} // verus!
