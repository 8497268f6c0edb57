//! Text as sequences of characters: the small vocabulary of scanning and
//! building operations that the parsers and formatters of this crate share.

use vstd::prelude::*;
use vstd::std_specs::iter::IteratorSpec;
use vstd::string::StringExecFns;

verus! {

/// `String::push` appends one character.
pub assume_specification[ String::push ](s: &mut String, c: char)
    ensures
        final(s)@ == old(s)@.push(c),
;

/// The characters of `s`, in order.
pub fn chars_of(s: &str) -> (r: Vec<char>)
    ensures
        r@ == s@,
{
    broadcast use vstd::string::group_string_axioms;

    let mut out: Vec<char> = Vec::new();
    let mut it = s.chars();
    loop
        invariant
            out@ + it.remaining() == s@,
            it.decrease() is Some,
        ensures
            out@ == s@,
        decreases it.decrease()->0,
    {
        match it.next() {
            Some(c) => {
                out.push(c);
            },
            None => {
                break ;
            },
        }
    }
    out
}

/// The text made of `v[from..to]`.
pub fn text_of(v: &Vec<char>, from: usize, to: usize) -> (r: String)
    requires
        from <= to <= v.len(),
    ensures
        r@ == v@.subrange(from as int, to as int),
{
    let mut out = String::new();
    let mut i: usize = from;
    while i < to
        invariant
            from <= i <= to <= v.len(),
            out@ == v@.subrange(from as int, i as int),
        decreases to - i,
    {
        out.push(v[i]);
        i += 1;
    }
    out
}

/// Whether two texts hold the same characters.
pub fn str_eq(a: &str, b: &str) -> (r: bool)
    ensures
        r == (a@ == b@),
{
    a.to_owned() == b.to_owned()
}

/// An owned copy of `a`.
pub fn owned(a: &str) -> (r: String)
    ensures
        r@ == a@,
{
    a.to_owned()
}

/// `a` followed by `b`.
pub fn join2(a: &str, b: &str) -> (r: String)
    ensures
        r@ == a@ + b@,
{
    a.to_owned().concat(b)
}

/// Index of the first `c` in `s`, or `s.len()` when there is none.
pub open spec fn first_index(s: Seq<char>, c: char) -> int
    decreases s.len(),
{
    if s.len() == 0 {
        0
    } else if s[0] == c {
        0
    } else {
        1 + first_index(s.drop_first(), c)
    }
}

/// Index of the last `c` in `s`, or `-1` when there is none.
pub open spec fn last_index(s: Seq<char>, c: char) -> int
    decreases s.len(),
{
    if s.len() == 0 {
        -1
    } else if s.last() == c {
        s.len() - 1
    } else {
        last_index(s.drop_last(), c)
    }
}

/// `first_index` is the least position holding `c`.
pub proof fn lemma_first_index(s: Seq<char>, c: char)
    ensures
        0 <= first_index(s, c) <= s.len(),
        first_index(s, c) < s.len() ==> s[first_index(s, c)] == c,
        forall|i: int| 0 <= i < first_index(s, c) ==> s[i] != c,
        s.contains(c) <==> first_index(s, c) < s.len(),
    decreases s.len(),
{
    if s.len() == 0 {
    } else if s[0] == c {
    } else {
        let t = s.drop_first();
        lemma_first_index(t, c);
        assert forall|i: int| 0 <= i < first_index(s, c) implies s[i] != c by {
            if i > 0 {
                assert(s[i] == t[i - 1]);
            }
        }
        if first_index(s, c) < s.len() {
            assert(s[first_index(s, c)] == t[first_index(t, c)]);
        }
        if s.contains(c) {
            let j = choose|j: int| 0 <= j < s.len() && s[j] == c;
            assert(t[j - 1] == c);
            assert(t.contains(c));
        }
    }
}

/// `last_index` is the greatest position holding `c`.
pub proof fn lemma_last_index(s: Seq<char>, c: char)
    ensures
        -1 <= last_index(s, c) < s.len(),
        last_index(s, c) >= 0 ==> s[last_index(s, c)] == c,
        forall|i: int| last_index(s, c) < i < s.len() ==> s[i] != c,
        s.contains(c) <==> last_index(s, c) >= 0,
    decreases s.len(),
{
    if s.len() == 0 {
    } else if s.last() == c {
    } else {
        let t = s.drop_last();
        lemma_last_index(t, c);
        assert forall|i: int| last_index(s, c) < i < s.len() implies s[i] != c by {
            if i < s.len() - 1 {
                assert(s[i] == t[i]);
            }
        }
        if s.contains(c) {
            let j = choose|j: int| 0 <= j < s.len() && s[j] == c;
            assert(t[j] == c);
            assert(t.contains(c));
        }
    }
}

/// Position of the first `c` in `v[from..to]`, counted from the start of `v`;
/// `to` when there is none.
pub fn find_char(v: &Vec<char>, from: usize, to: usize, c: char) -> (r: usize)
    requires
        from <= to <= v.len(),
    ensures
        r == from + first_index(v@.subrange(from as int, to as int), c),
        from <= r <= to,
{
    let ghost s = v@.subrange(from as int, to as int);
    proof {
        lemma_first_index(s, c);
    }
    let mut i: usize = from;
    while i < to
        invariant
            from <= i <= to <= v.len(),
            s == v@.subrange(from as int, to as int),
            forall|j: int| 0 <= j < i - from ==> s[j] != c,
            0 <= first_index(s, c) <= s.len(),
            first_index(s, c) < s.len() ==> s[first_index(s, c)] == c,
            forall|j: int| 0 <= j < first_index(s, c) ==> s[j] != c,
        decreases to - i,
    {
        if v[i] == c {
            assert(s[i - from] == c);
            return i;
        }
        i += 1;
    }
    i
}

/// Position of the last `c` in `v[from..to]`, counted from the start of `v`;
/// `None` when there is none.
pub fn rfind_char(v: &Vec<char>, from: usize, to: usize, c: char) -> (r: Option<usize>)
    requires
        from <= to <= v.len(),
    ensures
        match r {
            Some(i) => i == from + last_index(v@.subrange(from as int, to as int), c) && from <= i
                < to,
            None => last_index(v@.subrange(from as int, to as int), c) == -1,
        },
{
    let ghost s = v@.subrange(from as int, to as int);
    proof {
        lemma_last_index(s, c);
    }
    let mut i: usize = to;
    while i > from
        invariant
            from <= i <= to <= v.len(),
            s == v@.subrange(from as int, to as int),
            forall|j: int| i - from <= j < s.len() ==> s[j] != c,
            -1 <= last_index(s, c) < s.len(),
            last_index(s, c) >= 0 ==> s[last_index(s, c)] == c,
            forall|j: int| last_index(s, c) < j < s.len() ==> s[j] != c,
        decreases i - from,
    {
        i -= 1;
        if v[i] == c {
            assert(s[i - from] == c);
            return Some(i);
        }
    }
    None
}

/// Whether `s` holds the character `c`.
pub fn contains_char(s: &str, c: char) -> (r: bool)
    ensures
        r == s@.contains(c),
{
    let v = chars_of(s);
    let i = find_char(&v, 0, v.len(), c);
    proof {
        assert(v@.subrange(0, v.len() as int) == v@);
        lemma_first_index(v@, c);
    }
    i < v.len()
}


/// The characters that the line-based formats of this crate treat as blank.
pub open spec fn is_blank(c: char) -> bool {
    c == ' ' || c == '\t' || c == '\r'
}

/// Number of blank characters at the start of `s`.
pub open spec fn leading_blanks(s: Seq<char>) -> int
    decreases s.len(),
{
    if s.len() > 0 && is_blank(s[0]) {
        1 + leading_blanks(s.drop_first())
    } else {
        0
    }
}

/// Number of blank characters at the end of `s`.
pub open spec fn trailing_blanks(s: Seq<char>) -> int
    decreases s.len(),
{
    if s.len() > 0 && is_blank(s.last()) {
        1 + trailing_blanks(s.drop_last())
    } else {
        0
    }
}

/// `s` without the blanks at its start and at its end.
pub open spec fn trimmed(s: Seq<char>) -> Seq<char> {
    if leading_blanks(s) == s.len() {
        Seq::empty()
    } else {
        s.subrange(leading_blanks(s), s.len() - trailing_blanks(s))
    }
}

/// `leading_blanks` counts exactly the blank prefix.
pub proof fn lemma_leading_blanks(s: Seq<char>)
    ensures
        0 <= leading_blanks(s) <= s.len(),
        forall|i: int| 0 <= i < leading_blanks(s) ==> is_blank(s[i]),
        leading_blanks(s) < s.len() ==> !is_blank(s[leading_blanks(s)]),
    decreases s.len(),
{
    if s.len() > 0 && is_blank(s[0]) {
        let t = s.drop_first();
        lemma_leading_blanks(t);
        assert forall|i: int| 0 <= i < leading_blanks(s) implies is_blank(s[i]) by {
            if i > 0 {
                assert(s[i] == t[i - 1]);
            }
        }
        if leading_blanks(s) < s.len() {
            assert(s[leading_blanks(s)] == t[leading_blanks(t)]);
        }
    }
}

/// `trailing_blanks` counts exactly the blank suffix.
pub proof fn lemma_trailing_blanks(s: Seq<char>)
    ensures
        0 <= trailing_blanks(s) <= s.len(),
        forall|i: int| s.len() - trailing_blanks(s) <= i < s.len() ==> is_blank(s[i]),
        trailing_blanks(s) < s.len() ==> !is_blank(s[s.len() - trailing_blanks(s) - 1]),
    decreases s.len(),
{
    if s.len() > 0 && is_blank(s.last()) {
        let t = s.drop_last();
        lemma_trailing_blanks(t);
        assert forall|i: int| s.len() - trailing_blanks(s) <= i < s.len() implies is_blank(
            s[i],
        ) by {
            if i < s.len() - 1 {
                assert(s[i] == t[i]);
            }
        }
        if trailing_blanks(s) < s.len() {
            assert(s[s.len() - trailing_blanks(s) - 1] == t[t.len() - trailing_blanks(t) - 1]);
        }
    }
}

/// A count of blanks at the start of `s` that stops at a non-blank is
/// `leading_blanks`.
pub proof fn lemma_leading_blanks_is(s: Seq<char>, n: int)
    requires
        0 <= n <= s.len(),
        forall|i: int| 0 <= i < n ==> is_blank(s[i]),
        n < s.len() ==> !is_blank(s[n]),
    ensures
        leading_blanks(s) == n,
{
    lemma_leading_blanks(s);
    let m = leading_blanks(s);
    if m < n {
        assert(is_blank(s[m]));
    } else if n < m {
        assert(is_blank(s[n]));
    }
}

/// A count of blanks at the end of `s` that stops at a non-blank is
/// `trailing_blanks`.
pub proof fn lemma_trailing_blanks_is(s: Seq<char>, n: int)
    requires
        0 <= n <= s.len(),
        forall|i: int| s.len() - n <= i < s.len() ==> is_blank(s[i]),
        n < s.len() ==> !is_blank(s[s.len() - n - 1]),
    ensures
        trailing_blanks(s) == n,
{
    lemma_trailing_blanks(s);
    let m = trailing_blanks(s);
    if m < n {
        assert(is_blank(s[s.len() - m - 1]));
    } else if n < m {
        assert(is_blank(s[s.len() - n - 1]));
    }
}

/// Whether `c` is blank.
pub fn blank(c: char) -> (r: bool)
    ensures
        r == is_blank(c),
{
    c == ' ' || c == '\t' || c == '\r'
}

/// The bounds, within `v`, of `v[from..to]` without its leading and trailing
/// blanks.
pub fn trim_range(v: &Vec<char>, from: usize, to: usize) -> (r: (usize, usize))
    requires
        from <= to <= v.len(),
    ensures
        from <= r.0 <= r.1 <= to,
        v@.subrange(r.0 as int, r.1 as int) == trimmed(v@.subrange(from as int, to as int)),
{
    let ghost s = v@.subrange(from as int, to as int);
    let mut a: usize = from;
    while a < to && blank(v[a])
        invariant
            from <= a <= to <= v.len(),
            s == v@.subrange(from as int, to as int),
            forall|i: int| 0 <= i < a - from ==> is_blank(s[i]),
        decreases to - a,
    {
        a += 1;
    }
    proof {
        if a < to {
            assert(s[a - from] == v@[a as int]);
        }
        lemma_leading_blanks_is(s, a - from);
    }
    if a == to {
        assert(v@.subrange(a as int, a as int) == Seq::<char>::empty());
        return (a, a);
    }
    let mut b: usize = to;
    while b > a && blank(v[b - 1])
        invariant
            from <= a < to <= v.len(),
            a <= b <= to,
            s == v@.subrange(from as int, to as int),
            !is_blank(v@[a as int]),
            forall|i: int| b - from <= i < s.len() ==> is_blank(s[i]),
        decreases b - a,
    {
        b -= 1;
    }
    proof {
        assert(b > a) by {
            if b == a {
                assert(false);
            }
        }
        assert(s[b - from - 1] == v@[b - 1]);
        lemma_trailing_blanks_is(s, to - b);
        assert(v@.subrange(a as int, b as int) == s.subrange(a - from, s.len() - (to - b)));
    }
    (a, b)
}

/// Whether `s` begins with `prefix`.
pub open spec fn has_prefix(s: Seq<char>, prefix: Seq<char>) -> bool {
    prefix.len() <= s.len() && s.take(prefix.len() as int) == prefix
}

/// Whether `v[from..to]` begins with `prefix`.
pub fn starts_with_at(v: &Vec<char>, from: usize, to: usize, prefix: &Vec<char>) -> (r: bool)
    requires
        from <= to <= v.len(),
    ensures
        r == has_prefix(v@.subrange(from as int, to as int), prefix@),
{
    let ghost s = v@.subrange(from as int, to as int);
    if prefix.len() > to - from {
        return false;
    }
    let mut i: usize = 0;
    while i < prefix.len()
        invariant
            from <= to <= v.len(),
            prefix.len() <= to - from,
            i <= prefix.len(),
            s == v@.subrange(from as int, to as int),
            forall|j: int| 0 <= j < i ==> s[j] == prefix@[j],
        decreases prefix.len() - i,
    {
        if v[from + i] != prefix[i] {
            assert(s.take(prefix.len() as int)[i as int] != prefix@[i as int]);
            return false;
        }
        i += 1;
    }
    assert(s.take(prefix.len() as int) == prefix@);
    true
}

/// `s` without `prefix` at its start, when it is there.
pub fn strip_prefix(s: &str, prefix: &str) -> (r: Option<String>)
    ensures
        match r {
            Some(rest) => has_prefix(s@, prefix@) && rest@ == s@.skip(prefix@.len() as int),
            None => !has_prefix(s@, prefix@),
        },
{
    let v = chars_of(s);
    let p = chars_of(prefix);
    assert(v@.subrange(0, v.len() as int) == v@);
    if starts_with_at(&v, 0, v.len(), &p) {
        Some(text_of(&v, p.len(), v.len()))
    } else {
        None
    }
}

/// `s` with every `from` replaced by `to`.
pub open spec fn replaced(s: Seq<char>, from: char, to: char) -> Seq<char> {
    s.map_values(
        |c: char|
            if c == from {
                to
            } else {
                c
            },
    )
}

/// `s` with every `from` replaced by `to`.
pub fn replace_char(s: &str, from: char, to: char) -> (r: String)
    ensures
        r@ == replaced(s@, from, to),
{
    let v = chars_of(s);
    let mut out = String::new();
    let mut i: usize = 0;
    while i < v.len()
        invariant
            i <= v.len(),
            out@ == replaced(v@.take(i as int), from, to),
        decreases v.len() - i,
    {
        let c = if v[i] == from {
            to
        } else {
            v[i]
        };
        out.push(c);
        assert(replaced(v@.take(i as int), from, to).push(c) == replaced(
            v@.take(i + 1),
            from,
            to,
        ));
        i += 1;
    }
    assert(v@.take(v.len() as int) == v@);
    out
}

/// Whether `s` ends with the character `c`.
pub fn ends_with_char(s: &str, c: char) -> (r: bool)
    ensures
        r == (s@.len() > 0 && s@.last() == c),
{
    let v = chars_of(s);
    v.len() > 0 && v[v.len() - 1] == c
}

/// The pieces of `s` between occurrences of `sep`; one more than the number
/// of separators.
pub open spec fn split(s: Seq<char>, sep: char) -> Seq<Seq<char>>
    decreases s.len(),
{
    let i = first_index(s, sep);
    if i < 0 || i >= s.len() {
        seq![s]
    } else {
        seq![s.take(i)] + split(s.skip(i + 1), sep)
    }
}

/// The pieces of `ranges`, read as bounds within `v`.
pub open spec fn pieces(v: Seq<char>, ranges: Seq<(usize, usize)>) -> Seq<Seq<char>> {
    Seq::new(ranges.len(), |i: int| v.subrange(ranges[i].0 as int, ranges[i].1 as int))
}

/// Whether every pair of `ranges` is a pair of bounds within `from..to`.
pub open spec fn ranges_within(ranges: Seq<(usize, usize)>, from: int, to: int) -> bool {
    forall|i: int| 0 <= i < ranges.len() ==> from <= (#[trigger] ranges[i]).0 <= ranges[i].1 <= to
}

/// The bounds, within `v`, of the pieces of `v[from..to]` between occurrences
/// of `sep`.
pub fn split_ranges(v: &Vec<char>, from: usize, to: usize, sep: char) -> (r: Vec<(usize, usize)>)
    requires
        from <= to <= v.len(),
    ensures
        ranges_within(r@, from as int, to as int),
        pieces(v@, r@) == split(v@.subrange(from as int, to as int), sep),
        r.len() >= 1,
{
    let ghost s = v@.subrange(from as int, to as int);
    let mut out: Vec<(usize, usize)> = Vec::new();
    let mut pos: usize = from;
    loop
        invariant_except_break
            from <= pos <= to <= v.len(),
            s == v@.subrange(from as int, to as int),
            ranges_within(out@, from as int, to as int),
            split(s, sep) == pieces(v@, out@) + split(v@.subrange(pos as int, to as int), sep),
        ensures
            ranges_within(out@, from as int, to as int),
            pieces(v@, out@) == split(s, sep),
            out.len() >= 1,
        decreases to - pos,
    {
        let ghost rest = v@.subrange(pos as int, to as int);
        let ghost before = out@;
        let idx = find_char(v, pos, to, sep);
        proof {
            lemma_first_index(rest, sep);
        }
        if idx >= to {
            out.push((pos, to));
            proof {
                assert(split(rest, sep) == seq![rest]);
                assert(pieces(v@, out@) == pieces(v@, before) + seq![rest]);
            }
            break ;
        } else {
            out.push((pos, idx));
            proof {
                let i = idx - pos;
                assert(rest.take(i) == v@.subrange(pos as int, idx as int));
                assert(rest.skip(i + 1) == v@.subrange(idx + 1, to as int));
                assert(pieces(v@, out@) == pieces(v@, before) + seq![rest.take(i)]);
            }
            pos = idx + 1;
        }
    }
    out
}


/// The lines of `s` as `str::lines` gives them: the pieces that line feeds
/// end, each without one carriage return before its line feed, and then what
/// follows the last line feed, if anything does.
pub open spec fn lines(s: Seq<char>) -> Seq<Seq<char>> {
    let parts = split(s, '\n');
    let ended = parts.drop_last().map_values(|l: Seq<char>| without_cr(l));
    if parts.last().len() == 0 {
        ended
    } else {
        ended.push(parts.last())
    }
}

/// `l` without one carriage return at its end.
pub open spec fn without_cr(l: Seq<char>) -> Seq<char> {
    if l.len() > 0 && l.last() == '\r' {
        l.drop_last()
    } else {
        l
    }
}

/// The bounds, within `v`, of the lines of `v`.
pub fn line_ranges(v: &Vec<char>) -> (r: Vec<(usize, usize)>)
    ensures
        ranges_within(r@, 0, v.len() as int),
        pieces(v@, r@) == lines(v@),
{
    let parts = split_ranges(v, 0, v.len(), '\n');
    assert(v@.subrange(0, v.len() as int) == v@);
    let ghost all = split(v@, '\n');
    let n: usize = parts.len();
    let mut out: Vec<(usize, usize)> = Vec::new();
    let mut i: usize = 0;
    while i + 1 < n
        invariant
            n == parts.len(),
            n >= 1,
            i + 1 <= n,
            ranges_within(parts@, 0, v.len() as int),
            ranges_within(out@, 0, v.len() as int),
            pieces(v@, parts@) == all,
            pieces(v@, out@) == all.take(i as int).map_values(|l: Seq<char>| without_cr(l)),
        decreases n - i,
    {
        let (a, b) = parts[i];
        let ghost before = out@;
        assert(pieces(v@, parts@)[i as int] == v@.subrange(a as int, b as int));
        let e: usize = if b > a && v[b - 1] == '\r' {
            b - 1
        } else {
            b
        };
        out.push((a, e));
        proof {
            let l = v@.subrange(a as int, b as int);
            assert(v@.subrange(a as int, e as int) == without_cr(l));
            assert(pieces(v@, out@) == pieces(v@, before).push(without_cr(l)));
            assert(all.take(i + 1).map_values(|l: Seq<char>| without_cr(l)) == all.take(
                i as int,
            ).map_values(|l: Seq<char>| without_cr(l)).push(without_cr(all[i as int])));
        }
        i += 1;
    }
    let (a, b) = parts[n - 1];
    proof {
        assert(all.take(n - 1) == all.drop_last());
        assert(pieces(v@, parts@)[n - 1] == v@.subrange(a as int, b as int));
    }
    if b > a {
        let ghost before = out@;
        out.push((a, b));
        assert(pieces(v@, out@) == pieces(v@, before).push(all.last()));
    }
    out
}

/// The character that stands for the digit `d`.
pub open spec fn digit(d: int) -> char {
    if d == 0 {
        '0'
    } else if d == 1 {
        '1'
    } else if d == 2 {
        '2'
    } else if d == 3 {
        '3'
    } else if d == 4 {
        '4'
    } else if d == 5 {
        '5'
    } else if d == 6 {
        '6'
    } else if d == 7 {
        '7'
    } else if d == 8 {
        '8'
    } else {
        '9'
    }
}

/// `n` in decimal, without leading zeros.
pub open spec fn decimal(n: nat) -> Seq<char>
    decreases n,
{
    if n < 10 {
        seq![digit(n as int)]
    } else {
        decimal(n / 10).push(digit((n % 10) as int))
    }
}

/// `i` in decimal, with a minus sign when it is negative.
pub open spec fn signed_decimal(i: int) -> Seq<char> {
    if i < 0 {
        seq!['-'] + decimal((-i) as nat)
    } else {
        decimal(i as nat)
    }
}

fn digit_char(d: u64) -> (c: char)
    requires
        d < 10,
    ensures
        c == digit(d as int),
{
    if d == 0 {
        '0'
    } else if d == 1 {
        '1'
    } else if d == 2 {
        '2'
    } else if d == 3 {
        '3'
    } else if d == 4 {
        '4'
    } else if d == 5 {
        '5'
    } else if d == 6 {
        '6'
    } else if d == 7 {
        '7'
    } else if d == 8 {
        '8'
    } else {
        '9'
    }
}

/// `n` in decimal.
pub fn decimal_text(n: u64) -> (r: String)
    ensures
        r@ == decimal(n as nat),
{
    let mut digits: Vec<char> = Vec::new();
    let mut rest: u64 = n;
    while rest >= 10
        invariant
            decimal(n as nat) == decimal(rest as nat) + digits@.reverse(),
        decreases rest,
    {
        let c = digit_char(rest % 10);
        let ghost before = digits@;
        digits.push(c);
        proof {
            assert(digits@.reverse() == seq![c] + before.reverse());
            assert(decimal(rest as nat) == decimal((rest / 10) as nat).push(c));
        }
        rest = rest / 10;
    }
    let mut out = String::new();
    out.push(digit_char(rest));
    let mut i: usize = digits.len();
    while i > 0
        invariant
            i <= digits.len(),
            out@ == decimal(rest as nat) + digits@.reverse().take(digits.len() - i),
        decreases i,
    {
        i -= 1;
        out.push(digits[i]);
        proof {
            let r = digits@.reverse();
            assert(r.take(digits.len() - i) == r.take(digits.len() - i - 1).push(r[digits.len() - i - 1]));
        }
    }
    assert(digits@.reverse().take(digits.len() as int) == digits@.reverse());
    out
}

/// `i` in decimal, with a minus sign when it is negative.
pub fn signed_decimal_text(i: i32) -> (r: String)
    ensures
        r@ == signed_decimal(i as int),
{
    if i < 0 {
        let m: u64 = (-(i as i64)) as u64;
        let d = decimal_text(m);
        let mut out = String::new();
        out.push('-');
        let r = out.concat(d.as_str());
        assert(r@ == seq!['-'] + decimal((-i) as nat));
        r
    } else {
        decimal_text(i as u64)
    }
}

/// What `str::to_lowercase` returns for a text.
pub uninterp spec fn lowercase(s: Seq<char>) -> Seq<char>;

/// `str::to_lowercase` returns the lowercase equivalent of the text, by the
/// Unicode rules that std follows; the contract gives that result a name.
pub assume_specification[ str::to_lowercase ](s: &str) -> (r: String)
    ensures
        r@ == lowercase(s@),
;


/// Number of characters at the start of `s` that are not blank.
pub open spec fn word_len(s: Seq<char>) -> int
    decreases s.len(),
{
    if s.len() > 0 && !is_blank(s[0]) {
        1 + word_len(s.drop_first())
    } else {
        0
    }
}

/// `word_len` counts exactly the prefix without blanks.
pub proof fn lemma_word_len(s: Seq<char>)
    ensures
        0 <= word_len(s) <= s.len(),
        forall|i: int| 0 <= i < word_len(s) ==> !is_blank(s[i]),
        word_len(s) < s.len() ==> is_blank(s[word_len(s)]),
    decreases s.len(),
{
    if s.len() > 0 && !is_blank(s[0]) {
        let t = s.drop_first();
        lemma_word_len(t);
        assert forall|i: int| 0 <= i < word_len(s) implies !is_blank(s[i]) by {
            if i > 0 {
                assert(s[i] == t[i - 1]);
            }
        }
        if word_len(s) < s.len() {
            assert(s[word_len(s)] == t[word_len(t)]);
        }
    }
}

/// The end, within `v`, of the word that `v[from..to]` begins with.
pub fn word_end(v: &Vec<char>, from: usize, to: usize) -> (r: usize)
    requires
        from <= to <= v.len(),
    ensures
        from <= r <= to,
        r == from + word_len(v@.subrange(from as int, to as int)),
{
    let ghost s = v@.subrange(from as int, to as int);
    proof {
        lemma_word_len(s);
    }
    let mut i: usize = from;
    while i < to && !blank(v[i])
        invariant
            from <= i <= to <= v.len(),
            s == v@.subrange(from as int, to as int),
            forall|j: int| 0 <= j < i - from ==> !is_blank(s[j]),
            0 <= word_len(s) <= s.len(),
            forall|j: int| 0 <= j < word_len(s) ==> !is_blank(s[j]),
            word_len(s) < s.len() ==> is_blank(s[word_len(s)]),
        decreases to - i,
    {
        i += 1;
    }
    proof {
        let n = i - from;
        let m = word_len(s);
        if i < to {
            assert(s[n] == v@[i as int]);
        }
        if m < n {
            assert(!is_blank(s[m]));
        } else if n < m {
            assert(!is_blank(s[n]));
        }
    }
    i
}

} // verus!
