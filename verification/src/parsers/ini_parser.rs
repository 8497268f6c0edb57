//! Sections of keys and values, one item to a line.
//!
//! A line is read without the blanks around it. An empty line is skipped,
//! and so is one that begins with `;` or `#`. A line in square brackets
//! opens the section of that name. Any other line must hold `=`: what stands
//! before the first one is a key, which must not be empty, what stands after
//! it the key's value.

use vstd::prelude::*;
use crate::name_map::{has_name, NameMap};
use crate::parsers::{add_section, set_property, with_property, with_section};
use crate::text::{
    chars_of,
    find_char,
    first_index,
    lemma_first_index,
    lowercase,
    pieces,
    split,
    split_ranges,
    text_of,
    trim_range,
    trimmed,
};

verus! {

/// The reader of this format.
#[derive(Clone, Copy, Debug)]
pub struct IniParser;

/// What a line says.
pub enum IniLine {
    /// Nothing: the line is empty or a comment.
    Blank,
    /// That the section of this name begins.
    Section(Seq<char>),
    /// That this key has this value.
    Property(Seq<char>, Seq<char>),
    /// Nothing that can be read.
    Malformed,
}

/// What `line` says.
pub open spec fn ini_line(line: Seq<char>) -> IniLine {
    let t = trimmed(line);
    if t.len() == 0 || t[0] == ';' || t[0] == '#' {
        IniLine::Blank
    } else if t[0] == '[' {
        if t.len() >= 2 && t.last() == ']' {
            IniLine::Section(trimmed(t.subrange(1, t.len() - 1)))
        } else {
            IniLine::Malformed
        }
    } else {
        let i = first_index(t, '=');
        if i >= t.len() || trimmed(t.take(i)).len() == 0 {
            IniLine::Malformed
        } else {
            IniLine::Property(trimmed(t.take(i)), trimmed(t.skip(i + 1)))
        }
    }
}

/// Where reading stands: the sections so far, and the name of the one that
/// is open.
pub struct IniState {
    pub sections: Seq<(Seq<char>, Seq<(Seq<char>, Seq<char>)>)>,
    pub current: Seq<char>,
}

/// Where reading stands after the first `n` lines. It starts in a section
/// without name, which is always there. Keys are kept in lower case; a key
/// that comes twice in a section keeps its last value.
pub open spec fn ini_upto(lines: Seq<Seq<char>>, n: int) -> IniState
    decreases n,
{
    if n <= 0 {
        IniState { sections: seq![(Seq::empty(), Seq::empty())], current: Seq::empty() }
    } else {
        let before = ini_upto(lines, n - 1);
        match ini_line(lines[n - 1]) {
            IniLine::Section(name) => IniState {
                sections: with_section(before.sections, name),
                current: name,
            },
            IniLine::Property(key, value) => IniState {
                sections: with_property(before.sections, before.current, lowercase(key), value),
                current: before.current,
            },
            _ => before,
        }
    }
}

/// The first line at or after `from` that cannot be read, counted from 0.
pub open spec fn first_malformed(lines: Seq<Seq<char>>, from: int) -> Option<int>
    decreases lines.len() - from,
{
    if from < 0 || from >= lines.len() {
        None
    } else if ini_line(lines[from]) is Malformed {
        Some(from)
    } else {
        first_malformed(lines, from + 1)
    }
}

/// Why a text cannot be read: its line `line`, counted from 1, is neither a
/// section, nor a key with a value, nor a comment.
#[derive(Clone, Copy, Debug, PartialEq, Eq, Structural)]
pub struct IniError {
    pub line: usize,
}

/// What an error says to the user.
pub open spec fn ini_error_text(e: IniError) -> Seq<char> {
    "can't read line "@ + crate::text::decimal(e.line as nat)
}

impl IniError {
    /// What this error says to the user.
    pub fn message(&self) -> (r: String)
        ensures
            r@ == ini_error_text(*self),
    {
        crate::text::join2("can't read line ", crate::text::decimal_text(self.line as u64).as_str())
    }
}

/// What a text holds: its sections, in the order in which they first come,
/// or the first line that cannot be read.
pub open spec fn parsed_ini(content: Seq<char>) -> Result<
    Seq<(Seq<char>, Seq<(Seq<char>, Seq<char>)>)>,
    IniError,
> {
    let lines = split(content, '\n');
    match first_malformed(lines, 0) {
        Some(i) => Err(IniError { line: (i + 1) as usize }),
        None => Ok(ini_upto(lines, lines.len() as int).sections),
    }
}

/// Views of the outcome of reading.
pub open spec fn ini_result(r: Result<NameMap<NameMap<String>>, IniError>) -> Result<
    Seq<(Seq<char>, Seq<(Seq<char>, Seq<char>)>)>,
    IniError,
> {
    match r {
        Ok(m) => Ok(m@),
        Err(e) => Err(e),
    }
}

/// What an exec reader found in a line.
enum Found {
    Blank,
    Section(String),
    Property(String, String),
    Malformed,
}

/// Whether `f` is what `line` says.
spec fn found_is(f: Found, line: IniLine) -> bool {
    match (f, line) {
        (Found::Blank, IniLine::Blank) => true,
        (Found::Section(n), IniLine::Section(m)) => n@ == m,
        (Found::Property(k, v), IniLine::Property(l, w)) => k@ == l && v@ == w,
        (Found::Malformed, IniLine::Malformed) => true,
        _ => false,
    }
}

/// Reads the line `v[from..to]`.
fn read_line(v: &Vec<char>, from: usize, to: usize) -> (r: Found)
    requires
        from <= to <= v.len(),
    ensures
        found_is(r, ini_line(v@.subrange(from as int, to as int))),
{
    let (a, b) = trim_range(v, from, to);
    let ghost t = v@.subrange(a as int, b as int);
    if a == b || v[a] == ';' || v[a] == '#' {
        assert(t.len() > 0 ==> t[0] == v@[a as int]);
        return Found::Blank;
    }
    assert(t[0] == v@[a as int]);
    if v[a] == '[' {
        if b - a >= 2 && v[b - 1] == ']' {
            let (c, d) = trim_range(v, a + 1, b - 1);
            assert(t.subrange(1, t.len() - 1) == v@.subrange(a + 1, b - 1));
            return Found::Section(text_of(v, c, d));
        }
        assert(t.len() >= 2 ==> t.last() == v@[b - 1]);
        return Found::Malformed;
    }
    let i = find_char(v, a, b, '=');
    if i >= b {
        return Found::Malformed;
    }
    let (ka, kb) = trim_range(v, a, i);
    assert(t.take(i - a) == v@.subrange(a as int, i as int));
    if ka == kb {
        return Found::Malformed;
    }
    let (va, vb) = trim_range(v, i + 1, b);
    assert(t.skip(i - a + 1) == v@.subrange(i + 1, b as int));
    Found::Property(text_of(v, ka, kb), text_of(v, va, vb))
}

impl IniParser {
    /// Reads `content` into sections of keys and values.
    pub fn parse(content: &str) -> (r: Result<NameMap<NameMap<String>>, IniError>)
        ensures
            ini_result(r) == parsed_ini(content@),
    {
        let v = chars_of(content);
        let ranges = split_ranges(&v, 0, v.len(), '\n');
        assert(v@.subrange(0, v.len() as int) == v@);
        let ghost lines = split(content@, '\n');
        let mut sections: NameMap<NameMap<String>> = NameMap::new();
        sections.insert(String::new(), NameMap::new());
        let mut current = String::new();
        assert(sections@ == seq![
            (Seq::<char>::empty(), Seq::<(Seq<char>, Seq<char>)>::empty()),
        ]);
        let mut i: usize = 0;
        while i < ranges.len()
            invariant
                i <= ranges.len(),
                v@ == content@,
                lines == split(content@, '\n'),
                pieces(v@, ranges@) == lines,
                crate::text::ranges_within(ranges@, 0, v.len() as int),
                first_malformed(lines, 0) == first_malformed(lines, i as int),
                sections@ == ini_upto(lines, i as int).sections,
                current@ == ini_upto(lines, i as int).current,
            decreases ranges.len() - i,
        {
            let (a, b) = ranges[i];
            assert(lines[i as int] == v@.subrange(a as int, b as int));
            match read_line(&v, a, b) {
                Found::Blank => {},
                Found::Section(name) => {
                    add_section(&mut sections, name.as_str());
                    current = name;
                },
                Found::Property(key, value) => {
                    set_property(&mut sections, current.as_str(), key.as_str().to_lowercase(), value);
                },
                Found::Malformed => {
                    return Err(IniError { line: i + 1 });
                },
            }
            i += 1;
        }
        Ok(sections)
    }
}

/// Reads `content` into sections of keys and values: a map from each
/// section's name to the map of its keys, in lower case, to their values.
/// What stands before the first section is in the section without name.
pub fn parse_ini(content: &str) -> (r: Result<NameMap<NameMap<String>>, IniError>)
    ensures
        ini_result(r) == parsed_ini(content@),
{
    IniParser::parse(content)
}

} // verus!
