//! What can be decided of a choice before the user is asked: with a text to
//! start from, the one option that matches it is chosen at once.

use vstd::prelude::*;
use fuzzy_matcher::FuzzyMatcher;
use crate::config::texts_view;
use crate::teleport::{shown, welcome_view, WelcomeElement, WelcomeView};
use vstd::string::{StrSliceExecFns, StringExecFns};

verus! {

/// Whether the fuzzy matcher finds `pattern` in `choice`.
pub uninterp spec fn skim_matches(choice: Seq<char>, pattern: Seq<char>) -> bool;

/// `fuzzy_matcher::skim::SkimMatcherV2::fuzzy_match`, on the default
/// matcher set to ignore case: whether it gives a score. The contract only
/// names that result.
#[verifier::external_body]
fn fuzzy_matches(choice: &str, pattern: &str) -> (r: bool)
    ensures
        r == skim_matches(choice@, pattern@),
{
    fuzzy_matcher::skim::SkimMatcherV2::default().ignore_case().fuzzy_match(choice, pattern).is_some()
}

/// What is decided before the user is asked.
#[derive(Clone, Copy, Debug, PartialEq, Eq, Structural)]
pub enum Preselection {
    /// The option at this position is chosen.
    Chosen(usize),
    /// The user is to choose.
    Ask,
}

/// Why there is nothing to choose.
#[derive(Clone, Copy, Debug, PartialEq, Eq, Structural)]
pub enum SelectError {
    /// There are no options.
    EmptyList,
    /// No option matches the text to start from.
    NoHostFound,
}

/// What an error says to the user.
pub open spec fn select_error_text(e: SelectError) -> Seq<char> {
    match e {
        SelectError::EmptyList => "Host list is empty"@,
        SelectError::NoHostFound => "No host found"@,
    }
}

impl SelectError {
    /// What this error says to the user.
    pub fn message(&self) -> (r: String)
        ensures
            r@ == select_error_text(*self),
    {
        match self {
            SelectError::EmptyList => crate::text::owned("Host list is empty"),
            SelectError::NoHostFound => crate::text::owned("No host found"),
        }
    }
}

/// The positions, among the first `n` options, of those that `pattern`
/// matches.
pub open spec fn matching_upto(options: Seq<Seq<char>>, pattern: Seq<char>, n: int) -> Seq<usize>
    decreases n,
{
    if n <= 0 {
        Seq::empty()
    } else {
        let before = matching_upto(options, pattern, n - 1);
        if skim_matches(options[n - 1], pattern) {
            before.push((n - 1) as usize)
        } else {
            before
        }
    }
}

/// What is decided for `count` options, of which those at `matches` match
/// the text to start from, if one is given.
pub open spec fn decided(count: nat, given: bool, matches: Seq<usize>) -> Result<
    Preselection,
    SelectError,
> {
    if count == 0 {
        Err(SelectError::EmptyList)
    } else if !given {
        Ok(Preselection::Ask)
    } else if matches.len() == 1 {
        Ok(Preselection::Chosen(matches[0]))
    } else if matches.len() == 0 {
        Err(SelectError::NoHostFound)
    } else {
        Ok(Preselection::Ask)
    }
}

/// What is decided for `options` and the text `start_value`: without
/// options nothing can be chosen; with a text that matches exactly one
/// option, that one is chosen; with a text that matches none, nothing can
/// be; otherwise the user is asked.
pub open spec fn preselected(options: Seq<Seq<char>>, start_value: Seq<char>) -> Result<
    Preselection,
    SelectError,
> {
    decided(
        options.len(),
        start_value.len() > 0,
        matching_upto(options, start_value, options.len() as int),
    )
}

/// The positions of the options that `pattern` matches.
pub fn matching(options: &Vec<String>, pattern: &str) -> (r: Vec<usize>)
    ensures
        r@ == matching_upto(texts_view(options@), pattern@, options@.len() as int),
{
    let mut found: Vec<usize> = Vec::new();
    let mut i: usize = 0;
    while i < options.len()
        invariant
            i <= options.len(),
            found@ == matching_upto(texts_view(options@), pattern@, i as int),
        decreases options.len() - i,
    {
        assert(texts_view(options@)[i as int] == options@[i as int]@);
        if fuzzy_matches(options[i].as_str(), pattern) {
            found.push(i);
        }
        i += 1;
    }
    found
}

/// What is decided for `count` options, of which those at `matches` match
/// the text to start from, if one is given.
pub fn decide(count: usize, given: bool, matches: &Vec<usize>) -> (r: Result<Preselection, SelectError>)
    ensures
        r == decided(count as nat, given, matches@),
{
    if count == 0 {
        return Err(SelectError::EmptyList);
    }
    if given {
        if matches.len() == 1 {
            return Ok(Preselection::Chosen(matches[0]));
        }
        if matches.len() == 0 {
            return Err(SelectError::NoHostFound);
        }
    }
    Ok(Preselection::Ask)
}

/// What is decided for `options` and the text `start_value`, before the
/// user is asked.
pub fn select(options: &Vec<String>, start_value: &str) -> (r: Result<Preselection, SelectError>)
    ensures
        r == preselected(texts_view(options@), start_value@),
{
    let given = !start_value.is_empty();
    let matches = if given {
        matching(options, start_value)
    } else {
        Vec::new()
    };
    proof {
        if !given {
            assert(decided(options@.len(), false, matches@) == decided(
                options@.len(),
                false,
                matching_upto(texts_view(options@), start_value@, options@.len() as int),
            ));
        }
    }
    decide(options.len(), given, &matches)
}


/// The hosts to choose from, and the text to seed the choice with.
pub struct SelectArgs {
    pub hosts: Vec<WelcomeElement>,
    pub start_value: String,
}

/// The length of a text in bytes.
pub open spec fn byte_len(s: Seq<char>) -> usize {
    vstd::utf8::encode_utf8(s).len() as usize
}

/// The greatest length in bytes among the host names of the first `n`
/// hosts.
pub open spec fn widest_upto(hosts: Seq<WelcomeView>, n: int) -> usize
    decreases n,
{
    if n <= 0 {
        0
    } else {
        let before = widest_upto(hosts, n - 1);
        if byte_len(hosts[n - 1].hostname) > before {
            byte_len(hosts[n - 1].hostname)
        } else {
            before
        }
    }
}

/// The width that host names are shown in: the greatest length in bytes
/// among them, and 20 where there is no host.
pub open spec fn name_width(hosts: Seq<WelcomeView>) -> usize {
    if hosts.len() == 0 {
        20
    } else {
        widest_upto(hosts, hosts.len() as int)
    }
}

/// `n` spaces.
pub open spec fn spaces(n: nat) -> Seq<char> {
    Seq::new(n, |i: int| ' ')
}

/// `s` with spaces after it up to `width` characters.
pub open spec fn padded(s: Seq<char>, width: usize) -> Seq<char> {
    if s.len() >= width {
        s
    } else {
        s + spaces((width - s.len()) as nat)
    }
}

/// How a host is shown for the user to choose: its host name in `width`
/// characters, then its labels in square brackets.
pub open spec fn host_label(host: WelcomeView, width: usize) -> Seq<char> {
    padded(host.hostname, width) + " ["@ + shown(host.labels) + "]"@
}

/// `s` with spaces after it up to `width` characters.
pub fn pad(s: &str, width: usize) -> (r: String)
    ensures
        r@ == padded(s@, width),
{
    let n = s.unicode_len();
    let mut out = crate::text::owned(s);
    assert(s@ + spaces(0) == s@);
    let mut i: usize = n;
    while i < width
        invariant
            n == s@.len(),
            n <= i,
            i <= width || i == n,
            out@ == s@ + spaces((i - n) as nat),
        decreases width - i,
    {
        out.push(' ');
        assert(spaces((i - n) as nat).push(' ') == spaces((i + 1 - n) as nat));
        i += 1;
    }
    proof {
        if n >= width {
            assert(s@ + spaces(0) == s@);
        }
    }
    out
}

/// The width that the host names of `hosts` are shown in.
pub fn width_of(hosts: &Vec<WelcomeElement>) -> (r: usize)
    ensures
        r == name_width(welcome_view(hosts@)),
{
    if hosts.len() == 0 {
        return 20;
    }
    let mut width: usize = 0;
    let mut i: usize = 0;
    while i < hosts.len()
        invariant
            i <= hosts.len(),
            width == widest_upto(welcome_view(hosts@), i as int),
        decreases hosts.len() - i,
    {
        assert(welcome_view(hosts@)[i as int] == hosts@[i as int]@);
        let len = hosts[i].spec.hostname.as_str().len();
        if len > width {
            width = len;
        }
        i += 1;
    }
    width
}

/// How `host` is shown for the user to choose.
pub fn label_of(host: &WelcomeElement, width: usize) -> (r: String)
    ensures
        r@ == host_label(host@, width),
{
    pad(host.spec.hostname.as_str(), width).concat(" [").concat(host.display().as_str()).concat(
        "]",
    )
}

/// How the hosts of `all` are shown for the user to choose, the host names
/// in the width of those of `listed`.
pub fn select_teleport_host(listed: &Vec<WelcomeElement>, all: &Vec<WelcomeElement>) -> (r: Vec<
    String,
>)
    ensures
        texts_view(r@) == welcome_view(all@).map_values(
            |h: WelcomeView| host_label(h, name_width(welcome_view(listed@))),
        ),
{
    let width = width_of(listed);
    let ghost f = |h: WelcomeView| host_label(h, name_width(welcome_view(listed@)));
    let mut labels: Vec<String> = Vec::new();
    let mut i: usize = 0;
    while i < all.len()
        invariant
            i <= all.len(),
            width == name_width(welcome_view(listed@)),
            f == |h: WelcomeView| host_label(h, name_width(welcome_view(listed@))),
            texts_view(labels@) == welcome_view(all@).map_values(f).take(i as int),
        decreases all.len() - i,
    {
        let ghost before = labels@;
        let l = label_of(&all[i], width);
        labels.push(l);
        assert(welcome_view(all@)[i as int] == all@[i as int]@);
        assert(texts_view(labels@) == texts_view(before).push(l@));
        assert(welcome_view(all@).map_values(f).take(i + 1) == welcome_view(all@).map_values(
            f,
        ).take(i as int).push(welcome_view(all@).map_values(f)[i as int]));
        i += 1;
    }
    assert(welcome_view(all@).map_values(f).take(i as int) == welcome_view(all@).map_values(f));
    labels
}

} // verus!
