//! The hosts of an ssh configuration.
//!
//! A line is read without the blanks around it. An empty line is skipped.
//! A line `# profile: NAME, PLATFORM` says which profile and platform the
//! open host belongs to; any other line that begins with `#` is a comment.
//! Every other line is a keyword, then blanks, then its argument: the
//! keyword `Host`, in any case, opens the host of that name, any other
//! keyword is an option of the open host.

use vstd::prelude::*;
use crate::name_map::{lookup, upsert, NameMap};
use crate::parsers::{set_property, with_property};
use crate::text::{
    chars_of,
    find_char,
    first_index,
    has_prefix,
    lowercase,
    owned,
    pieces,
    split,
    split_ranges,
    starts_with_at,
    text_of,
    trim_range,
    trimmed,
    word_end,
    word_len,
};

verus! {

/// What a host runs.
#[derive(Clone, Copy, Debug, PartialEq, Eq, Structural)]
pub enum Platform {
    Win,
    Lnx,
}

/// A host of the configuration.
#[derive(Clone, Debug)]
pub struct Host {
    pub name: String,
    pub profile: String,
    pub address: String,
    pub platform: Platform,
    pub user: Option<String>,
    pub key: Option<String>,
    pub bastion: Option<String>,
}

pub struct HostView {
    pub name: Seq<char>,
    pub profile: Seq<char>,
    pub address: Seq<char>,
    pub platform: Platform,
    pub user: Option<Seq<char>>,
    pub key: Option<Seq<char>>,
    pub bastion: Option<Seq<char>>,
}

/// The view of an optional text.
pub open spec fn opt_view(s: Option<String>) -> Option<Seq<char>> {
    match s {
        Some(t) => Some(t@),
        None => None,
    }
}

impl View for Host {
    type V = HostView;

    open spec fn view(&self) -> HostView {
        HostView {
            name: self.name@,
            profile: self.profile@,
            address: self.address@,
            platform: self.platform,
            user: opt_view(self.user),
            key: opt_view(self.key),
            bastion: opt_view(self.bastion),
        }
    }
}

/// A copy of an optional text.
pub fn copy_opt(s: &Option<String>) -> (r: Option<String>)
    ensures
        opt_view(r) == opt_view(*s),
{
    match s {
        Some(t) => Some(t.clone()),
        None => None,
    }
}

impl Host {
    /// A copy of this host.
    pub fn duplicate(&self) -> (r: Host)
        ensures
            r@ == self@,
    {
        Host {
            name: self.name.clone(),
            profile: self.profile.clone(),
            address: self.address.clone(),
            platform: self.platform,
            user: copy_opt(&self.user),
            key: copy_opt(&self.key),
            bastion: copy_opt(&self.bastion),
        }
    }
}

/// The reader of this format.
#[derive(Clone, Copy, Debug)]
pub struct SshConfigParser;

/// What a line says.
pub enum SshLine {
    /// Nothing: the line is empty or a comment.
    Blank,
    /// That the host of this name begins.
    Host(Seq<char>),
    /// That the open host has this profile and platform, written as one
    /// text.
    Profile(Seq<char>),
    /// That the open host has this option, with this argument.
    Setting(Seq<char>, Seq<char>),
    /// Nothing that can be read: a keyword without argument.
    Malformed,
}

/// What `line` says.
pub open spec fn ssh_line(line: Seq<char>) -> SshLine {
    let t = trimmed(line);
    if t.len() == 0 {
        SshLine::Blank
    } else if t[0] == '#' {
        let c = trimmed(t.skip(1));
        if has_prefix(c, "profile:"@) {
            SshLine::Profile(trimmed(c.skip("profile:"@.len() as int)))
        } else {
            SshLine::Blank
        }
    } else {
        let k = word_len(t);
        if k >= t.len() {
            SshLine::Malformed
        } else if lowercase(t.take(k)) == "host"@ {
            SshLine::Host(trimmed(t.skip(k)))
        } else {
            SshLine::Setting(lowercase(t.take(k)), trimmed(t.skip(k)))
        }
    }
}

/// What is wrong with a line.
#[derive(Clone, Copy, Debug, PartialEq, Eq, Structural)]
pub enum Fault {
    /// It is a keyword without argument.
    Syntax,
    /// It gives a profile without a comma before the platform.
    Profile,
}

/// What is wrong with `line`, if anything is.
pub open spec fn fault_of(line: Seq<char>) -> Option<Fault> {
    match ssh_line(line) {
        SshLine::Malformed => Some(Fault::Syntax),
        SshLine::Profile(description) => if first_index(description, ',') >= description.len() {
            Some(Fault::Profile)
        } else {
            None
        },
        _ => None,
    }
}

/// Why a text cannot be read: what is wrong with its line `line`, counted
/// from 1.
#[derive(Clone, Copy, Debug, PartialEq, Eq, Structural)]
pub struct SshConfigError {
    pub line: usize,
    pub fault: Fault,
}

/// What an error says to the user.
pub open spec fn ssh_error_text(e: SshConfigError) -> Seq<char> {
    (match e.fault {
        Fault::Syntax => "can't read line "@,
        Fault::Profile => "can't get profile and platform from line "@,
    }) + crate::text::decimal(e.line as nat)
}

impl SshConfigError {
    /// What this error says to the user.
    pub fn message(&self) -> (r: String)
        ensures
            r@ == ssh_error_text(*self),
    {
        let start = match self.fault {
            Fault::Syntax => "can't read line ",
            Fault::Profile => "can't get profile and platform from line ",
        };
        crate::text::join2(start, crate::text::decimal_text(self.line as u64).as_str())
    }
}

/// Where reading stands: the options of the hosts so far, and the name of
/// the host that is open.
pub struct SshState {
    pub hosts: Seq<(Seq<char>, Seq<(Seq<char>, Seq<char>)>)>,
    pub current: Seq<char>,
}

/// Where reading stands after the first `n` lines. It starts with a host
/// without name open. Keywords are kept in lower case; one that comes twice
/// for a host keeps its last argument.
pub open spec fn ssh_upto(lines: Seq<Seq<char>>, n: int) -> SshState
    decreases n,
{
    if n <= 0 {
        SshState { hosts: Seq::empty(), current: Seq::empty() }
    } else {
        let before = ssh_upto(lines, n - 1);
        match ssh_line(lines[n - 1]) {
            SshLine::Host(name) => SshState { hosts: before.hosts, current: name },
            SshLine::Profile(description) => {
                let i = first_index(description, ',');
                SshState {
                    hosts: with_property(
                        with_property(
                            before.hosts,
                            before.current,
                            "profile"@,
                            trimmed(description.take(i)),
                        ),
                        before.current,
                        "platform"@,
                        trimmed(description.skip(i + 1)),
                    ),
                    current: before.current,
                }
            },
            SshLine::Setting(keyword, argument) => SshState {
                hosts: with_property(before.hosts, before.current, keyword, argument),
                current: before.current,
            },
            _ => before,
        }
    }
}

/// The first line at or after `from` with something wrong, counted from 0.
pub open spec fn first_fault(lines: Seq<Seq<char>>, from: int) -> Option<(int, Fault)>
    decreases lines.len() - from,
{
    if from < 0 || from >= lines.len() {
        None
    } else {
        match fault_of(lines[from]) {
            Some(f) => Some((from, f)),
            None => first_fault(lines, from + 1),
        }
    }
}

/// The value of `key` among `options`, or `default`.
pub open spec fn option_or(
    options: Seq<(Seq<char>, Seq<char>)>,
    key: Seq<char>,
    default: Seq<char>,
) -> Seq<char> {
    match lookup(options, key) {
        Some(v) => v,
        None => default,
    }
}

/// The host named `name` with `options`. It needs a `hostname`; without a
/// profile it belongs to `others`, and it runs Windows only where its
/// platform is `win`.
pub open spec fn host_of(name: Seq<char>, options: Seq<(Seq<char>, Seq<char>)>) -> Option<HostView> {
    match lookup(options, "hostname"@) {
        Some(address) => Some(
            HostView {
                name,
                profile: option_or(options, "profile"@, "others"@),
                address,
                platform: if option_or(options, "platform"@, "others"@) == "win"@ {
                    Platform::Win
                } else {
                    Platform::Lnx
                },
                user: lookup(options, "user"@),
                key: lookup(options, "identityfile"@),
                bastion: lookup(options, "proxyjump"@),
            },
        ),
        None => None,
    }
}

/// The hosts among the first `n` of `sections`, by name.
pub open spec fn hosts_upto(sections: Seq<(Seq<char>, Seq<(Seq<char>, Seq<char>)>)>, n: int) -> Seq<
    (Seq<char>, HostView),
>
    decreases n,
{
    if n <= 0 {
        Seq::empty()
    } else {
        let before = hosts_upto(sections, n - 1);
        match host_of(sections[n - 1].0, sections[n - 1].1) {
            Some(h) => upsert(before, h.name, h),
            None => before,
        }
    }
}

/// What a text holds: its hosts that have a `hostname`, by name and in the
/// order in which they first come, or the first line with something wrong.
pub open spec fn parsed_ssh_config(content: Seq<char>) -> Result<
    Seq<(Seq<char>, HostView)>,
    SshConfigError,
> {
    let lines = split(content, '\n');
    match first_fault(lines, 0) {
        Some((i, fault)) => Err(SshConfigError { line: (i + 1) as usize, fault }),
        None => {
            let sections = ssh_upto(lines, lines.len() as int).hosts;
            Ok(hosts_upto(sections, sections.len() as int))
        },
    }
}

/// Views of the outcome of reading.
pub open spec fn ssh_result(r: Result<NameMap<Host>, SshConfigError>) -> Result<
    Seq<(Seq<char>, HostView)>,
    SshConfigError,
> {
    match r {
        Ok(m) => Ok(m@),
        Err(e) => Err(e),
    }
}

/// What an exec reader found in a line.
enum Found {
    Blank,
    Host(String),
    Profile(String),
    Setting(String, String),
    Malformed,
}

/// Whether `f` is what `line` says.
spec fn found_is(f: Found, line: SshLine) -> bool {
    match (f, line) {
        (Found::Blank, SshLine::Blank) => true,
        (Found::Host(n), SshLine::Host(m)) => n@ == m,
        (Found::Profile(d), SshLine::Profile(e)) => d@ == e,
        (Found::Setting(k, v), SshLine::Setting(l, w)) => k@ == l && v@ == w,
        (Found::Malformed, SshLine::Malformed) => true,
        _ => false,
    }
}

/// Reads the line `v[from..to]`.
fn read_line(v: &Vec<char>, from: usize, to: usize) -> (r: Found)
    requires
        from <= to <= v.len(),
    ensures
        found_is(r, ssh_line(v@.subrange(from as int, to as int))),
{
    let (a, b) = trim_range(v, from, to);
    let ghost t = v@.subrange(a as int, b as int);
    if a == b {
        return Found::Blank;
    }
    assert(t[0] == v@[a as int]);
    if v[a] == '#' {
        let (c, d) = trim_range(v, a + 1, b);
        assert(t.skip(1) == v@.subrange(a + 1, b as int));
        let marker = chars_of("profile:");
        if starts_with_at(v, c, d, &marker) {
            let ghost inner = v@.subrange(c as int, d as int);
            let (e, f) = trim_range(v, c + marker.len(), d);
            assert(inner.skip(marker.len() as int) == v@.subrange(c + marker.len(), d as int));
            return Found::Profile(text_of(v, e, f));
        }
        return Found::Blank;
    }
    let k = word_end(v, a, b);
    if k >= b {
        return Found::Malformed;
    }
    assert(t.take(k - a) == v@.subrange(a as int, k as int));
    assert(t.skip(k - a) == v@.subrange(k as int, b as int));
    let keyword = text_of(v, a, k).as_str().to_lowercase();
    let (c, d) = trim_range(v, k, b);
    let argument = text_of(v, c, d);
    if keyword == owned("host") {
        Found::Host(argument)
    } else {
        Found::Setting(keyword, argument)
    }
}

/// The value of `key` among `options`, or `default`.
fn value_or(options: &NameMap<String>, key: &str, default: &str) -> (r: String)
    ensures
        r@ == option_or(options@, key@, default@),
{
    match options.get(key) {
        Some(v) => v.clone(),
        None => owned(default),
    }
}

/// The value of `key` among `options`, if there is one.
fn value_of(options: &NameMap<String>, key: &str) -> (r: Option<String>)
    ensures
        opt_view(r) == lookup(options@, key@),
{
    match options.get(key) {
        Some(v) => Some(v.clone()),
        None => None,
    }
}

/// The host named `name` with `options`, whose keywords are in lower case.
pub fn host_from(name: &str, options: &NameMap<String>) -> (r: Option<Host>)
    ensures
        match r {
            Some(h) => host_of(name@, options@) == Some(h@),
            None => host_of(name@, options@) is None,
        },
{
    let address = match options.get("hostname") {
        Some(a) => a.clone(),
        None => {
            return None;
        },
    };
    let platform = if value_or(options, "platform", "others") == owned("win") {
        Platform::Win
    } else {
        Platform::Lnx
    };
    Some(
        Host {
            name: owned(name),
            profile: value_or(options, "profile", "others"),
            address,
            platform,
            user: value_of(options, "user"),
            key: value_of(options, "identityfile"),
            bastion: value_of(options, "proxyjump"),
        },
    )
}

impl SshConfigParser {
    /// Reads `content` into the options of its hosts.
    fn read(content: &str) -> (r: Result<NameMap<NameMap<String>>, SshConfigError>)
        ensures
            match r {
                Ok(m) => first_fault(split(content@, '\n'), 0) is None && m@ == ssh_upto(
                    split(content@, '\n'),
                    split(content@, '\n').len() as int,
                ).hosts,
                Err(e) => first_fault(split(content@, '\n'), 0) matches Some((i, fault)) && e == (
                SshConfigError { line: (i + 1) as usize, fault }),
            },
    {
        let v = chars_of(content);
        let ranges = split_ranges(&v, 0, v.len(), '\n');
        assert(v@.subrange(0, v.len() as int) == v@);
        let ghost lines = split(content@, '\n');
        let mut hosts: NameMap<NameMap<String>> = NameMap::new();
        let mut current = String::new();
        let mut i: usize = 0;
        while i < ranges.len()
            invariant
                i <= ranges.len(),
                v@ == content@,
                lines == split(content@, '\n'),
                pieces(v@, ranges@) == lines,
                crate::text::ranges_within(ranges@, 0, v.len() as int),
                first_fault(lines, 0) == first_fault(lines, i as int),
                hosts@ == ssh_upto(lines, i as int).hosts,
                current@ == ssh_upto(lines, i as int).current,
            decreases ranges.len() - i,
        {
            let (a, b) = ranges[i];
            assert(lines[i as int] == v@.subrange(a as int, b as int));
            match read_line(&v, a, b) {
                Found::Blank => {},
                Found::Host(name) => {
                    current = name;
                },
                Found::Profile(description) => {
                    let d = chars_of(description.as_str());
                    let at = find_char(&d, 0, d.len(), ',');
                    assert(d@.subrange(0, d.len() as int) == d@);
                    if at >= d.len() {
                        return Err(SshConfigError { line: i + 1, fault: Fault::Profile });
                    }
                    let (pa, pb) = trim_range(&d, 0, at);
                    let (qa, qb) = trim_range(&d, at + 1, d.len());
                    assert(d@.take(at as int) == d@.subrange(0, at as int));
                    assert(d@.skip(at + 1) == d@.subrange(at + 1, d.len() as int));
                    set_property(&mut hosts, current.as_str(), owned("profile"), text_of(&d, pa, pb));
                    set_property(
                        &mut hosts,
                        current.as_str(),
                        owned("platform"),
                        text_of(&d, qa, qb),
                    );
                },
                Found::Setting(keyword, argument) => {
                    set_property(&mut hosts, current.as_str(), keyword, argument);
                },
                Found::Malformed => {
                    return Err(SshConfigError { line: i + 1, fault: Fault::Syntax });
                },
            }
            i += 1;
        }
        Ok(hosts)
    }

    /// Reads `content` into its hosts.
    pub fn parse(content: &str) -> (r: Result<NameMap<Host>, SshConfigError>)
        ensures
            ssh_result(r) == parsed_ssh_config(content@),
    {
        let sections = match SshConfigParser::read(content) {
            Ok(s) => s,
            Err(e) => {
                return Err(e);
            },
        };
        let mut hosts: NameMap<Host> = NameMap::new();
        let n: usize = sections.len();
        let mut i: usize = 0;
        while i < n
            invariant
                i <= n,
                n == sections@.len(),
                hosts@ == hosts_upto(sections@, i as int),
            decreases n - i,
        {
            match host_from(sections.name_at(i).as_str(), sections.value_at(i)) {
                Some(h) => {
                    hosts.insert(h.name.clone(), h);
                },
                None => {},
            }
            i += 1;
        }
        Ok(hosts)
    }
}

/// Reads an ssh configuration into its hosts, by name. A host without
/// `HostName` is left out.
pub fn parse_ssh_config(content: &str) -> (r: Result<NameMap<Host>, SshConfigError>)
    ensures
        ssh_result(r) == parsed_ssh_config(content@),
{
    SshConfigParser::parse(content)
}

} // verus!
