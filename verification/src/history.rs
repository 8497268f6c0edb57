//! The hosts that were chosen before, the last one first.

use vstd::prelude::*;
use crate::teleport::{welcome_view, WelcomeElement, WelcomeView};

verus! {

/// The hosts that were chosen before, the last one first.
#[derive(Clone, Debug)]
pub struct History {
    pub entries: Vec<WelcomeElement>,
}

impl View for History {
    type V = Seq<WelcomeView>;

    open spec fn view(&self) -> Seq<WelcomeView> {
        welcome_view(self.entries@)
    }
}

/// Whether one of the first `n` of `hosts` is named `name`.
pub open spec fn named_upto(hosts: Seq<WelcomeView>, name: Seq<char>, n: int) -> bool
    decreases n,
{
    if n <= 0 {
        false
    } else {
        hosts[n - 1].name == name || named_upto(hosts, name, n - 1)
    }
}

/// Whether one of `hosts` is named `name`.
pub open spec fn is_named(hosts: Seq<WelcomeView>, name: Seq<char>) -> bool {
    named_upto(hosts, name, hosts.len() as int)
}

/// The first `n` of `hosts` without those named `name`.
pub open spec fn without_upto(hosts: Seq<WelcomeView>, name: Seq<char>, n: int) -> Seq<WelcomeView>
    decreases n,
{
    if n <= 0 {
        Seq::empty()
    } else {
        let before = without_upto(hosts, name, n - 1);
        if hosts[n - 1].name == name {
            before
        } else {
            before.push(hosts[n - 1])
        }
    }
}

/// Those of the first `n` of `hosts` whose name is, or is not, among
/// `others`.
pub open spec fn sifted_upto(hosts: Seq<WelcomeView>, others: Seq<WelcomeView>, keep: bool, n: int) -> Seq<
    WelcomeView,
>
    decreases n,
{
    if n <= 0 {
        Seq::empty()
    } else {
        let before = sifted_upto(hosts, others, keep, n - 1);
        if is_named(others, hosts[n - 1].name) == keep {
            before.push(hosts[n - 1])
        } else {
            before
        }
    }
}

/// Those of `hosts` whose name is among `others`.
pub open spec fn common(hosts: Seq<WelcomeView>, others: Seq<WelcomeView>) -> Seq<WelcomeView> {
    sifted_upto(hosts, others, true, hosts.len() as int)
}

/// Those of `hosts` whose name is not among `others`.
pub open spec fn fresh(hosts: Seq<WelcomeView>, others: Seq<WelcomeView>) -> Seq<WelcomeView> {
    sifted_upto(hosts, others, false, hosts.len() as int)
}

/// Whether one of `hosts` is named `name`.
pub fn has_named(hosts: &Vec<WelcomeElement>, name: &String) -> (r: bool)
    ensures
        r == is_named(welcome_view(hosts@), name@),
{
    let mut found = false;
    let mut i: usize = 0;
    while i < hosts.len()
        invariant
            i <= hosts.len(),
            found == named_upto(welcome_view(hosts@), name@, i as int),
        decreases hosts.len() - i,
    {
        assert(welcome_view(hosts@)[i as int] == hosts@[i as int]@);
        if hosts[i].metadata.name == *name {
            found = true;
        }
        i += 1;
    }
    found
}

/// Those of `hosts` whose name is, or is not, among `others`.
pub fn sift(hosts: &Vec<WelcomeElement>, others: &Vec<WelcomeElement>, keep: bool) -> (r: Vec<
    WelcomeElement,
>)
    ensures
        welcome_view(r@) == sifted_upto(
            welcome_view(hosts@),
            welcome_view(others@),
            keep,
            hosts@.len() as int,
        ),
{
    let mut kept: Vec<WelcomeElement> = Vec::new();
    let mut i: usize = 0;
    while i < hosts.len()
        invariant
            i <= hosts.len(),
            welcome_view(kept@) == sifted_upto(
                welcome_view(hosts@),
                welcome_view(others@),
                keep,
                i as int,
            ),
        decreases hosts.len() - i,
    {
        assert(welcome_view(hosts@)[i as int] == hosts@[i as int]@);
        if has_named(others, &hosts[i].metadata.name) == keep {
            let ghost before = kept@;
            let h = hosts[i].duplicate();
            kept.push(h);
            assert(welcome_view(kept@) == welcome_view(before).push(h@));
        }
        i += 1;
    }
    kept
}

impl History {
    /// The history without entries.
    pub fn new() -> (r: History)
        ensures
            r@ == Seq::<WelcomeView>::empty(),
    {
        let r = History { entries: Vec::new() };
        assert(r@ == Seq::<WelcomeView>::empty());
        r
    }

    /// Puts `host` first, in place of any entry of its name.
    pub fn update(&mut self, host: &WelcomeElement)
        ensures
            final(self)@ == seq![host@] + without_upto(
                old(self)@,
                host@.name,
                old(self)@.len() as int,
            ),
    {
        let ghost start = self@;
        let mut entries: Vec<WelcomeElement> = Vec::new();
        let first = host.duplicate();
        entries.push(first);
        assert(welcome_view(entries@) == seq![host@]);
        let mut i: usize = 0;
        while i < self.entries.len()
            invariant
                i <= self.entries.len(),
                start == welcome_view(self.entries@),
                welcome_view(entries@) == seq![host@] + without_upto(start, host@.name, i as int),
            decreases self.entries.len() - i,
        {
            assert(start[i as int] == self.entries@[i as int]@);
            if self.entries[i].metadata.name != host.metadata.name {
                let ghost before = entries@;
                let h = self.entries[i].duplicate();
                entries.push(h);
                assert(welcome_view(entries@) == welcome_view(before).push(h@));
            }
            i += 1;
        }
        self.entries = entries;
    }

    /// Drops the entries whose name is not among `hosts`.
    pub fn intersect(&mut self, hosts: &Vec<WelcomeElement>)
        ensures
            final(self)@ == common(old(self)@, welcome_view(hosts@)),
    {
        let kept = sift(&self.entries, hosts, true);
        self.entries = kept;
    }
}

/// What the user chooses from: the hosts chosen before that are still
/// listed, then the other hosts that are listed.
pub open spec fn with_recents(hosts: Seq<WelcomeView>, history: Seq<WelcomeView>) -> Seq<WelcomeView> {
    common(history, hosts) + fresh(hosts, common(history, hosts))
}

/// Puts the hosts chosen before in front of `hosts`, and drops from
/// `history` those that are not listed any more.
pub fn add_recents(hosts: Vec<WelcomeElement>, history: &mut History) -> (r: Vec<WelcomeElement>)
    ensures
        final(history)@ == common(old(history)@, welcome_view(hosts@)),
        welcome_view(r@) == with_recents(welcome_view(hosts@), old(history)@),
{
    history.intersect(&hosts);
    let rest = sift(&hosts, &history.entries, false);
    let mut all: Vec<WelcomeElement> = Vec::new();
    let mut i: usize = 0;
    while i < history.entries.len()
        invariant
            i <= history.entries.len(),
            welcome_view(all@) == history@.take(i as int),
        decreases history.entries.len() - i,
    {
        let ghost before = all@;
        let h = history.entries[i].duplicate();
        all.push(h);
        assert(welcome_view(all@) == welcome_view(before).push(h@));
        assert(history@.take(i + 1) == history@.take(i as int).push(history@[i as int]));
        i += 1;
    }
    assert(history@.take(i as int) == history@);
    let mut j: usize = 0;
    while j < rest.len()
        invariant
            j <= rest.len(),
            welcome_view(all@) == history@ + welcome_view(rest@).take(j as int),
        decreases rest.len() - j,
    {
        let ghost before = all@;
        let h = rest[j].duplicate();
        all.push(h);
        assert(welcome_view(all@) == welcome_view(before).push(h@));
        assert(welcome_view(rest@).take(j + 1) == welcome_view(rest@).take(j as int).push(
            welcome_view(rest@)[j as int],
        ));
        j += 1;
    }
    assert(welcome_view(rest@).take(j as int) == welcome_view(rest@));
    all
}

} // verus!
