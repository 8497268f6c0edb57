//! The hosts that the teleport client lists.

use vstd::prelude::*;
use vstd::string::StringExecFns;
use crate::config::{common_tsh, common_tsh_args, texts_view};
use crate::executable::{Invocation, InvocationView};
use crate::name_map::pairs_view;
use crate::text::{chars_of, has_prefix, owned, starts_with_at};

verus! {

/// A host that the teleport client lists.
#[derive(Clone, Debug)]
pub struct WelcomeElement {
    pub kind: String,
    pub version: String,
    pub metadata: Metadata,
    pub spec: Spec,
}

/// What a listed host is known by. `id` holds the identifier as the bits
/// of the floating-point number that the client prints.
#[derive(Clone, Debug)]
pub struct Metadata {
    pub name: String,
    pub labels: Vec<(String, String)>,
    pub expires: String,
    pub id: u64,
}

#[derive(Clone, Debug)]
pub struct Spec {
    pub addr: String,
    pub hostname: String,
    pub use_tunnel: Option<bool>,
    pub version: String,
    pub public_addr: Option<String>,
}

/// What this crate reads of a listed host: its name, its host name and its
/// labels.
pub struct WelcomeView {
    pub name: Seq<char>,
    pub hostname: Seq<char>,
    pub labels: Seq<(Seq<char>, Seq<char>)>,
}

impl View for WelcomeElement {
    type V = WelcomeView;

    open spec fn view(&self) -> WelcomeView {
        WelcomeView {
            name: self.metadata.name@,
            hostname: self.spec.hostname@,
            labels: pairs_view(self.metadata.labels@),
        }
    }
}

/// Listed hosts as their views.
pub open spec fn welcome_view(hosts: Seq<WelcomeElement>) -> Seq<WelcomeView> {
    hosts.map_values(|h: WelcomeElement| h@)
}

impl PartialEq for WelcomeElement {
    fn eq(&self, other: &Self) -> (r: bool) {
        self.metadata.name == other.metadata.name
    }
}

impl vstd::std_specs::cmp::PartialEqSpecImpl for WelcomeElement {
    open spec fn obeys_eq_spec() -> bool {
        true
    }

    open spec fn eq_spec(&self, other: &Self) -> bool {
        self.metadata.name@ == other.metadata.name@
    }
}

/// Whether a label is for the user to see: its key does not begin with
/// `teleport.internal`.
pub open spec fn is_shown(key: Seq<char>) -> bool {
    !has_prefix(key, "teleport.internal"@)
}

/// The labels among the first `n` that are shown, each as `key: value`,
/// with `, ` between them.
pub open spec fn shown_upto(labels: Seq<(Seq<char>, Seq<char>)>, n: int) -> Seq<char>
    decreases n,
{
    if n <= 0 {
        Seq::empty()
    } else {
        let before = shown_upto(labels, n - 1);
        if is_shown(labels[n - 1].0) {
            (if before.len() > 0 {
                before + ", "@
            } else {
                before
            }) + labels[n - 1].0 + ": "@ + labels[n - 1].1
        } else {
            before
        }
    }
}

/// How the labels of a host are shown.
pub open spec fn shown(labels: Seq<(Seq<char>, Seq<char>)>) -> Seq<char> {
    shown_upto(labels, labels.len() as int)
}

impl WelcomeElement {
    /// A copy of this host.
    pub fn duplicate(&self) -> (r: WelcomeElement)
        ensures
            r@ == self@,
            r.metadata.name@ == self.metadata.name@,
    {
        let mut labels: Vec<(String, String)> = Vec::new();
        let mut i: usize = 0;
        while i < self.metadata.labels.len()
            invariant
                i <= self.metadata.labels.len(),
                pairs_view(labels@) == pairs_view(self.metadata.labels@).take(i as int),
            decreases self.metadata.labels.len() - i,
        {
            let ghost before = labels@;
            let p = (self.metadata.labels[i].0.clone(), self.metadata.labels[i].1.clone());
            labels.push(p);
            assert(pairs_view(labels@) == pairs_view(before).push((p.0@, p.1@)));
            assert(pairs_view(self.metadata.labels@).take(i + 1) == pairs_view(
                self.metadata.labels@,
            ).take(i as int).push(pairs_view(self.metadata.labels@)[i as int]));
            i += 1;
        }
        assert(pairs_view(self.metadata.labels@).take(i as int) == pairs_view(
            self.metadata.labels@,
        ));
        WelcomeElement {
            kind: self.kind.clone(),
            version: self.version.clone(),
            metadata: Metadata {
                name: self.metadata.name.clone(),
                labels,
                expires: self.metadata.expires.clone(),
                id: self.metadata.id,
            },
            spec: Spec {
                addr: self.spec.addr.clone(),
                hostname: self.spec.hostname.clone(),
                use_tunnel: self.spec.use_tunnel,
                version: self.spec.version.clone(),
                public_addr: match &self.spec.public_addr {
                    Some(a) => Some(a.clone()),
                    None => None,
                },
            },
        }
    }

    /// How this host is shown: its labels, without those that are internal
    /// to teleport.
    pub fn display(&self) -> (r: String)
        ensures
            r@ == shown(self@.labels),
    {
        let marker = chars_of("teleport.internal");
        let labels = &self.metadata.labels;
        let mut out = String::new();
        let mut i: usize = 0;
        while i < labels.len()
            invariant
                i <= labels.len(),
                marker@ == "teleport.internal"@,
                out@ == shown_upto(pairs_view(labels@), i as int),
            decreases labels.len() - i,
        {
            assert(pairs_view(labels@)[i as int] == (labels@[i as int].0@, labels@[i as int].1@));
            let key = chars_of(labels[i].0.as_str());
            assert(key@.subrange(0, key.len() as int) == key@);
            if !starts_with_at(&key, 0, key.len(), &marker) {
                if !out.as_str().is_empty() {
                    out = out.concat(", ");
                }
                out = out.concat(labels[i].0.as_str()).concat(": ").concat(labels[i].1.as_str());
            }
            i += 1;
        }
        out
    }
}

/// The command line that opens a shell on `host` through teleport.
pub open spec fn teleport_shell(hostname: Seq<char>) -> InvocationView {
    InvocationView { program: "tsh"@, args: common_tsh() + seq!["ssh"@, "ubuntu@"@ + hostname] }
}

/// The command line that asks teleport for its hosts.
pub open spec fn teleport_listing() -> InvocationView {
    InvocationView { program: "tsh"@, args: common_tsh() + seq!["ls"@, "-f"@, "json"@] }
}

/// The command line that opens a shell on `host` through teleport.
pub fn ssh(host: &WelcomeElement) -> (r: Invocation)
    ensures
        r@ == teleport_shell(host@.hostname),
{
    let mut args = common_tsh_args();
    let ghost common = args@;
    let a = owned("ssh");
    let b = owned("ubuntu@").concat(host.spec.hostname.as_str());
    args.push(a);
    args.push(b);
    assert(texts_view(args@) == texts_view(common) + seq![a@, b@]);
    Invocation { program: owned("tsh"), args }
}

/// The command line that asks teleport for its hosts.
pub fn get_hosts() -> (r: Invocation)
    ensures
        r@ == teleport_listing(),
{
    let mut args = common_tsh_args();
    let ghost common = args@;
    let a = owned("ls");
    let b = owned("-f");
    let c = owned("json");
    args.push(a);
    args.push(b);
    args.push(c);
    assert(texts_view(args@) == texts_view(common) + seq![a@, b@, c@]);
    Invocation { program: owned("tsh"), args }
}

/// The command line that updates this tool, which exists on Windows only.
pub fn check_ash_update(windows: bool) -> (r: Option<Invocation>)
    ensures
        match r {
            Some(line) => windows && line@ == (InvocationView {
                program: "scoop.cmd"@,
                args: seq!["update"@, "-k"@, "ash"@],
            }),
            None => !windows,
        },
{
    if !windows {
        return None;
    }
    let mut args: Vec<String> = Vec::new();
    args.push(owned("update"));
    args.push(owned("-k"));
    args.push(owned("ash"));
    assert(texts_view(args@) == seq!["update"@, "-k"@, "ash"@]);
    Some(Invocation { program: owned("scoop.cmd"), args })
}

} // verus!
