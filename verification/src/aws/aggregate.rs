//! Aggregation: one discovery for every credential, each on its own, and
//! the merge of what they found.

use vstd::prelude::*;
use crate::aws::credential::{Credential, CredentialView};
use crate::aws::delegation::{Reply, ReplyView};
use crate::aws::discovery::{
    describe_instances_address,
    describe_instances_request,
    ec2_service,
    discovery_result,
    hosts_result,
    hosts_view,
    option_view,
    update_from_aws_api,
    HostRecord,
    HostRecordView,
};
use crate::aws::error::{AwsError, AwsErrorView, ProfileError, ProfileErrorView};
use crate::aws::resolver::failures_view;
use crate::aws::sign::{signature, SignedRequest};

verus! {

/// How the discovery for `profile` ended.
#[derive(Debug)]
pub struct Discovered {
    pub profile: String,
    pub result: Result<Vec<HostRecord>, AwsError>,
}

pub struct DiscoveredView {
    pub profile: Seq<char>,
    pub result: Result<Seq<HostRecordView>, AwsErrorView>,
}

impl View for Discovered {
    type V = DiscoveredView;

    open spec fn view(&self) -> DiscoveredView {
        DiscoveredView { profile: self.profile@, result: hosts_result(self.result) }
    }
}

/// Outcomes as their views.
pub open spec fn discoveries_view(o: Seq<Discovered>) -> Seq<DiscoveredView> {
    o.map_values(|x: Discovered| x@)
}

/// The discovery request of `credential`, or the outcome of its discovery
/// where the request cannot be signed.
pub fn discovery_request(credential: &Credential, time: i64) -> (r: Result<SignedRequest, Discovered>)
    ensures
        r matches Err(d) ==> d@.profile == credential@.profile && d@.result == Err::<
            Seq<HostRecordView>,
            AwsErrorView,
        >(AwsErrorView::Signing { profile: credential@.profile }),
        match r {
            Ok(request) => {
                &&& request@.url == describe_instances_address(credential@.region)
                &&& signature(
                    describe_instances_address(credential@.region),
                    ec2_service(),
                    credential@,
                    time,
                ) == Some(request@.headers)
            },
            Err(_) => signature(
                describe_instances_address(credential@.region),
                ec2_service(),
                credential@,
                time,
            ) is None,
        },
{
    match describe_instances_request(credential, time) {
        Ok(request) => Ok(request),
        Err(e) => Err(Discovered { profile: credential.profile.clone(), result: Err(e) }),
    }
}

/// Reads the reply to the discovery request of `credential` into the
/// outcome of that discovery.
pub fn discovered(credential: &Credential, bastion: Option<&str>, reply: &Reply) -> (r: Discovered)
    ensures
        r@.profile == credential@.profile,
        r@.result == discovery_result(credential@, option_view(bastion), reply@),
{
    Discovered {
        profile: credential.profile.clone(),
        result: update_from_aws_api(credential, bastion, reply),
    }
}

/// The hosts that the first `n` outcomes found, in the order of the
/// outcomes.
pub open spec fn found_upto(outcomes: Seq<DiscoveredView>, n: int) -> Seq<HostRecordView>
    decreases n,
{
    if n <= 0 {
        Seq::empty()
    } else {
        let before = found_upto(outcomes, n - 1);
        match outcomes[n - 1].result {
            Ok(hosts) => before + hosts,
            Err(_) => before,
        }
    }
}

/// The failures among the first `n` outcomes, each with its profile.
pub open spec fn lost_upto(outcomes: Seq<DiscoveredView>, n: int) -> Seq<ProfileErrorView>
    decreases n,
{
    if n <= 0 {
        Seq::empty()
    } else {
        let before = lost_upto(outcomes, n - 1);
        match outcomes[n - 1].result {
            Ok(_) => before,
            Err(e) => before.push(ProfileErrorView { profile: outcomes[n - 1].profile, error: e }),
        }
    }
}

/// Whether one of the first `n` outcomes is an authorization failure.
pub open spec fn refused_upto(outcomes: Seq<DiscoveredView>, n: int) -> bool
    decreases n,
{
    if n <= 0 {
        false
    } else {
        refused_upto(outcomes, n - 1) || (outcomes[n - 1].result matches Err(e) && e is Auth)
    }
}

/// The hosts that the outcomes found.
pub open spec fn found(outcomes: Seq<DiscoveredView>) -> Seq<HostRecordView> {
    found_upto(outcomes, outcomes.len() as int)
}

/// The failures among the outcomes.
pub open spec fn lost(outcomes: Seq<DiscoveredView>) -> Seq<ProfileErrorView> {
    lost_upto(outcomes, outcomes.len() as int)
}

/// What aggregation ends with: the hosts of every discovery that
/// succeeded, the failures of the others, and whether the credential cache
/// is to be purged because a discovery was refused.
#[derive(Debug)]
pub struct HostList {
    pub hosts: Vec<HostRecord>,
    pub errors: Vec<ProfileError>,
    pub purge_cache: bool,
}

pub struct HostListView {
    pub hosts: Seq<HostRecordView>,
    pub errors: Seq<ProfileErrorView>,
    pub purge_cache: bool,
}

impl View for HostList {
    type V = HostListView;

    open spec fn view(&self) -> HostListView {
        HostListView {
            hosts: hosts_view(self.hosts@),
            errors: failures_view(self.errors@),
            purge_cache: self.purge_cache,
        }
    }
}

/// What the outcomes of the discoveries amount to. Without any outcome
/// there was no credential, which is the one failure of the whole.
pub open spec fn aggregated(outcomes: Seq<DiscoveredView>) -> Result<HostListView, AwsErrorView> {
    if outcomes.len() == 0 {
        Err(AwsErrorView::NoCredentials)
    } else {
        Ok(
            HostListView {
                hosts: found(outcomes),
                errors: lost(outcomes),
                purge_cache: refused_upto(outcomes, outcomes.len() as int),
            },
        )
    }
}

/// Views of the outcome of aggregation.
pub open spec fn host_list_result(r: Result<HostList, AwsError>) -> Result<HostListView, AwsErrorView> {
    match r {
        Ok(l) => Ok(l@),
        Err(e) => Err(e@),
    }
}

/// Merges the outcomes of the discoveries, one for each credential, into
/// one host list. A discovery that failed takes nothing from the others.
pub fn update_sshconfig(outcomes: &Vec<Discovered>) -> (r: Result<HostList, AwsError>)
    ensures
        host_list_result(r) == aggregated(discoveries_view(outcomes@)),
{
    if outcomes.len() == 0 {
        return Err(AwsError::NoCredentials);
    }
    let ghost views = discoveries_view(outcomes@);
    let mut hosts: Vec<HostRecord> = Vec::new();
    let mut errors: Vec<ProfileError> = Vec::new();
    let mut purge_cache = false;
    let mut i: usize = 0;
    while i < outcomes.len()
        invariant
            i <= outcomes.len(),
            views == discoveries_view(outcomes@),
            hosts_view(hosts@) == found_upto(views, i as int),
            failures_view(errors@) == lost_upto(views, i as int),
            purge_cache == refused_upto(views, i as int),
        decreases outcomes.len() - i,
    {
        assert(views[i as int] == outcomes@[i as int]@);
        match &outcomes[i].result {
            Ok(list) => {
                let ghost start = hosts@;
                let mut j: usize = 0;
                while j < list.len()
                    invariant
                        j <= list.len(),
                        hosts_view(hosts@) == hosts_view(start) + hosts_view(list@).take(j as int),
                    decreases list.len() - j,
                {
                    let ghost before = hosts@;
                    let h = list[j].duplicate();
                    hosts.push(h);
                    assert(hosts_view(hosts@) == hosts_view(before).push(h@));
                    assert(hosts_view(list@).take(j + 1) == hosts_view(list@).take(j as int).push(
                        hosts_view(list@)[j as int],
                    ));
                    j += 1;
                }
                assert(hosts_view(list@).take(list.len() as int) == hosts_view(list@));
            },
            Err(e) => {
                let ghost before = errors@;
                let f = ProfileError { profile: outcomes[i].profile.clone(), error: e.duplicate() };
                errors.push(f);
                assert(failures_view(errors@) == failures_view(before).push(f@));
                if e.asks_for_purge() {
                    purge_cache = true;
                }
            },
        }
        i += 1;
    }
    Ok(HostList { hosts, errors, purge_cache })
}


/// The first failure among the first `n` outcomes.
pub open spec fn first_failure_upto(outcomes: Seq<DiscoveredView>, n: int) -> Option<AwsErrorView>
    decreases n,
{
    if n <= 0 {
        None
    } else {
        match first_failure_upto(outcomes, n - 1) {
            Some(e) => Some(e),
            None => match outcomes[n - 1].result {
                Ok(_) => None,
                Err(e) => Some(e),
            },
        }
    }
}

/// What the outcomes amount to where one failure fails the whole: the
/// hosts of all of them, or the first failure.
pub open spec fn joined(outcomes: Seq<DiscoveredView>) -> Result<Seq<HostRecordView>, AwsErrorView> {
    match first_failure_upto(outcomes, outcomes.len() as int) {
        Some(e) => Err(e),
        None => Ok(found(outcomes)),
    }
}

/// Merges the outcomes of the discoveries where all of them are needed:
/// the hosts that they found, in the order of the outcomes, or the first
/// failure among them.
pub fn join_all(outcomes: &Vec<Discovered>) -> (r: Result<Vec<HostRecord>, AwsError>)
    ensures
        hosts_result(r) == joined(discoveries_view(outcomes@)),
{
    let ghost views = discoveries_view(outcomes@);
    let mut hosts: Vec<HostRecord> = Vec::new();
    let mut i: usize = 0;
    while i < outcomes.len()
        invariant
            i <= outcomes.len(),
            views == discoveries_view(outcomes@),
            first_failure_upto(views, i as int) is None,
            hosts_view(hosts@) == found_upto(views, i as int),
        decreases outcomes.len() - i,
    {
        assert(views[i as int] == outcomes@[i as int]@);
        match &outcomes[i].result {
            Ok(list) => {
                let ghost start = hosts@;
                let mut j: usize = 0;
                while j < list.len()
                    invariant
                        j <= list.len(),
                        hosts_view(hosts@) == hosts_view(start) + hosts_view(list@).take(j as int),
                    decreases list.len() - j,
                {
                    let ghost before = hosts@;
                    let h = list[j].duplicate();
                    hosts.push(h);
                    assert(hosts_view(hosts@) == hosts_view(before).push(h@));
                    assert(hosts_view(list@).take(j + 1) == hosts_view(list@).take(j as int).push(
                        hosts_view(list@)[j as int],
                    ));
                    j += 1;
                }
                assert(hosts_view(list@).take(list.len() as int) == hosts_view(list@));
            },
            Err(e) => {
                proof {
                    lemma_first_failure(views, i as int, outcomes@.len() as int);
                }
                return Err(e.duplicate());
            },
        }
        i += 1;
    }
    Ok(hosts)
}

/// A failure at `k` with none before it is the first failure however many
/// outcomes follow.
pub proof fn lemma_first_failure(outcomes: Seq<DiscoveredView>, k: int, n: int)
    requires
        0 <= k < n <= outcomes.len(),
        first_failure_upto(outcomes, k) is None,
        outcomes[k].result is Err,
    ensures
        first_failure_upto(outcomes, n) == Some(outcomes[k].result->Err_0),
    decreases n,
{
    if n > k + 1 {
        lemma_first_failure(outcomes, k, n - 1);
    }
}

/// What the first `n` outcomes amount to depends on these outcomes alone.
pub proof fn lemma_prefix(s: Seq<DiscoveredView>, t: Seq<DiscoveredView>, n: int)
    requires
        0 <= n <= s.len(),
        n <= t.len(),
        forall|i: int| 0 <= i < n ==> s[i] == t[i],
    ensures
        found_upto(s, n) == found_upto(t, n),
        lost_upto(s, n) == lost_upto(t, n),
        refused_upto(s, n) == refused_upto(t, n),
    decreases n,
{
    if n > 0 {
        lemma_prefix(s, t, n - 1);
    }
}

/// What two runs of outcomes amount to, one after the other, is what each
/// amounts to, one after the other.
pub proof fn lemma_concat(a: Seq<DiscoveredView>, b: Seq<DiscoveredView>, m: int)
    requires
        0 <= m <= b.len(),
    ensures
        found_upto(a + b, a.len() + m) == found(a) + found_upto(b, m),
        lost_upto(a + b, a.len() + m) == lost(a) + lost_upto(b, m),
        refused_upto(a + b, a.len() + m) == (refused_upto(a, a.len() as int) || refused_upto(b, m)),
    decreases m,
{
    if m > 0 {
        lemma_concat(a, b, m - 1);
        assert((a + b)[a.len() + m - 1] == b[m - 1]);
        match b[m - 1].result {
            Ok(hosts) => {
                assert(found(a) + found_upto(b, m - 1) + hosts == found(a) + (found_upto(b, m - 1)
                    + hosts));
            },
            Err(e) => {
                let f = ProfileErrorView { profile: b[m - 1].profile, error: e };
                assert((lost(a) + lost_upto(b, m - 1)).push(f) == lost(a) + lost_upto(
                    b,
                    m - 1,
                ).push(f));
            },
        }
    } else {
        lemma_prefix(a + b, a, a.len() as int);
        assert(found(a) + Seq::<HostRecordView>::empty() == found(a));
        assert(lost(a) + Seq::<ProfileErrorView>::empty() == lost(a));
    }
}

/// Failures are isolated: a discovery that failed, wherever it stands among
/// the others, adds its failure under its profile and leaves the hosts and
/// failures of the others as they are without it. Where it was refused for
/// want of authorization, the cache is to be purged.
pub proof fn lemma_failure_is_isolated(
    a: Seq<DiscoveredView>,
    failed: DiscoveredView,
    b: Seq<DiscoveredView>,
)
    requires
        failed.result is Err,
    ensures
        found(a + seq![failed] + b) == found(a + b),
        found(a + b) == found(a) + found(b),
        lost(a + seq![failed] + b) == lost(a) + seq![
            ProfileErrorView { profile: failed.profile, error: failed.result->Err_0 },
        ] + lost(b),
        failed.result->Err_0 is Auth ==> (aggregated(a + seq![failed] + b) matches Ok(list)
            && list.purge_cache),
{
    let one = seq![failed];
    let f = ProfileErrorView { profile: failed.profile, error: failed.result->Err_0 };
    lemma_concat(a, b, b.len() as int);
    lemma_concat(a, one, 1);
    lemma_concat(a + one, b, b.len() as int);
    assert(found_upto(one, 0) == Seq::<HostRecordView>::empty());
    assert(lost_upto(one, 0) == Seq::<ProfileErrorView>::empty());
    assert(found_upto(one, 1) == Seq::<HostRecordView>::empty());
    assert(lost_upto(one, 1) == seq![f]);
    assert((a + one).len() == a.len() + 1);
    assert((a + one + b).len() == a.len() + 1 + b.len());
    assert((a + b).len() == a.len() + b.len());
    assert(found(a) + Seq::<HostRecordView>::empty() == found(a));
    assert(!refused_upto(one, 0));
    assert(one[0] == failed);
    assert(refused_upto(one, 1) == (failed.result->Err_0 is Auth));
}

} // verus!
