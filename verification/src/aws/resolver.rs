//! Credential resolution. The environment comes first and stands alone;
//! then static secrets, then what the cache still holds, then one
//! delegation for every profile whose source is resolved by then.
//!
//! Delegation goes one level deep: the delegations are planned in one
//! sweep over the profiles, before any of them is made, so a profile whose
//! source would itself be resolved by a delegation of this run is left
//! without credential, and reported as such.

use vstd::prelude::*;
use crate::aws::cache::{
    credentials_view,
    keyed_by_profile,
    lemma_last_fresh_is,
    lemma_loaded,
    lemma_upsert_keeps_keys,
    load,
    loaded,
    persisted,
    save,
};
use crate::aws::credential::{
    AwsConfig,
    AwsConfigView,
    Credential,
    CredentialView,
    Timestamp,
};
use crate::aws::delegation::{credential_result, delegation_result, get_sts_creds, Reply, ReplyView};
use crate::aws::error::{AwsError, AwsErrorView, ProfileError, ProfileErrorView, Reason, Store};
use crate::aws::profiles::{
    load_profiles,
    load_statics,
    profiles_of,
    statics_of,
    store_sections,
};
use crate::name_map::{
    distinct_names,
    has_name,
    index_of,
    lemma_index_of,
    lemma_index_of_is,
    lemma_upsert,
    lookup,
    upsert,
    NameMap,
};
use crate::text::owned;

verus! {

/// The three overrides that the environment may hold.
#[derive(Clone, Debug)]
pub struct Environment {
    pub access_key: Option<String>,
    pub secret_key: Option<String>,
    pub region: Option<String>,
}

pub struct EnvironmentView {
    pub access_key: Option<Seq<char>>,
    pub secret_key: Option<Seq<char>>,
    pub region: Option<Seq<char>>,
}

impl View for Environment {
    type V = EnvironmentView;

    open spec fn view(&self) -> EnvironmentView {
        EnvironmentView {
            access_key: match self.access_key {
                Some(t) => Some(t@),
                None => None,
            },
            secret_key: match self.secret_key {
                Some(t) => Some(t@),
                None => None,
            },
            region: match self.region {
                Some(t) => Some(t@),
                None => None,
            },
        }
    }
}

/// The profile that the credential of the environment is for.
pub open spec fn sentinel_profile() -> Seq<char> {
    "default"@
}

/// The credential that the environment gives: one for the sentinel
/// profile, when all three overrides are there.
pub open spec fn env_credential(env: EnvironmentView) -> Option<CredentialView> {
    match (env.access_key, env.secret_key, env.region) {
        (Some(access_key), Some(secret_key), Some(region)) => Some(
            CredentialView {
                profile: sentinel_profile(),
                access_key,
                secret_key,
                session_token: Seq::empty(),
                region,
                expiration: Seq::empty(),
            },
        ),
        _ => None,
    }
}

/// The credential that the environment gives.
pub fn get_env_credentials(env: &Environment) -> (r: Option<Credential>)
    ensures
        match r {
            Some(c) => env_credential(env@) == Some(c@),
            None => env_credential(env@) is None,
        },
{
    match (&env.access_key, &env.secret_key, &env.region) {
        (Some(access_key), Some(secret_key), Some(region)) => Some(
            Credential {
                profile: owned("default"),
                access_key: access_key.clone(),
                secret_key: secret_key.clone(),
                session_token: String::new(),
                region: region.clone(),
                expiration: String::new(),
            },
        ),
        _ => None,
    }
}

/// Where resolution goes after it has looked at the environment.
#[derive(Clone, Debug)]
pub enum Source {
    /// The environment gave the one credential of this run: no store is to
    /// be read.
    Environment { credentials: Vec<Credential> },
    /// The environment gave none: the stores are to be read.
    Stores,
}

/// The first step of resolution: with all three overrides in the
/// environment, the result is their one credential, for the sentinel
/// profile; otherwise the stores are to be read.
pub fn get_credentials(env: &Environment) -> (r: Source)
    ensures
        match r {
            Source::Environment { credentials } => env_credential(env@) is Some
                && credentials_view(credentials@) == seq![env_credential(env@)->0],
            Source::Stores => env_credential(env@) is None,
        },
{
    match get_env_credentials(env) {
        Some(c) => {
            let mut credentials: Vec<Credential> = Vec::new();
            credentials.push(c);
            assert(credentials_view(credentials@) == seq![c@]);
            Source::Environment { credentials }
        },
        None => Source::Stores,
    }
}

/// What was read of the stores: the text of the account configuration
/// (`None` where there is none), the text of the secrets (`None` where they
/// cannot be had), and the entries of the cache (none where there is no
/// cache or it cannot be read).
#[derive(Clone, Debug)]
pub struct Stores {
    pub config: Option<String>,
    pub secrets: Option<String>,
    pub cache: Vec<Credential>,
}

/// A delegation to make: the profile to resolve, and the credential of its
/// source profile, which signs the request.
#[derive(Clone, Debug)]
pub struct Delegation {
    pub config: AwsConfig,
    pub source: Credential,
}

pub struct DelegationView {
    pub config: AwsConfigView,
    pub source: CredentialView,
}

impl View for Delegation {
    type V = DelegationView;

    open spec fn view(&self) -> DelegationView {
        DelegationView { config: self.config@, source: self.source@ }
    }
}

/// Delegations as their views.
pub open spec fn delegations_view(d: Seq<Delegation>) -> Seq<DelegationView> {
    d.map_values(|x: Delegation| x@)
}

/// Errors as their views.
pub open spec fn errors_view(e: Seq<AwsError>) -> Seq<AwsErrorView> {
    e.map_values(|x: AwsError| x@)
}

/// Where resolution stands once the stores are read: the credentials
/// resolved without a request, the delegations to make, and the profiles
/// for which nothing can be done.
pub struct ResolutionPlan {
    pub resolved: NameMap<Credential>,
    pub pending: Vec<Delegation>,
    pub unresolved: Vec<AwsError>,
}

pub struct ResolutionPlanView {
    pub resolved: Seq<(Seq<char>, CredentialView)>,
    pub pending: Seq<DelegationView>,
    pub unresolved: Seq<AwsErrorView>,
}

impl View for ResolutionPlan {
    type V = ResolutionPlanView;

    open spec fn view(&self) -> ResolutionPlanView {
        ResolutionPlanView {
            resolved: self.resolved@,
            pending: delegations_view(self.pending@),
            unresolved: errors_view(self.unresolved@),
        }
    }
}

/// The static credentials, and with them the first `n` cached ones whose
/// profile has no credential yet.
pub open spec fn merged_upto(
    statics: Seq<(Seq<char>, CredentialView)>,
    cached: Seq<(Seq<char>, CredentialView)>,
    n: int,
) -> Seq<(Seq<char>, CredentialView)>
    decreases n,
{
    if n <= 0 {
        statics
    } else {
        let before = merged_upto(statics, cached, n - 1);
        if has_name(before, cached[n - 1].0) {
            before
        } else {
            before.push(cached[n - 1])
        }
    }
}

/// The static credentials, and with them every cached one whose profile has
/// no static credential.
pub open spec fn merged(
    statics: Seq<(Seq<char>, CredentialView)>,
    cached: Seq<(Seq<char>, CredentialView)>,
) -> Seq<(Seq<char>, CredentialView)> {
    merged_upto(statics, cached, cached.len() as int)
}

/// Whether `config` is to be resolved by delegation: it has no credential
/// yet, and its source profile, which it names, has one.
pub open spec fn is_pending(config: AwsConfigView, resolved: Seq<(Seq<char>, CredentialView)>) -> bool {
    &&& !has_name(resolved, config.profile)
    &&& config.source_profile.len() > 0
    &&& has_name(resolved, config.source_profile)
}

/// The delegations to make for the first `n` profiles.
pub open spec fn pending_upto(
    profiles: Seq<(Seq<char>, AwsConfigView)>,
    resolved: Seq<(Seq<char>, CredentialView)>,
    n: int,
) -> Seq<DelegationView>
    decreases n,
{
    if n <= 0 {
        Seq::empty()
    } else {
        let before = pending_upto(profiles, resolved, n - 1);
        let config = profiles[n - 1].1;
        if is_pending(config, resolved) {
            before.push(
                DelegationView { config, source: lookup(resolved, config.source_profile)->0 },
            )
        } else {
            before
        }
    }
}

/// Why nothing can be done for `config`, which has no credential and is
/// not pending.
pub open spec fn reason_unresolved(config: AwsConfigView) -> Reason {
    if config.source_profile.len() == 0 {
        Reason::MissingSecret
    } else {
        Reason::UnresolvedDependency
    }
}

/// The failures of those among the first `n` profiles that have no
/// credential and are not pending.
pub open spec fn unresolved_upto(
    profiles: Seq<(Seq<char>, AwsConfigView)>,
    resolved: Seq<(Seq<char>, CredentialView)>,
    n: int,
) -> Seq<AwsErrorView>
    decreases n,
{
    if n <= 0 {
        Seq::empty()
    } else {
        let before = unresolved_upto(profiles, resolved, n - 1);
        let config = profiles[n - 1].1;
        if !has_name(resolved, config.profile) && !is_pending(config, resolved) {
            before.push(
                AwsErrorView::Resolution {
                    profile: config.profile,
                    cause: reason_unresolved(config),
                },
            )
        } else {
            before
        }
    }
}

/// The plan for `profiles`, given the static credentials and the entries of
/// the cache at `now`.
pub open spec fn plan_of(
    profiles: Seq<(Seq<char>, AwsConfigView)>,
    statics: Seq<(Seq<char>, CredentialView)>,
    cache: Seq<CredentialView>,
    now: Timestamp,
) -> ResolutionPlanView {
    let resolved = merged(statics, loaded(cache, now));
    ResolutionPlanView {
        resolved,
        pending: pending_upto(profiles, resolved, profiles.len() as int),
        unresolved: unresolved_upto(profiles, resolved, profiles.len() as int),
    }
}

/// The profiles that a configuration text describes; none where there is
/// no configuration.
pub open spec fn configured(config: Option<Seq<char>>) -> Result<
    Seq<(Seq<char>, AwsConfigView)>,
    AwsErrorView,
> {
    match config {
        Some(text) => match store_sections(text) {
            Some(sections) => profiles_of(sections),
            None => Err(AwsErrorView::Config { store: Store::Config }),
        },
        None => Ok(Seq::empty()),
    }
}

/// The plan that the stores give at `now`, or the failure to read them.
pub open spec fn planned(
    config: Option<Seq<char>>,
    secrets: Option<Seq<char>>,
    cache: Seq<CredentialView>,
    now: Timestamp,
) -> Result<ResolutionPlanView, AwsErrorView> {
    match configured(config) {
        Err(e) => Err(e),
        Ok(profiles) => match secrets {
            None => Err(AwsErrorView::Config { store: Store::Secrets }),
            Some(text) => match store_sections(text) {
                None => Err(AwsErrorView::Config { store: Store::Secrets }),
                Some(sections) => Ok(
                    plan_of(profiles, statics_of(sections, profiles), cache, now),
                ),
            },
        },
    }
}

/// Views of the outcome of planning.
pub open spec fn plan_result(r: Result<ResolutionPlan, AwsError>) -> Result<
    ResolutionPlanView,
    AwsErrorView,
> {
    match r {
        Ok(p) => Ok(p@),
        Err(e) => Err(e@),
    }
}

/// The view of an optional text.
pub open spec fn text_view(s: Option<String>) -> Option<Seq<char>> {
    match s {
        Some(t) => Some(t@),
        None => None,
    }
}

/// Adds to the static credentials every cached one whose profile has none.
pub fn merge_cached(statics: NameMap<Credential>, cached: &NameMap<Credential>) -> (r: NameMap<
    Credential,
>)
    ensures
        r@ == merged(statics@, cached@),
{
    let mut resolved = statics;
    let n: usize = cached.len();
    let mut i: usize = 0;
    while i < n
        invariant
            i <= n,
            n == cached@.len(),
            resolved@ == merged_upto(statics@, cached@, i as int),
        decreases n - i,
    {
        let name = cached.name_at(i);
        if !resolved.contains_key(name.as_str()) {
            resolved.insert(name.clone(), cached.value_at(i).duplicate());
        }
        i += 1;
    }
    resolved
}

/// The plan for `profiles`, given the static credentials and the entries of
/// the cache at `now`.
pub fn plan(
    profiles: &NameMap<AwsConfig>,
    statics: NameMap<Credential>,
    cache: &Vec<Credential>,
    now: Timestamp,
) -> (r: ResolutionPlan)
    ensures
        r@ == plan_of(profiles@, statics@, credentials_view(cache@), now),
{
    let cached = load(cache, now);
    let resolved = merge_cached(statics, &cached);
    let mut pending: Vec<Delegation> = Vec::new();
    let mut unresolved: Vec<AwsError> = Vec::new();
    let n: usize = profiles.len();
    let mut i: usize = 0;
    while i < n
        invariant
            i <= n,
            n == profiles@.len(),
            delegations_view(pending@) == pending_upto(profiles@, resolved@, i as int),
            errors_view(unresolved@) == unresolved_upto(profiles@, resolved@, i as int),
        decreases n - i,
    {
        let config = profiles.value_at(i);
        if !resolved.contains_key(config.profile.as_str()) {
            let source = if config.source_profile.as_str().is_empty() {
                None
            } else {
                resolved.get(config.source_profile.as_str())
            };
            match source {
                Some(credential) => {
                    let ghost before = pending@;
                    let d = Delegation { config: config.duplicate(), source: credential.duplicate() };
                    pending.push(d);
                    assert(delegations_view(pending@) == delegations_view(before).push(d@));
                },
                None => {
                    let ghost before = unresolved@;
                    let cause = if config.source_profile.as_str().is_empty() {
                        Reason::MissingSecret
                    } else {
                        Reason::UnresolvedDependency
                    };
                    let e = AwsError::Resolution { profile: config.profile.clone(), cause };
                    unresolved.push(e);
                    assert(errors_view(unresolved@) == errors_view(before).push(e@));
                },
            }
        }
        i += 1;
    }
    ResolutionPlan { resolved, pending, unresolved }
}

/// The second step of resolution, once the stores are read: static
/// credentials, then the cache, then the plan of delegations. It fails only
/// where a store cannot be read.
pub fn get_shared_credentials(stores: &Stores, now: Timestamp) -> (r: Result<
    ResolutionPlan,
    AwsError,
>)
    ensures
        plan_result(r) == planned(
            text_view(stores.config),
            text_view(stores.secrets),
            credentials_view(stores.cache@),
            now,
        ),
{
    let profiles = match &stores.config {
        Some(text) => match load_profiles(text.as_str()) {
            Ok(p) => p,
            Err(e) => {
                return Err(e);
            },
        },
        None => NameMap::new(),
    };
    let statics = match &stores.secrets {
        Some(text) => match load_statics(text.as_str(), &profiles) {
            Ok(s) => s,
            Err(e) => {
                return Err(e);
            },
        },
        None => {
            return Err(AwsError::Config { store: Store::Secrets });
        },
    };
    Ok(plan(&profiles, statics, &stores.cache, now))
}

/// How the delegation for `profile` ended.
#[derive(Debug)]
pub struct Delegated {
    pub profile: String,
    pub result: Result<Credential, AwsError>,
}

pub struct DelegatedView {
    pub profile: Seq<char>,
    pub result: Result<CredentialView, AwsErrorView>,
}

impl View for Delegated {
    type V = DelegatedView;

    open spec fn view(&self) -> DelegatedView {
        DelegatedView { profile: self.profile@, result: credential_result(self.result) }
    }
}

/// Outcomes as their views.
pub open spec fn outcomes_view(o: Seq<Delegated>) -> Seq<DelegatedView> {
    o.map_values(|x: Delegated| x@)
}

/// Failures as their views.
pub open spec fn failures_view(e: Seq<ProfileError>) -> Seq<ProfileErrorView> {
    e.map_values(|x: ProfileError| x@)
}

/// Reads the reply to a delegation request into the outcome of that
/// delegation.
pub fn delegated(delegation: &Delegation, reply: &Reply) -> (r: Delegated)
    ensures
        r@.profile == delegation@.config.profile,
        r@.result == delegation_result(delegation@.config, reply@),
{
    Delegated {
        profile: delegation.config.profile.clone(),
        result: get_sts_creds(&delegation.config, reply),
    }
}

/// The credentials after the first `n` outcomes: each credential that a
/// delegation gave stands for its profile.
pub open spec fn completed_upto(
    resolved: Seq<(Seq<char>, CredentialView)>,
    outcomes: Seq<DelegatedView>,
    n: int,
) -> Seq<(Seq<char>, CredentialView)>
    decreases n,
{
    if n <= 0 {
        resolved
    } else {
        let before = completed_upto(resolved, outcomes, n - 1);
        match outcomes[n - 1].result {
            Ok(c) => upsert(before, c.profile, c),
            Err(_) => before,
        }
    }
}

/// The failures among the first `n` outcomes, each with its profile.
pub open spec fn failed_upto(outcomes: Seq<DelegatedView>, n: int) -> Seq<ProfileErrorView>
    decreases n,
{
    if n <= 0 {
        Seq::empty()
    } else {
        let before = failed_upto(outcomes, n - 1);
        match outcomes[n - 1].result {
            Ok(_) => before,
            Err(e) => before.push(ProfileErrorView { profile: outcomes[n - 1].profile, error: e }),
        }
    }
}

/// The profile that a failure is filed under: the one it is about, or none.
pub open spec fn filed(e: AwsErrorView) -> ProfileErrorView {
    ProfileErrorView {
        profile: match crate::aws::error::error_profile(e) {
            Some(p) => p,
            None => Seq::empty(),
        },
        error: e,
    }
}

/// The values of a map, in its order.
pub open spec fn values_of(m: Seq<(Seq<char>, CredentialView)>) -> Seq<CredentialView> {
    m.map_values(|e: (Seq<char>, CredentialView)| e.1)
}

/// What resolution ends with: the credentials, the failures by profile, and
/// the entries to write to the cache.
pub struct Resolution {
    pub credentials: Vec<Credential>,
    pub errors: Vec<ProfileError>,
    pub cache: Vec<Credential>,
}

pub struct ResolutionView {
    pub credentials: Seq<CredentialView>,
    pub errors: Seq<ProfileErrorView>,
    pub cache: Seq<CredentialView>,
}

impl View for Resolution {
    type V = ResolutionView;

    open spec fn view(&self) -> ResolutionView {
        ResolutionView {
            credentials: credentials_view(self.credentials@),
            errors: failures_view(self.errors@),
            cache: credentials_view(self.cache@),
        }
    }
}

/// What a plan and the outcomes of its delegations end with. The
/// credentials are those of the plan and those that the delegations gave;
/// the failures are those of the profiles left out of the plan, then those
/// of the delegations; the cache gets every credential that has a session
/// token.
pub open spec fn resolution_of(plan: ResolutionPlanView, outcomes: Seq<DelegatedView>) -> ResolutionView {
    let all = completed_upto(plan.resolved, outcomes, outcomes.len() as int);
    ResolutionView {
        credentials: values_of(all),
        errors: plan.unresolved.map_values(|e: AwsErrorView| filed(e)) + failed_upto(
            outcomes,
            outcomes.len() as int,
        ),
        cache: persisted(all),
    }
}

/// Files a failure under the profile that it is about.
pub fn file(e: &AwsError) -> (r: ProfileError)
    ensures
        r@ == filed(e@),
{
    let profile = match e {
        AwsError::Config { .. } => String::new(),
        AwsError::Resolution { profile, .. } => profile.clone(),
        AwsError::Signing { profile } => profile.clone(),
        AwsError::Auth { profile } => profile.clone(),
        AwsError::Api { profile, .. } => profile.clone(),
        AwsError::Parse { profile, .. } => profile.clone(),
        AwsError::Transport { profile, .. } => profile.clone(),
        AwsError::NoCredentials => String::new(),
    };
    ProfileError { profile, error: e.duplicate() }
}

/// The last step of resolution: merges what the delegations gave into the
/// plan. A delegation that failed takes nothing from the others.
pub fn complete(plan: ResolutionPlan, outcomes: &Vec<Delegated>) -> (r: Resolution)
    ensures
        r@ == resolution_of(plan@, outcomes_view(outcomes@)),
{
    let ghost views = outcomes_view(outcomes@);
    let ghost start = plan@;
    let mut all = plan.resolved;
    let mut errors: Vec<ProfileError> = Vec::new();
    let mut k: usize = 0;
    while k < plan.unresolved.len()
        invariant
            k <= plan.unresolved.len(),
            errors_view(plan.unresolved@) == start.unresolved,
            failures_view(errors@) == start.unresolved.take(k as int).map_values(
                |e: AwsErrorView| filed(e),
            ),
        decreases plan.unresolved.len() - k,
    {
        let ghost before = errors@;
        let f = file(&plan.unresolved[k]);
        errors.push(f);
        proof {
            assert(start.unresolved[k as int] == plan.unresolved@[k as int]@);
            assert(failures_view(errors@) == failures_view(before).push(f@));
            assert(start.unresolved.take(k + 1).map_values(|e: AwsErrorView| filed(e))
                == start.unresolved.take(k as int).map_values(|e: AwsErrorView| filed(e)).push(
                filed(start.unresolved[k as int]),
            ));
        }
        k += 1;
    }
    assert(start.unresolved.take(k as int) == start.unresolved);
    let ghost left_out = failures_view(errors@);
    let mut i: usize = 0;
    while i < outcomes.len()
        invariant
            i <= outcomes.len(),
            views == outcomes_view(outcomes@),
            all@ == completed_upto(start.resolved, views, i as int),
            failures_view(errors@) == left_out + failed_upto(views, i as int),
        decreases outcomes.len() - i,
    {
        assert(views[i as int] == outcomes@[i as int]@);
        match &outcomes[i].result {
            Ok(c) => {
                all.insert(c.profile.clone(), c.duplicate());
            },
            Err(e) => {
                let ghost before = errors@;
                let f = ProfileError { profile: outcomes[i].profile.clone(), error: e.duplicate() };
                errors.push(f);
                assert(failures_view(errors@) == failures_view(before).push(f@));
            },
        }
        i += 1;
    }
    let cache = save(&all);
    let mut credentials: Vec<Credential> = Vec::new();
    let n: usize = all.len();
    let mut j: usize = 0;
    while j < n
        invariant
            j <= n,
            n == all@.len(),
            credentials_view(credentials@) == values_of(all@).take(j as int),
        decreases n - j,
    {
        let ghost before = credentials@;
        let c = all.value_at(j).duplicate();
        credentials.push(c);
        assert(credentials_view(credentials@) == credentials_view(before).push(c@));
        assert(values_of(all@).take(j + 1) == values_of(all@).take(j as int).push(
            values_of(all@)[j as int],
        ));
        j += 1;
    }
    assert(values_of(all@).take(n as int) == values_of(all@));
    Resolution { credentials, errors, cache }
}


/// Precedence of the sources: in the merged set a profile has its static
/// credential if it has one, else the cached one if it has one among the
/// first `n`, else none. No profile has two, and each credential stands
/// under its own profile where the sources have it so.
pub proof fn lemma_merged(
    statics: Seq<(Seq<char>, CredentialView)>,
    cached: Seq<(Seq<char>, CredentialView)>,
    n: int,
)
    requires
        distinct_names(statics),
        distinct_names(cached),
        0 <= n <= cached.len(),
    ensures
        distinct_names(merged_upto(statics, cached, n)),
        keyed_by_profile(statics) && keyed_by_profile(cached) ==> keyed_by_profile(
            merged_upto(statics, cached, n),
        ),
        forall|name: Seq<char>|
            lookup(#[trigger] merged_upto(statics, cached, n), name) == if has_name(
                statics,
                name,
            ) {
                lookup(statics, name)
            } else if index_of(cached, name) < n {
                lookup(cached, name)
            } else {
                None
            },
    decreases n,
{
    let now = merged_upto(statics, cached, n);
    if n > 0 {
        lemma_merged(statics, cached, n - 1);
        let before = merged_upto(statics, cached, n - 1);
        let e = cached[n - 1];
        lemma_index_of(cached, e.0);
        assert(index_of(cached, e.0) == n - 1) by {
            let at = index_of(cached, e.0);
            if at < n - 1 {
                assert(cached[at].0 != cached[n - 1].0);
            }
        }
        assert(lookup(before, e.0) == if has_name(statics, e.0) {
            lookup(statics, e.0)
        } else {
            None::<CredentialView>
        });
        if !has_name(before, e.0) {
            lemma_upsert(before, e.0, e.1);
            assert(now == upsert(before, e.0, e.1));
            if keyed_by_profile(statics) && keyed_by_profile(cached) {
                assert forall|i: int| 0 <= i < now.len() implies (#[trigger] now[i]).0
                    == now[i].1.profile by {
                    if i < before.len() {
                        assert(now[i] == before[i]);
                    } else {
                        assert(now[i] == cached[n - 1]);
                    }
                }
            }
        }
        assert forall|name: Seq<char>|
            lookup(now, name) == if has_name(statics, name) {
                lookup(statics, name)
            } else if index_of(cached, name) < n {
                lookup(cached, name)
            } else {
                None
            } by {
            lemma_index_of(cached, name);
            assert(lookup(before, name) == if has_name(statics, name) {
                lookup(statics, name)
            } else if index_of(cached, name) < n - 1 {
                lookup(cached, name)
            } else {
                None
            });
            if name != e.0 {
                if index_of(cached, name) == n - 1 {
                    assert(cached[n - 1].0 == name);
                }
            }
        }
    } else {
        assert forall|name: Seq<char>|
            lookup(now, name) == if has_name(statics, name) {
                lookup(statics, name)
            } else if index_of(cached, name) < n {
                lookup(cached, name)
            } else {
                None
            } by {
            lemma_index_of(cached, name);
        }
    }
}

/// Every planned delegation is for a profile of the configuration that has
/// no credential, names a source profile, and carries the credential that
/// is resolved for that source.
pub proof fn lemma_pending(
    profiles: Seq<(Seq<char>, AwsConfigView)>,
    resolved: Seq<(Seq<char>, CredentialView)>,
    n: int,
)
    requires
        0 <= n <= profiles.len(),
    ensures
        forall|i: int|
            0 <= i < pending_upto(profiles, resolved, n).len() ==> {
                let d = #[trigger] pending_upto(profiles, resolved, n)[i];
                &&& is_pending(d.config, resolved)
                &&& lookup(resolved, d.config.source_profile) == Some(d.source)
                &&& exists|k: int| 0 <= k < n && profiles[k].1 == d.config
            },
    decreases n,
{
    if n > 0 {
        lemma_pending(profiles, resolved, n - 1);
        let before = pending_upto(profiles, resolved, n - 1);
        let now = pending_upto(profiles, resolved, n);
        assert forall|i: int| 0 <= i < now.len() implies {
            let d = #[trigger] now[i];
            &&& is_pending(d.config, resolved)
            &&& lookup(resolved, d.config.source_profile) == Some(d.source)
            &&& exists|k: int| 0 <= k < n && profiles[k].1 == d.config
        } by {
            if i < before.len() {
                assert(now[i] == before[i]);
                let k = choose|k: int| 0 <= k < n - 1 && profiles[k].1 == before[i].config;
                assert(0 <= k < n && profiles[k].1 == now[i].config);
            } else {
                assert(profiles[n - 1].1 == now[i].config);
            }
        }
    }
}

/// What the delegations gave changes nothing for a profile that none of
/// them gave a credential for. No profile ends with two credentials, and
/// each credential stands under its own profile.
pub proof fn lemma_completed(
    resolved: Seq<(Seq<char>, CredentialView)>,
    outcomes: Seq<DelegatedView>,
    n: int,
)
    requires
        distinct_names(resolved),
        0 <= n <= outcomes.len(),
    ensures
        distinct_names(completed_upto(resolved, outcomes, n)),
        keyed_by_profile(resolved) ==> keyed_by_profile(completed_upto(resolved, outcomes, n)),
        forall|profile: Seq<char>|
            (forall|i: int|
                0 <= i < n ==> !((#[trigger] outcomes[i]).result matches Ok(c) && c.profile
                    == profile)) ==> lookup(
                #[trigger] completed_upto(resolved, outcomes, n),
                profile,
            ) == lookup(resolved, profile),
    decreases n,
{
    if n > 0 {
        lemma_completed(resolved, outcomes, n - 1);
        let before = completed_upto(resolved, outcomes, n - 1);
        let now = completed_upto(resolved, outcomes, n);
        match outcomes[n - 1].result {
            Ok(c) => {
                lemma_upsert(before, c.profile, c);
                if keyed_by_profile(resolved) {
                    lemma_upsert_keeps_keys(before, c);
                }
            },
            Err(_) => {},
        }
        assert forall|profile: Seq<char>|
            (forall|i: int|
                0 <= i < n ==> !((#[trigger] outcomes[i]).result matches Ok(c) && c.profile
                    == profile)) implies lookup(now, profile) == lookup(resolved, profile) by {
            assert(!(outcomes[n - 1].result matches Ok(c) && c.profile == profile));
            assert(lookup(before, profile) == lookup(resolved, profile));
        }
    }
}

/// A profile with a cached credential that is not expired keeps it: where
/// the profile has no static credential and the entry is the last one for it
/// that is not expired, the plan resolves the profile to that entry, plans
/// no delegation for it, and resolution ends with that credential, field for
/// field, whatever the planned delegations give.
pub proof fn lemma_cached_credential_is_reused(
    profiles: Seq<(Seq<char>, AwsConfigView)>,
    statics: Seq<(Seq<char>, CredentialView)>,
    cache: Seq<CredentialView>,
    now: Timestamp,
    k: int,
    outcomes: Seq<DelegatedView>,
)
    requires
        distinct_names(statics),
        0 <= k < cache.len(),
        !crate::aws::credential::expired_at(cache[k].expiration, now),
        !has_name(statics, cache[k].profile),
        forall|j: int|
            k < j < cache.len() && (#[trigger] cache[j]).profile == cache[k].profile
                ==> crate::aws::credential::expired_at(cache[j].expiration, now),
        forall|i: int|
            0 <= i < outcomes.len() ==> ((#[trigger] outcomes[i]).result matches Ok(c)
                ==> exists|j: int|
                0 <= j < plan_of(profiles, statics, cache, now).pending.len() && plan_of(
                    profiles,
                    statics,
                    cache,
                    now,
                ).pending[j].config.profile == c.profile),
    ensures
        lookup(plan_of(profiles, statics, cache, now).resolved, cache[k].profile) == Some(cache[k]),
        forall|i: int|
            0 <= i < plan_of(profiles, statics, cache, now).pending.len() ==> (#[trigger] plan_of(
                profiles,
                statics,
                cache,
                now,
            ).pending[i]).config.profile != cache[k].profile,
        resolution_of(plan_of(profiles, statics, cache, now), outcomes).credentials.contains(
            cache[k],
        ),
{
    let plan = plan_of(profiles, statics, cache, now);
    let cached = loaded(cache, now);
    let profile = cache[k].profile;
    lemma_loaded(cache, now, cache.len() as int);
    lemma_last_fresh_is(cache, now, k, cache.len() as int);
    lemma_merged(statics, cached, cached.len() as int);
    lemma_index_of(cached, profile);
    assert(lookup(plan.resolved, profile) == Some(cache[k]));
    lemma_pending(profiles, plan.resolved, profiles.len() as int);
    assert forall|i: int| 0 <= i < plan.pending.len() implies (#[trigger] plan.pending[i]).config.profile
        != profile by {
        assert(is_pending(plan.pending[i].config, plan.resolved));
    }
    lemma_completed(plan.resolved, outcomes, outcomes.len() as int);
    let all = completed_upto(plan.resolved, outcomes, outcomes.len() as int);
    assert forall|i: int| 0 <= i < outcomes.len() implies !((#[trigger] outcomes[i]).result matches Ok(
        c,
    ) && c.profile == profile) by {
        match outcomes[i].result {
            Ok(c) => {
                if c.profile == profile {
                    let j = choose|j: int|
                        0 <= j < plan.pending.len() && plan.pending[j].config.profile
                            == c.profile;
                    assert(plan.pending[j].config.profile != profile);
                }
            },
            Err(_) => {},
        }
    }
    assert(lookup(all, profile) == Some(cache[k]));
    lemma_index_of(all, profile);
    let at = index_of(all, profile);
    assert(values_of(all)[at] == cache[k]);
}


/// Profile names are unique across the credentials that resolution ends
/// with, whatever the delegations gave: no two of them are for one profile.
pub proof fn lemma_resolved_profiles_are_unique(
    profiles: Seq<(Seq<char>, AwsConfigView)>,
    statics: Seq<(Seq<char>, CredentialView)>,
    cache: Seq<CredentialView>,
    now: Timestamp,
    outcomes: Seq<DelegatedView>,
)
    requires
        distinct_names(statics),
        keyed_by_profile(statics),
    ensures
        forall|i: int, j: int|
            0 <= i < j < resolution_of(
                plan_of(profiles, statics, cache, now),
                outcomes,
            ).credentials.len() ==> (#[trigger] resolution_of(
                plan_of(profiles, statics, cache, now),
                outcomes,
            ).credentials[i]).profile != (#[trigger] resolution_of(
                plan_of(profiles, statics, cache, now),
                outcomes,
            ).credentials[j]).profile,
{
    let plan = plan_of(profiles, statics, cache, now);
    let cached = loaded(cache, now);
    lemma_loaded(cache, now, cache.len() as int);
    lemma_merged(statics, cached, cached.len() as int);
    lemma_completed(plan.resolved, outcomes, outcomes.len() as int);
    let all = completed_upto(plan.resolved, outcomes, outcomes.len() as int);
    let credentials = resolution_of(plan, outcomes).credentials;
    assert forall|i: int, j: int| 0 <= i < j < credentials.len() implies (#[trigger] credentials[i]).profile
        != (#[trigger] credentials[j]).profile by {
        assert(all[i].0 == all[i].1.profile);
        assert(all[j].0 == all[j].1.profile);
        assert(all[i].0 != all[j].0);
    }
}

} // verus!
