//! The credential cache: which of its entries are still good when it is
//! loaded, and which credentials go into it when it is saved.

use vstd::prelude::*;
use crate::aws::credential::{expired_at, Credential, CredentialView, Timestamp};
use crate::name_map::{distinct_names, has_name, lemma_index_of, lemma_upsert, lookup, upsert, NameMap};

verus! {

/// Credentials as their views.
pub open spec fn credentials_view(credentials: Seq<Credential>) -> Seq<CredentialView> {
    credentials.map_values(|c: Credential| c@)
}

/// What loading keeps of the first `n` entries of a cache at `now`: the
/// entries that are not expired, by profile. Where two of them are for one
/// profile, the later one stands.
pub open spec fn loaded_upto(entries: Seq<CredentialView>, now: Timestamp, n: int) -> Seq<
    (Seq<char>, CredentialView),
>
    decreases n,
{
    if n <= 0 {
        Seq::empty()
    } else {
        let before = loaded_upto(entries, now, n - 1);
        if expired_at(entries[n - 1].expiration, now) {
            before
        } else {
            upsert(before, entries[n - 1].profile, entries[n - 1])
        }
    }
}

/// What loading keeps of a cache at `now`.
pub open spec fn loaded(entries: Seq<CredentialView>, now: Timestamp) -> Seq<
    (Seq<char>, CredentialView),
> {
    loaded_upto(entries, now, entries.len() as int)
}

/// The delegated credentials among the first `n` of `credentials`: those
/// with a session token, in their order.
pub open spec fn persisted_upto(credentials: Seq<(Seq<char>, CredentialView)>, n: int) -> Seq<
    CredentialView,
>
    decreases n,
{
    if n <= 0 {
        Seq::empty()
    } else {
        let before = persisted_upto(credentials, n - 1);
        if credentials[n - 1].1.session_token.len() > 0 {
            before.push(credentials[n - 1].1)
        } else {
            before
        }
    }
}

/// What saving writes for a set of credentials: the delegated ones.
pub open spec fn persisted(credentials: Seq<(Seq<char>, CredentialView)>) -> Seq<CredentialView> {
    persisted_upto(credentials, credentials.len() as int)
}

/// Loads a cache at `now`: every expired entry is dropped, the rest is
/// keyed by profile.
pub fn load(entries: &Vec<Credential>, now: Timestamp) -> (r: NameMap<Credential>)
    ensures
        r@ == loaded(credentials_view(entries@), now),
{
    let ghost views = credentials_view(entries@);
    let mut kept: NameMap<Credential> = NameMap::new();
    let mut i: usize = 0;
    while i < entries.len()
        invariant
            i <= entries.len(),
            views == credentials_view(entries@),
            kept@ == loaded_upto(views, now, i as int),
        decreases entries.len() - i,
    {
        assert(views[i as int] == entries@[i as int]@);
        if !entries[i].is_expired_at(now) {
            kept.insert(entries[i].profile.clone(), entries[i].duplicate());
        }
        i += 1;
    }
    kept
}

/// The entries to save for a set of credentials: only those with a session
/// token.
pub fn save(credentials: &NameMap<Credential>) -> (r: Vec<Credential>)
    ensures
        credentials_view(r@) == persisted(credentials@),
{
    let mut entries: Vec<Credential> = Vec::new();
    let n: usize = credentials.len();
    let mut i: usize = 0;
    while i < n
        invariant
            i <= n,
            n == credentials@.len(),
            credentials_view(entries@) == persisted_upto(credentials@, i as int),
        decreases n - i,
    {
        let c = credentials.value_at(i);
        if c.is_delegated() {
            let ghost before = entries@;
            entries.push(c.duplicate());
            assert(credentials_view(entries@) == credentials_view(before).push(c@));
        }
        i += 1;
    }
    entries
}


/// Whether every credential of `credentials` stands under its own profile.
pub open spec fn keyed_by_profile(credentials: Seq<(Seq<char>, CredentialView)>) -> bool {
    forall|i: int| 0 <= i < credentials.len() ==> (#[trigger] credentials[i]).0 == credentials[i].1.profile
}

/// The last of the first `n` entries that is for `profile` and not expired
/// at `now`.
pub open spec fn last_fresh(
    entries: Seq<CredentialView>,
    now: Timestamp,
    profile: Seq<char>,
    n: int,
) -> Option<CredentialView>
    decreases n,
{
    if n <= 0 {
        None
    } else if entries[n - 1].profile == profile && !expired_at(entries[n - 1].expiration, now) {
        Some(entries[n - 1])
    } else {
        last_fresh(entries, now, profile, n - 1)
    }
}

/// Binding a credential under its own profile keeps every credential under
/// its own profile.
pub proof fn lemma_upsert_keeps_keys(
    credentials: Seq<(Seq<char>, CredentialView)>,
    c: CredentialView,
)
    requires
        keyed_by_profile(credentials),
    ensures
        keyed_by_profile(upsert(credentials, c.profile, c)),
{
    let u = upsert(credentials, c.profile, c);
    lemma_index_of(credentials, c.profile);
    assert forall|i: int| 0 <= i < u.len() implies (#[trigger] u[i]).0 == u[i].1.profile by {
        if i < credentials.len() && i != crate::name_map::index_of(credentials, c.profile) {
            assert(u[i] == credentials[i]);
        }
    }
}

/// What loading keeps has one credential for a profile at most, each under
/// its own profile, and for every profile the last entry of the cache that
/// is for it and not expired.
pub proof fn lemma_loaded(entries: Seq<CredentialView>, now: Timestamp, n: int)
    requires
        0 <= n <= entries.len(),
    ensures
        distinct_names(loaded_upto(entries, now, n)),
        keyed_by_profile(loaded_upto(entries, now, n)),
        forall|profile: Seq<char>|
            lookup(loaded_upto(entries, now, n), profile) == last_fresh(entries, now, profile, n),
    decreases n,
{
    if n > 0 {
        lemma_loaded(entries, now, n - 1);
        let before = loaded_upto(entries, now, n - 1);
        let e = entries[n - 1];
        if !expired_at(e.expiration, now) {
            lemma_upsert(before, e.profile, e);
            lemma_upsert_keeps_keys(before, e);
        }
        assert forall|profile: Seq<char>|
            lookup(loaded_upto(entries, now, n), profile) == last_fresh(
                entries,
                now,
                profile,
                n,
            ) by {
            assert(lookup(before, profile) == last_fresh(entries, now, profile, n - 1));
        }
    } else {
        assert forall|profile: Seq<char>|
            lookup(loaded_upto(entries, now, n), profile) == last_fresh(
                entries,
                now,
                profile,
                n,
            ) by {
            lemma_index_of(loaded_upto(entries, now, n), profile);
        }
    }
}

/// The last fresh entry for a profile is an entry of the cache for that
/// profile, and is not expired.
pub proof fn lemma_last_fresh(entries: Seq<CredentialView>, now: Timestamp, profile: Seq<char>, n: int)
    requires
        0 <= n <= entries.len(),
    ensures
        last_fresh(entries, now, profile, n) matches Some(c) ==> {
            &&& c.profile == profile
            &&& !expired_at(c.expiration, now)
            &&& exists|k: int| 0 <= k < n && entries[k] == c
        },
    decreases n,
{
    if n > 0 {
        if entries[n - 1].profile == profile && !expired_at(entries[n - 1].expiration, now) {
            assert(entries[n - 1] == last_fresh(entries, now, profile, n)->0);
        } else {
            lemma_last_fresh(entries, now, profile, n - 1);
            if last_fresh(entries, now, profile, n) is Some {
                let c = last_fresh(entries, now, profile, n)->0;
                let k = choose|k: int| 0 <= k < n - 1 && entries[k] == c;
                assert(0 <= k < n && entries[k] == c);
            }
        }
    }
}

/// A cached credential whose expiration reads as an instant before the time
/// of loading is not reused: what loading keeps for a profile is an entry of
/// the cache for that profile that is not expired at that time.
pub proof fn lemma_expired_entries_are_dropped(
    entries: Seq<CredentialView>,
    now: Timestamp,
    profile: Seq<char>,
)
    ensures
        lookup(loaded(entries, now), profile) matches Some(c) ==> {
            &&& c.profile == profile
            &&& !expired_at(c.expiration, now)
            &&& entries.contains(c)
        },
{
    lemma_loaded(entries, now, entries.len() as int);
    lemma_last_fresh(entries, now, profile, entries.len() as int);
}

/// The entry at `k` is the last fresh one for its profile when it is not
/// expired and every later entry for its profile is.
pub proof fn lemma_last_fresh_is(entries: Seq<CredentialView>, now: Timestamp, k: int, n: int)
    requires
        0 <= k < n <= entries.len(),
        !expired_at(entries[k].expiration, now),
        forall|j: int|
            k < j < n && (#[trigger] entries[j]).profile == entries[k].profile ==> expired_at(
                entries[j].expiration,
                now,
            ),
    ensures
        last_fresh(entries, now, entries[k].profile, n) == Some(entries[k]),
    decreases n,
{
    if n - 1 > k {
        let _ = entries[n - 1];
        lemma_last_fresh_is(entries, now, k, n - 1);
    }
}

/// Where an entry for a profile is not expired, there is a last such entry.
pub proof fn lemma_some_fresh(entries: Seq<CredentialView>, now: Timestamp, k: int, n: int)
    requires
        0 <= k < n <= entries.len(),
        !expired_at(entries[k].expiration, now),
    ensures
        last_fresh(entries, now, entries[k].profile, n) is Some,
    decreases n,
{
    if n - 1 > k {
        lemma_some_fresh(entries, now, k, n - 1);
    }
}

/// What saving writes: every credential of the set that has a session
/// token, and nothing else, each once.
pub proof fn lemma_persisted(credentials: Seq<(Seq<char>, CredentialView)>, n: int)
    requires
        0 <= n <= credentials.len(),
    ensures
        forall|i: int|
            0 <= i < persisted_upto(credentials, n).len() ==> exists|k: int|
                0 <= k < n && (#[trigger] persisted_upto(credentials, n)[i]) == credentials[k].1
                    && credentials[k].1.session_token.len() > 0,
        forall|k: int|
            0 <= k < n && (#[trigger] credentials[k]).1.session_token.len() > 0 ==> persisted_upto(
                credentials,
                n,
            ).contains(credentials[k].1),
    decreases n,
{
    if n > 0 {
        lemma_persisted(credentials, n - 1);
        let before = persisted_upto(credentials, n - 1);
        let now = persisted_upto(credentials, n);
        assert forall|i: int| 0 <= i < now.len() implies exists|k: int|
            0 <= k < n && (#[trigger] now[i]) == credentials[k].1
                && credentials[k].1.session_token.len() > 0 by {
            if i < before.len() {
                assert(now[i] == before[i]);
                let k = choose|k: int|
                    0 <= k < n - 1 && before[i] == credentials[k].1
                        && credentials[k].1.session_token.len() > 0;
                assert(0 <= k < n && now[i] == credentials[k].1);
            } else {
                assert(now[i] == credentials[n - 1].1);
            }
        }
        assert forall|k: int|
            0 <= k < n && (#[trigger] credentials[k]).1.session_token.len() > 0 implies now.contains(
            credentials[k].1,
        ) by {
            if k < n - 1 {
                assert(before.contains(credentials[k].1));
                let i = choose|i: int| 0 <= i < before.len() && before[i] == credentials[k].1;
                assert(now[i] == credentials[k].1);
            } else {
                assert(now[now.len() - 1] == credentials[k].1);
            }
        }
    }
}

/// Round trip through the cache: a delegated credential of a set of
/// resolved credentials, saved and loaded again at a time at which it is
/// not expired, comes back field for field.
pub proof fn lemma_cache_round_trip(
    credentials: Seq<(Seq<char>, CredentialView)>,
    c: CredentialView,
    later: Timestamp,
)
    requires
        distinct_names(credentials),
        keyed_by_profile(credentials),
        lookup(credentials, c.profile) == Some(c),
        c.session_token.len() > 0,
        !expired_at(c.expiration, later),
    ensures
        lookup(loaded(persisted(credentials), later), c.profile) == Some(c),
{
    let saved = persisted(credentials);
    let n = credentials.len() as int;
    lemma_persisted(credentials, n);
    lemma_index_of(credentials, c.profile);
    let at = crate::name_map::index_of(credentials, c.profile);
    assert(credentials[at].1 == c);
    assert(saved.contains(c));
    let k = choose|k: int| 0 <= k < saved.len() && saved[k] == c;
    lemma_some_fresh(saved, later, k, saved.len() as int);
    lemma_last_fresh(saved, later, c.profile, saved.len() as int);
    let back = last_fresh(saved, later, c.profile, saved.len() as int)->0;
    let j = choose|j: int| 0 <= j < saved.len() && saved[j] == back;
    let m = choose|m: int| 0 <= m < n && saved[j] == credentials[m].1;
    assert(credentials[m].0 == credentials[m].1.profile);
    assert(credentials[at].0 == c.profile);
    if m != at {
        assert(credentials[m].0 != credentials[at].0);
    }
    lemma_loaded(saved, later, saved.len() as int);
}

} // verus!
