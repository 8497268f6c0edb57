//! Credentials, the profiles they belong to, and when they stop being good.

use vstd::prelude::*;

verus! {

/// An instant: whole seconds since the Unix epoch, and the nanoseconds past
/// that second.
#[derive(Clone, Copy, Debug)]
pub struct Timestamp {
    pub secs: i64,
    pub nanos: u32,
}

/// Whether `a` comes strictly before `b`.
pub open spec fn earlier(a: Timestamp, b: Timestamp) -> bool {
    a.secs < b.secs || (a.secs == b.secs && a.nanos < b.nanos)
}

impl Timestamp {
    /// Whether `self` comes strictly before `other`.
    pub fn is_before(&self, other: &Timestamp) -> (r: bool)
        ensures
            r == earlier(*self, *other),
    {
        self.secs < other.secs || (self.secs == other.secs && self.nanos < other.nanos)
    }
}

/// The instant that `chrono` reads out of an RFC 3339 text, or `None` where
/// it refuses the text.
pub uninterp spec fn rfc3339_instant(text: Seq<char>) -> Option<Timestamp>;

/// `chrono::DateTime::parse_from_rfc3339`, the instant taken as
/// `timestamp()` and `timestamp_subsec_nanos()`. The contract only names
/// that result.
#[verifier::external_body]
fn parse_rfc3339(text: &str) -> (r: Option<Timestamp>)
    ensures
        r == rfc3339_instant(text@),
{
    chrono::DateTime::parse_from_rfc3339(text).ok().map(
        |t| Timestamp { secs: t.timestamp(), nanos: t.timestamp_subsec_nanos() },
    )
}

/// `chrono::Utc::now`, taken as `timestamp()` and
/// `timestamp_subsec_nanos()`. Nothing is claimed of a clock's reading.
#[verifier::external_body]
fn read_clock() -> Timestamp {
    let t = chrono::Utc::now();
    Timestamp { secs: t.timestamp(), nanos: t.timestamp_subsec_nanos() }
}

/// A credential for one profile. An empty `session_token` marks a static,
/// long-lived credential; an empty `expiration` one that never expires.
#[derive(Clone, Debug)]
pub struct Credential {
    pub profile: String,
    pub access_key: String,
    pub secret_key: String,
    pub session_token: String,
    pub region: String,
    pub expiration: String,
}

pub struct CredentialView {
    pub profile: Seq<char>,
    pub access_key: Seq<char>,
    pub secret_key: Seq<char>,
    pub session_token: Seq<char>,
    pub region: Seq<char>,
    pub expiration: Seq<char>,
}

impl View for Credential {
    type V = CredentialView;

    open spec fn view(&self) -> CredentialView {
        CredentialView {
            profile: self.profile@,
            access_key: self.access_key@,
            secret_key: self.secret_key@,
            session_token: self.session_token@,
            region: self.region@,
            expiration: self.expiration@,
        }
    }
}

/// Whether an expiration that reads as `instant` is past at `now`: it reads
/// as an instant, and that instant is strictly before `now`.
pub open spec fn is_past(instant: Option<Timestamp>, now: Timestamp) -> bool {
    match instant {
        Some(t) => earlier(t, now),
        None => false,
    }
}

/// Whether a credential that carries `expiration` is expired at `now`. An
/// expiration that does not read as an instant never expires.
pub open spec fn expired_at(expiration: Seq<char>, now: Timestamp) -> bool {
    is_past(rfc3339_instant(expiration), now)
}

/// Whether an expiration that reads as `instant` is past at `now`.
pub fn instant_is_past(instant: Option<Timestamp>, now: Timestamp) -> (r: bool)
    ensures
        r == is_past(instant, now),
{
    match instant {
        Some(t) => t.is_before(&now),
        None => false,
    }
}

impl Credential {
    /// A copy of this credential.
    pub fn duplicate(&self) -> (r: Credential)
        ensures
            r@ == self@,
    {
        Credential {
            profile: self.profile.clone(),
            access_key: self.access_key.clone(),
            secret_key: self.secret_key.clone(),
            session_token: self.session_token.clone(),
            region: self.region.clone(),
            expiration: self.expiration.clone(),
        }
    }

    /// Whether this credential is expired at `now`.
    pub fn is_expired_at(&self, now: Timestamp) -> (r: bool)
        ensures
            r == expired_at(self@.expiration, now),
    {
        instant_is_past(parse_rfc3339(self.expiration.as_str()), now)
    }

    /// Whether this credential is expired by the clock of this machine. One
    /// whose expiration does not read as an instant is not.
    pub fn is_expired(&self) -> (r: bool)
        ensures
            rfc3339_instant(self@.expiration) is None ==> !r,
    {
        self.is_expired_at(read_clock())
    }

    /// Whether this credential came from a delegation: it has a session
    /// token.
    pub fn is_delegated(&self) -> (r: bool)
        ensures
            r == (self@.session_token.len() > 0),
    {
        !self.session_token.as_str().is_empty()
    }
}

/// What the account configuration says of one profile. An empty `role_arn`
/// means that the profile is not delegated, an empty `source_profile` that
/// it has no source.
#[derive(Clone, Debug)]
pub struct AwsConfig {
    pub profile: String,
    pub role_arn: String,
    pub source_profile: String,
    pub region: String,
}

pub struct AwsConfigView {
    pub profile: Seq<char>,
    pub role_arn: Seq<char>,
    pub source_profile: Seq<char>,
    pub region: Seq<char>,
}

impl View for AwsConfig {
    type V = AwsConfigView;

    open spec fn view(&self) -> AwsConfigView {
        AwsConfigView {
            profile: self.profile@,
            role_arn: self.role_arn@,
            source_profile: self.source_profile@,
            region: self.region@,
        }
    }
}

impl AwsConfig {
    /// A copy of this configuration.
    pub fn duplicate(&self) -> (r: AwsConfig)
        ensures
            r@ == self@,
    {
        AwsConfig {
            profile: self.profile.clone(),
            role_arn: self.role_arn.clone(),
            source_profile: self.source_profile.clone(),
            region: self.region.clone(),
        }
    }
}

} // verus!
