//! Request signing: the headers that authenticate a GET request to a
//! service, computed from a credential, the service's name and an instant.

use vstd::prelude::*;
use aws_sigv4::http_request::{sign, SignableRequest, SigningParams, SigningSettings};
use crate::aws::credential::{Credential, CredentialView};
use crate::aws::error::{AwsError, AwsErrorView};
use crate::name_map::{lookup, pairs_view};
use crate::text::{chars_of, has_prefix, owned, starts_with_at};

verus! {

/// A GET request with the headers that authenticate it.
#[derive(Clone, Debug)]
pub struct SignedRequest {
    pub url: String,
    pub headers: Vec<(String, String)>,
}

pub struct SignedRequestView {
    pub url: Seq<char>,
    pub headers: Seq<(Seq<char>, Seq<char>)>,
}

impl View for SignedRequest {
    type V = SignedRequestView;

    open spec fn view(&self) -> SignedRequestView {
        SignedRequestView { url: self.url@, headers: pairs_view(self.headers@) }
    }
}

/// The last second that a signature can be dated with: the end of the year
/// 9999.
pub const LAST_SIGNING_SECOND: i64 = 253402300799;

/// The header that carries a session token.
pub open spec fn token_header() -> Seq<char> {
    "x-amz-security-token"@
}

/// Whether every character of `s` is a printable ASCII character.
pub open spec fn is_plain(s: Seq<char>) -> bool {
    forall|i: int| 0 <= i < s.len() ==> 0x20 <= (#[trigger] s[i]) as u32 <= 0x7e
}

/// Whether `url` begins with the scheme of the web, plain or secure, so
/// that what follows names a host.
pub open spec fn names_host(url: Seq<char>) -> bool {
    has_prefix(url, "https://"@) || has_prefix(url, "http://"@)
}

/// The session token as the signer takes it: none when it is empty.
pub open spec fn token_of(session_token: Seq<char>) -> Option<Seq<char>> {
    if session_token.len() == 0 {
        None
    } else {
        Some(session_token)
    }
}

/// The headers that `aws-sigv4` adds to a GET request for `url` without
/// headers and with an empty body, under its default settings, or `None`
/// where the URL cannot be read or the signer reports an error.
pub uninterp spec fn sigv4_headers(
    url: Seq<char>,
    service_name: Seq<char>,
    access_key: Seq<char>,
    secret_key: Seq<char>,
    token: Option<Seq<char>>,
    region: Seq<char>,
    time: i64,
) -> Option<Seq<(Seq<char>, Seq<char>)>>;

/// `aws_sigv4::http_request::sign` on a GET request that `http` builds from
/// `url`, applied to that request, whose headers are then copied out. The
/// signer panics on a URL without scheme or host, on control characters in
/// the access key, region or service name, and on an instant after the year
/// 9999: the contract leaves these out. It names the result, and states of
/// it what the signer's source shows of the session token: the header
/// `x-amz-security-token` carries the token when one is given and is absent
/// when none is.
#[verifier::external_body]
fn sigv4_sign(
    url: &str,
    service_name: &str,
    access_key: &str,
    secret_key: &str,
    token: Option<&str>,
    region: &str,
    time: i64,
) -> (r: Option<Vec<(String, String)>>)
    requires
        names_host(url@),
        is_plain(service_name@),
        is_plain(access_key@),
        is_plain(region@),
        0 <= time <= LAST_SIGNING_SECOND,
    ensures
        match r {
            Some(h) => sigv4_headers(
                url@,
                service_name@,
                access_key@,
                secret_key@,
                match token {
                    Some(t) => Some(t@),
                    None => None,
                },
                region@,
                time,
            ) == Some(pairs_view(h@)),
            None => sigv4_headers(
                url@,
                service_name@,
                access_key@,
                secret_key@,
                match token {
                    Some(t) => Some(t@),
                    None => None,
                },
                region@,
                time,
            ) is None,
        },
        r matches Some(h) ==> lookup(pairs_view(h@), token_header()) == match token {
            Some(t) => Some(t@),
            None => None,
        },
{
    let mut request = http::Request::get(url).body("").ok()?;
    let mut builder = SigningParams::builder()
        .access_key(access_key)
        .secret_key(secret_key)
        .region(region)
        .service_name(service_name)
        .time(chrono::DateTime::from_timestamp(time, 0)?.into())
        .settings(SigningSettings::default());
    builder.set_security_token(token);
    let params = builder.build().ok()?;
    sign(SignableRequest::from(&request), &params).ok()?.into_parts().0.apply_to_request(&mut request);
    request.headers().iter().map(|(k, v)| Some((k.to_string(), v.to_str().ok()?.into()))).collect()
}

/// Whether every character of `s` is a printable ASCII character.
pub fn plain(s: &str) -> (r: bool)
    ensures
        r == is_plain(s@),
{
    let v = chars_of(s);
    let mut i: usize = 0;
    while i < v.len()
        invariant
            i <= v.len(),
            v@ == s@,
            forall|j: int| 0 <= j < i ==> 0x20 <= (#[trigger] s@[j]) as u32 <= 0x7e,
        decreases v.len() - i,
    {
        let c: u32 = v[i] as u32;
        if c < 0x20 || c > 0x7e {
            return false;
        }
        i += 1;
    }
    true
}

/// Whether `url` names a host.
pub fn url_names_host(url: &str) -> (r: bool)
    ensures
        r == names_host(url@),
{
    let v = chars_of(url);
    assert(v@.subrange(0, v.len() as int) == v@);
    let secure = chars_of("https://");
    let plain = chars_of("http://");
    starts_with_at(&v, 0, v.len(), &secure) || starts_with_at(&v, 0, v.len(), &plain)
}

/// Whether the signer can be asked to sign: the URL begins with `https://`
/// or `http://`, the access key, region and service name are printable
/// ASCII, and the instant is within the years 1970 to 9999.
pub open spec fn can_sign(
    url: Seq<char>,
    service_name: Seq<char>,
    credential: CredentialView,
    time: i64,
) -> bool {
    &&& names_host(url)
    &&& is_plain(service_name)
    &&& is_plain(credential.access_key)
    &&& is_plain(credential.region)
    &&& 0 <= time <= LAST_SIGNING_SECOND
}

/// The headers that sign a GET request for `url` with `credential`: the
/// session token is handed to the signer only when it is not empty.
pub open spec fn signature(
    url: Seq<char>,
    service_name: Seq<char>,
    credential: CredentialView,
    time: i64,
) -> Option<Seq<(Seq<char>, Seq<char>)>> {
    if can_sign(url, service_name, credential, time) {
        sigv4_headers(
            url,
            service_name,
            credential.access_key,
            credential.secret_key,
            token_of(credential.session_token),
            credential.region,
            time,
        )
    } else {
        None
    }
}

/// Signs a GET request for `url` to the service `service_name` with
/// `credential`, dated `time` seconds after the Unix epoch. The request
/// carries a session-token header exactly when the credential has a session
/// token, and then that token.
pub fn aws_sign(url: &str, service_name: &str, credential: &Credential, time: i64) -> (r: Result<
    SignedRequest,
    AwsError,
>)
    ensures
        match r {
            Ok(request) => {
                &&& request@.url == url@
                &&& signature(url@, service_name@, credential@, time) == Some(request@.headers)
                &&& lookup(request@.headers, token_header()) == token_of(
                    credential@.session_token,
                )
            },
            Err(e) => {
                &&& e@ == AwsErrorView::Signing { profile: credential@.profile }
                &&& signature(url@, service_name@, credential@, time) is None
            },
        },
{
    let ready = url_names_host(url) && plain(service_name) && plain(credential.access_key.as_str())
        && plain(credential.region.as_str()) && 0 <= time && time <= LAST_SIGNING_SECOND;
    if !ready {
        return Err(AwsError::Signing { profile: credential.profile.clone() });
    }
    let token: Option<&str> = if credential.session_token.as_str().is_empty() {
        None
    } else {
        Some(credential.session_token.as_str())
    };
    match sigv4_sign(
        url,
        service_name,
        credential.access_key.as_str(),
        credential.secret_key.as_str(),
        token,
        credential.region.as_str(),
        time,
    ) {
        Some(headers) => Ok(SignedRequest { url: owned(url), headers }),
        None => Err(AwsError::Signing { profile: credential.profile.clone() }),
    }
}

} // verus!
