//! Delegation: the request that exchanges a source credential for a
//! short-lived credential of another profile's role, and the reading of its
//! answer.

use vstd::prelude::*;
use vstd::string::StringExecFns;
use crate::aws::credential::{AwsConfig, AwsConfigView, Credential, CredentialView};
use crate::aws::error::{Action, AwsError, AwsErrorView, Field};
use crate::aws::sign::{aws_sign, signature, SignedRequest};
use crate::text::owned;
use crate::xml::{first_tag, text_of_node, xml_nodes, XmlDocument, XmlNodeView};

verus! {

/// What came back for a request: the service's answer, or the reason why
/// there is none.
#[derive(Clone, Debug)]
pub enum Reply {
    Response { status: i32, reason: String, body: String },
    Failed { message: String },
}

pub enum ReplyView {
    Response { status: i32, reason: Seq<char>, body: Seq<char> },
    Failed { message: Seq<char> },
}

impl View for Reply {
    type V = ReplyView;

    open spec fn view(&self) -> ReplyView {
        match self {
            Reply::Response { status, reason, body } => ReplyView::Response {
                status: *status,
                reason: reason@,
                body: body@,
            },
            Reply::Failed { message } => ReplyView::Failed { message: message@ },
        }
    }
}

/// Whether `status` reports success.
pub open spec fn is_success(status: i32) -> bool {
    200 <= status <= 299
}

/// The name under which delegation requests are signed.
pub open spec fn sts_service() -> Seq<char> {
    "sts"@
}

/// The address of the delegation request for `config`: the identity
/// service of the profile's region, asked for the profile's role under a
/// session named after the profile, for one hour.
pub open spec fn assume_role_address(config: AwsConfigView) -> Seq<char> {
    "https://sts."@ + config.region
        + ".amazonaws.com/?Version=2011-06-15&Action=AssumeRole&RoleSessionName="@ + config.profile
        + "&RoleArn="@ + config.role_arn + "&DurationSeconds=3600"@
}

/// The address of the delegation request for `config`.
pub fn assume_role_url(config: &AwsConfig) -> (r: String)
    ensures
        r@ == assume_role_address(config@),
{
    owned("https://sts.").concat(config.region.as_str()).concat(
        ".amazonaws.com/?Version=2011-06-15&Action=AssumeRole&RoleSessionName=",
    ).concat(config.profile.as_str()).concat("&RoleArn=").concat(config.role_arn.as_str()).concat(
        "&DurationSeconds=3600",
    )
}

/// The delegation request for `config`, signed with the credential of its
/// source profile and dated `time` seconds after the Unix epoch. Where it
/// cannot be signed, the failure is that of the profile to resolve.
pub fn assume_role_request(config: &AwsConfig, source: &Credential, time: i64) -> (r: Result<
    SignedRequest,
    AwsError,
>)
    ensures
        match r {
            Ok(request) => {
                &&& request@.url == assume_role_address(config@)
                &&& signature(assume_role_address(config@), sts_service(), source@, time) == Some(
                    request@.headers,
                )
            },
            Err(e) => {
                &&& e@ == AwsErrorView::Signing { profile: config@.profile }
                &&& signature(assume_role_address(config@), sts_service(), source@, time) is None
            },
        },
{
    let url = assume_role_url(config);
    match aws_sign(url.as_str(), "sts", source, time) {
        Ok(request) => Ok(request),
        Err(_) => Err(AwsError::Signing { profile: config.profile.clone() }),
    }
}

/// The tag under which a delegation response carries `field`.
pub open spec fn field_tag(field: Field) -> Seq<char> {
    match field {
        Field::AccessKey => "AccessKeyId"@,
        Field::Secret => "SecretAccessKey"@,
        Field::Token => "SessionToken"@,
        Field::Expiration => "Expiration"@,
    }
}

/// The text of the first element tagged `tag`, anywhere in the document.
pub open spec fn tagged_text(nodes: Seq<XmlNodeView>, tag: Seq<char>) -> Option<Seq<char>> {
    text_of_node(nodes, first_tag(nodes, tag))
}

/// The credential that a delegation response gives the profile of `config`.
/// All four fields are required: the first that is missing, in the order
/// access key, secret, token, expiration, is the failure.
pub open spec fn delegated_credential(config: AwsConfigView, nodes: Seq<XmlNodeView>) -> Result<
    CredentialView,
    AwsErrorView,
> {
    let access_key = tagged_text(nodes, field_tag(Field::AccessKey));
    let secret_key = tagged_text(nodes, field_tag(Field::Secret));
    let token = tagged_text(nodes, field_tag(Field::Token));
    let expiration = tagged_text(nodes, field_tag(Field::Expiration));
    if access_key is None {
        Err(AwsErrorView::Parse { profile: config.profile, field: Some(Field::AccessKey) })
    } else if secret_key is None {
        Err(AwsErrorView::Parse { profile: config.profile, field: Some(Field::Secret) })
    } else if token is None {
        Err(AwsErrorView::Parse { profile: config.profile, field: Some(Field::Token) })
    } else if expiration is None {
        Err(AwsErrorView::Parse { profile: config.profile, field: Some(Field::Expiration) })
    } else {
        Ok(
            CredentialView {
                profile: config.profile,
                access_key: access_key->0,
                secret_key: secret_key->0,
                session_token: token->0,
                region: config.region,
                expiration: expiration->0,
            },
        )
    }
}

/// What a reply to the delegation request for `config` amounts to.
pub open spec fn delegation_result(config: AwsConfigView, reply: ReplyView) -> Result<
    CredentialView,
    AwsErrorView,
> {
    match reply {
        ReplyView::Failed { message } => Err(
            AwsErrorView::Transport { profile: config.profile, message },
        ),
        ReplyView::Response { status, reason, body } => if !is_success(status) {
            Err(
                AwsErrorView::Api {
                    action: Action::AssumeRole,
                    status,
                    reason,
                    profile: config.profile,
                },
            )
        } else {
            match xml_nodes(body) {
                Some(nodes) => delegated_credential(config, nodes),
                None => Err(AwsErrorView::Parse { profile: config.profile, field: None }),
            }
        },
    }
}

/// Views of the outcome of a delegation.
pub open spec fn credential_result(r: Result<Credential, AwsError>) -> Result<
    CredentialView,
    AwsErrorView,
> {
    match r {
        Ok(c) => Ok(c@),
        Err(e) => Err(e@),
    }
}

/// The text of the first element tagged `tag`, anywhere in `document`.
pub fn text_of_tag<'a>(document: &'a XmlDocument, tag: &str) -> (r: Option<&'a String>)
    ensures
        match r {
            Some(t) => tagged_text(document@, tag@) == Some(t@),
            None => tagged_text(document@, tag@) is None,
        },
{
    document.text(document.find_tag(tag))
}

/// The credential that the delegation response `document` gives the profile
/// of `config`.
pub fn credential_from_document(config: &AwsConfig, document: &XmlDocument) -> (r: Result<
    Credential,
    AwsError,
>)
    ensures
        credential_result(r) == delegated_credential(config@, document@),
{
    let access_key = match text_of_tag(document, "AccessKeyId") {
        Some(t) => t.clone(),
        None => {
            return Err(
                AwsError::Parse { profile: config.profile.clone(), field: Some(Field::AccessKey) },
            );
        },
    };
    let secret_key = match text_of_tag(document, "SecretAccessKey") {
        Some(t) => t.clone(),
        None => {
            return Err(
                AwsError::Parse { profile: config.profile.clone(), field: Some(Field::Secret) },
            );
        },
    };
    let session_token = match text_of_tag(document, "SessionToken") {
        Some(t) => t.clone(),
        None => {
            return Err(
                AwsError::Parse { profile: config.profile.clone(), field: Some(Field::Token) },
            );
        },
    };
    let expiration = match text_of_tag(document, "Expiration") {
        Some(t) => t.clone(),
        None => {
            return Err(
                AwsError::Parse { profile: config.profile.clone(), field: Some(Field::Expiration) },
            );
        },
    };
    Ok(
        Credential {
            profile: config.profile.clone(),
            access_key,
            secret_key,
            session_token,
            region: config.region.clone(),
            expiration,
        },
    )
}

/// Reads the reply to the delegation request for `config`: a credential for
/// the profile, or the failure of that profile.
pub fn get_sts_creds(config: &AwsConfig, reply: &Reply) -> (r: Result<Credential, AwsError>)
    ensures
        credential_result(r) == delegation_result(config@, reply@),
{
    match reply {
        Reply::Failed { message } => Err(
            AwsError::Transport { profile: config.profile.clone(), message: message.clone() },
        ),
        Reply::Response { status, reason, body } => {
            if *status < 200 || *status > 299 {
                return Err(
                    AwsError::Api {
                        action: Action::AssumeRole,
                        status: *status,
                        reason: reason.clone(),
                        profile: config.profile.clone(),
                    },
                );
            }
            match XmlDocument::parse(body.as_str()) {
                Some(document) => credential_from_document(config, &document),
                None => Err(AwsError::Parse { profile: config.profile.clone(), field: None }),
            }
        },
    }
}

} // verus!
