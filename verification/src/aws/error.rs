//! What can go wrong while credentials are resolved and instances are
//! discovered.

use vstd::prelude::*;
use vstd::string::StringExecFns;
use crate::text::{owned, signed_decimal, signed_decimal_text};

verus! {

/// The two external stores that resolution reads.
#[derive(Clone, Copy, Debug, PartialEq, Eq, Structural)]
pub enum Store {
    /// The account configuration: profiles with region, role and source.
    Config,
    /// The secrets: profiles with an access key and a secret key.
    Secrets,
}

/// The two requests that this crate prepares.
#[derive(Clone, Copy, Debug, PartialEq, Eq, Structural)]
pub enum Action {
    AssumeRole,
    DescribeInstances,
}

/// The four fields that a delegation response must carry.
#[derive(Clone, Copy, Debug, PartialEq, Eq, Structural)]
pub enum Field {
    AccessKey,
    Secret,
    Token,
    Expiration,
}

/// Why a profile was left without a credential before any request was
/// made for it.
#[derive(Clone, Copy, Debug, PartialEq, Eq, Structural)]
pub enum Reason {
    /// The profile has neither static secrets nor a source profile.
    MissingSecret,
    /// The profile's source profile had no credential when the delegations
    /// were planned.
    UnresolvedDependency,
}

#[derive(Clone, Debug)]
pub enum AwsError {
    /// A store cannot be read as sections of keys and values, or holds
    /// properties outside any section where profiles are expected.
    Config { store: Store },
    /// No credential could be had for `profile`.
    Resolution { profile: String, cause: Reason },
    /// A request for `profile` could not be signed.
    Signing { profile: String },
    /// The service answered 401 to the discovery for `profile`: the cache is
    /// to be purged and the run repeated.
    Auth { profile: String },
    /// The service answered with a status outside 200 to 299.
    Api { action: Action, status: i32, reason: String, profile: String },
    /// The response for `profile` is not XML (`field` is `None`), or it
    /// lacks a required field.
    Parse { profile: String, field: Option<Field> },
    /// The request for `profile` got no answer.
    Transport { profile: String, message: String },
    /// There is no credential at all to work with.
    NoCredentials,
}

pub enum AwsErrorView {
    Config { store: Store },
    Resolution { profile: Seq<char>, cause: Reason },
    Signing { profile: Seq<char> },
    Auth { profile: Seq<char> },
    Api { action: Action, status: i32, reason: Seq<char>, profile: Seq<char> },
    Parse { profile: Seq<char>, field: Option<Field> },
    Transport { profile: Seq<char>, message: Seq<char> },
    NoCredentials,
}

impl View for AwsError {
    type V = AwsErrorView;

    open spec fn view(&self) -> AwsErrorView {
        match self {
            AwsError::Config { store } => AwsErrorView::Config { store: *store },
            AwsError::Resolution { profile, cause } => AwsErrorView::Resolution {
                profile: profile@,
                cause: *cause,
            },
            AwsError::Signing { profile } => AwsErrorView::Signing { profile: profile@ },
            AwsError::Auth { profile } => AwsErrorView::Auth { profile: profile@ },
            AwsError::Api { action, status, reason, profile } => AwsErrorView::Api {
                action: *action,
                status: *status,
                reason: reason@,
                profile: profile@,
            },
            AwsError::Parse { profile, field } => AwsErrorView::Parse {
                profile: profile@,
                field: *field,
            },
            AwsError::Transport { profile, message } => AwsErrorView::Transport {
                profile: profile@,
                message: message@,
            },
            AwsError::NoCredentials => AwsErrorView::NoCredentials,
        }
    }
}

/// The profile that an error is about, if it is about one.
pub open spec fn error_profile(e: AwsErrorView) -> Option<Seq<char>> {
    match e {
        AwsErrorView::Config { .. } => None,
        AwsErrorView::Resolution { profile, .. } => Some(profile),
        AwsErrorView::Signing { profile } => Some(profile),
        AwsErrorView::Auth { profile } => Some(profile),
        AwsErrorView::Api { profile, .. } => Some(profile),
        AwsErrorView::Parse { profile, .. } => Some(profile),
        AwsErrorView::Transport { profile, .. } => Some(profile),
        AwsErrorView::NoCredentials => None,
    }
}

/// What an error says to the user.
pub open spec fn error_message(e: AwsErrorView) -> Seq<char> {
    match e {
        AwsErrorView::Config { store } => match store {
            Store::Config => "Can't load aws config"@,
            Store::Secrets => "Can't load aws credentials"@,
        },
        AwsErrorView::Resolution { profile, cause } => match cause {
            Reason::MissingSecret => "No credentials for "@ + profile,
            Reason::UnresolvedDependency => "No credentials for the source profile of "@
                + profile,
        },
        AwsErrorView::Signing { profile } => "Can't sign the request for "@ + profile,
        AwsErrorView::Auth { profile } => "Authorization failed for profile "@ + profile
            + ". Credential cache cleared. Please retry"@,
        AwsErrorView::Api { action, status, reason, profile } => (match action {
            Action::AssumeRole => "Error assuming role for "@,
            Action::DescribeInstances => "Error getting instances for "@,
        }) + profile + ", "@ + signed_decimal(status as int) + ", "@ + reason,
        AwsErrorView::Parse { profile, field } => (match field {
            Some(Field::AccessKey) => "can't get access_key for "@,
            Some(Field::Secret) => "can't get secret for "@,
            Some(Field::Token) => "can't get token for "@,
            Some(Field::Expiration) => "can't get expiration for "@,
            None => "can't read the response for "@,
        }) + profile,
        AwsErrorView::Transport { profile, message } => "No answer for "@ + profile + ": "@
            + message,
        AwsErrorView::NoCredentials => "No credentials found"@,
    }
}

impl AwsError {
    /// What this error says to the user.
    pub fn message(&self) -> (r: String)
        ensures
            r@ == error_message(self@),
    {
        match self {
            AwsError::Config { store } => match store {
                Store::Config => owned("Can't load aws config"),
                Store::Secrets => owned("Can't load aws credentials"),
            },
            AwsError::Resolution { profile, cause } => match cause {
                Reason::MissingSecret => owned("No credentials for ").concat(profile.as_str()),
                Reason::UnresolvedDependency => owned(
                    "No credentials for the source profile of ",
                ).concat(profile.as_str()),
            },
            AwsError::Signing { profile } => owned("Can't sign the request for ").concat(
                profile.as_str(),
            ),
            AwsError::Auth { profile } => owned("Authorization failed for profile ").concat(
                profile.as_str(),
            ).concat(". Credential cache cleared. Please retry"),
            AwsError::Api { action, status, reason, profile } => {
                let start = match action {
                    Action::AssumeRole => "Error assuming role for ",
                    Action::DescribeInstances => "Error getting instances for ",
                };
                owned(start).concat(profile.as_str()).concat(", ").concat(
                    signed_decimal_text(*status).as_str(),
                ).concat(", ").concat(reason.as_str())
            },
            AwsError::Parse { profile, field } => {
                let start = match field {
                    Some(Field::AccessKey) => "can't get access_key for ",
                    Some(Field::Secret) => "can't get secret for ",
                    Some(Field::Token) => "can't get token for ",
                    Some(Field::Expiration) => "can't get expiration for ",
                    None => "can't read the response for ",
                };
                owned(start).concat(profile.as_str())
            },
            AwsError::Transport { profile, message } => owned("No answer for ").concat(
                profile.as_str(),
            ).concat(": ").concat(message.as_str()),
            AwsError::NoCredentials => owned("No credentials found"),
        }
    }

    /// A copy of this error.
    pub fn duplicate(&self) -> (r: AwsError)
        ensures
            r@ == self@,
    {
        match self {
            AwsError::Config { store } => AwsError::Config { store: *store },
            AwsError::Resolution { profile, cause } => AwsError::Resolution {
                profile: profile.clone(),
                cause: *cause,
            },
            AwsError::Signing { profile } => AwsError::Signing { profile: profile.clone() },
            AwsError::Auth { profile } => AwsError::Auth { profile: profile.clone() },
            AwsError::Api { action, status, reason, profile } => AwsError::Api {
                action: *action,
                status: *status,
                reason: reason.clone(),
                profile: profile.clone(),
            },
            AwsError::Parse { profile, field } => AwsError::Parse {
                profile: profile.clone(),
                field: *field,
            },
            AwsError::Transport { profile, message } => AwsError::Transport {
                profile: profile.clone(),
                message: message.clone(),
            },
            AwsError::NoCredentials => AwsError::NoCredentials,
        }
    }

    /// Whether this error asks for the credential cache to be purged.
    pub fn asks_for_purge(&self) -> (r: bool)
        ensures
            r == (self@ is Auth),
    {
        match self {
            AwsError::Auth { .. } => true,
            _ => false,
        }
    }
}

/// A failure tied to the profile whose unit of work it ended.
#[derive(Clone, Debug)]
pub struct ProfileError {
    pub profile: String,
    pub error: AwsError,
}

pub struct ProfileErrorView {
    pub profile: Seq<char>,
    pub error: AwsErrorView,
}

impl View for ProfileError {
    type V = ProfileErrorView;

    open spec fn view(&self) -> ProfileErrorView {
        ProfileErrorView { profile: self.profile@, error: self.error@ }
    }
}

} // verus!
