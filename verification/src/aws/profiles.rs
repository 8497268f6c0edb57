//! The two external stores, read as sections of keys and values: the account
//! configuration, which says of each profile its region, role and source,
//! and the secrets, which hold the static key pairs.

use vstd::prelude::*;
use crate::aws::credential::{AwsConfig, AwsConfigView, Credential, CredentialView};
use crate::aws::error::{AwsError, AwsErrorView, Store};
use crate::name_map::{
    distinct_names,
    find_pair,
    lemma_index_of,
    lemma_upsert,
    lookup,
    pairs_view,
    upsert,
    NameMap,
};
use crate::text::{has_prefix, owned, strip_prefix};

verus! {

/// One section of a store: its name (`None` for what stands before the
/// first header) and its properties in the order in which they stand.
pub struct IniSection {
    pub name: Option<String>,
    pub properties: Vec<(String, String)>,
}

pub struct IniSectionView {
    pub name: Option<Seq<char>>,
    pub properties: Seq<(Seq<char>, Seq<char>)>,
}

impl View for IniSection {
    type V = IniSectionView;

    open spec fn view(&self) -> IniSectionView {
        IniSectionView {
            name: match self.name {
                Some(n) => Some(n@),
                None => None,
            },
            properties: pairs_view(self.properties@),
        }
    }
}

/// Sections as their views.
pub open spec fn sections_view(sections: Seq<IniSection>) -> Seq<IniSectionView> {
    sections.map_values(|s: IniSection| s@)
}

/// Why `rust-ini` refused a text.
#[verifier::external_type_specification]
#[verifier::external_body]
pub struct ExIniError(ini::ParseError);

/// The sections that `rust-ini` reads out of a text, or `None` where it
/// refuses the text.
pub uninterp spec fn ini_sections(text: Seq<char>) -> Option<Seq<IniSectionView>>;

/// `ini::Ini::load_from_str`, with the sections of `iter()` and the
/// properties of each section's `iter()` copied out in their order. The
/// contract only names that result.
#[verifier::external_body]
fn read_ini(text: &str) -> (r: Result<Vec<IniSection>, ini::ParseError>)
    ensures
        match r {
            Ok(sections) => ini_sections(text@) == Some(sections_view(sections@)),
            Err(_) => ini_sections(text@) is None,
        },
{
    let store = ini::Ini::load_from_str(text)?;
    Ok(
        store.iter().map(
            |(name, properties)|
                IniSection {
                    name: name.map(String::from),
                    properties: properties.iter().map(|(k, v)| (k.to_string(), v.to_string())).collect(),
                },
        ).collect(),
    )
}

/// The value of `key` in `properties`, or the empty text.
pub open spec fn property_or_empty(properties: Seq<(Seq<char>, Seq<char>)>, key: Seq<char>) -> Seq<
    char,
> {
    match lookup(properties, key) {
        Some(v) => v,
        None => Seq::empty(),
    }
}

/// The name of the profile that a section of the configuration is about:
/// the section's name, without `profile ` before it.
pub open spec fn profile_name(section: Seq<char>) -> Seq<char> {
    if has_prefix(section, "profile "@) {
        section.skip("profile "@.len() as int)
    } else {
        section
    }
}

/// What a section of the configuration says of its profile. Fields that the
/// section lacks are empty.
pub open spec fn profile_config(
    section: Seq<char>,
    properties: Seq<(Seq<char>, Seq<char>)>,
) -> AwsConfigView {
    AwsConfigView {
        profile: profile_name(section),
        role_arn: property_or_empty(properties, "role_arn"@),
        source_profile: property_or_empty(properties, "source_profile"@),
        region: property_or_empty(properties, "region"@),
    }
}

/// The profiles that the first `n` sections of the configuration describe.
/// Where two sections are about one profile, the later one stands.
pub open spec fn profiles_upto(sections: Seq<IniSectionView>, n: int) -> Seq<
    (Seq<char>, AwsConfigView),
>
    decreases n,
{
    if n <= 0 {
        Seq::empty()
    } else {
        let before = profiles_upto(sections, n - 1);
        match sections[n - 1].name {
            Some(name) => {
                let config = profile_config(name, sections[n - 1].properties);
                upsert(before, config.profile, config)
            },
            None => before,
        }
    }
}

/// Whether every section has a name.
pub open spec fn all_named(sections: Seq<IniSectionView>) -> bool {
    forall|i: int| 0 <= i < sections.len() ==> (#[trigger] sections[i]).name is Some
}

/// The profiles that a configuration describes. Properties outside any
/// section make it unusable.
pub open spec fn profiles_of(sections: Seq<IniSectionView>) -> Result<
    Seq<(Seq<char>, AwsConfigView)>,
    AwsErrorView,
> {
    if all_named(sections) {
        Ok(profiles_upto(sections, sections.len() as int))
    } else {
        Err(AwsErrorView::Config { store: Store::Config })
    }
}

/// The static credential that a section of the secrets gives its profile:
/// one needs both keys there and the profile's region in the configuration.
pub open spec fn static_credential(
    section: IniSectionView,
    profiles: Seq<(Seq<char>, AwsConfigView)>,
) -> Option<CredentialView> {
    match (
        section.name,
        lookup(section.properties, "aws_access_key_id"@),
        lookup(section.properties, "aws_secret_access_key"@),
    ) {
        (Some(name), Some(access_key), Some(secret_key)) => match lookup(profiles, name) {
            Some(config) => Some(
                CredentialView {
                    profile: name,
                    access_key,
                    secret_key,
                    session_token: Seq::empty(),
                    region: config.region,
                    expiration: Seq::empty(),
                },
            ),
            None => None,
        },
        _ => None,
    }
}

/// The static credentials that the first `n` sections of the secrets give.
/// Where two sections give one profile a credential, the later one stands.
pub open spec fn statics_upto(
    sections: Seq<IniSectionView>,
    profiles: Seq<(Seq<char>, AwsConfigView)>,
    n: int,
) -> Seq<(Seq<char>, CredentialView)>
    decreases n,
{
    if n <= 0 {
        Seq::empty()
    } else {
        let before = statics_upto(sections, profiles, n - 1);
        match static_credential(sections[n - 1], profiles) {
            Some(c) => upsert(before, c.profile, c),
            None => before,
        }
    }
}

/// The static credentials that the secrets give.
pub open spec fn statics_of(
    sections: Seq<IniSectionView>,
    profiles: Seq<(Seq<char>, AwsConfigView)>,
) -> Seq<(Seq<char>, CredentialView)> {
    statics_upto(sections, profiles, sections.len() as int)
}

/// `text` without a byte-order mark at its start.
pub open spec fn without_mark(text: Seq<char>) -> Seq<char> {
    if text.len() > 0 && text[0] == '\u{feff}' {
        text.skip(1)
    } else {
        text
    }
}

/// What the text of a store holds: its sections, or `None` where it cannot
/// be read as sections of keys and values.
pub open spec fn store_sections(text: Seq<char>) -> Option<Seq<IniSectionView>> {
    ini_sections(without_mark(text))
}

/// Views of the outcome of reading profiles.
pub open spec fn profiles_result(r: Result<NameMap<AwsConfig>, AwsError>) -> Result<
    Seq<(Seq<char>, AwsConfigView)>,
    AwsErrorView,
> {
    match r {
        Ok(m) => Ok(m@),
        Err(e) => Err(e@),
    }
}

/// Views of the outcome of reading static credentials.
pub open spec fn statics_result(r: Result<NameMap<Credential>, AwsError>) -> Result<
    Seq<(Seq<char>, CredentialView)>,
    AwsErrorView,
> {
    match r {
        Ok(m) => Ok(m@),
        Err(e) => Err(e@),
    }
}

/// Reads the text of a store into sections.
pub fn read_store(text: &str) -> (r: Option<Vec<IniSection>>)
    ensures
        match r {
            Some(sections) => store_sections(text@) == Some(sections_view(sections@)),
            None => store_sections(text@) is None,
        },
{
    let bare = match strip_prefix(text, "\u{feff}") {
        Some(rest) => rest,
        None => owned(text),
    };
    proof {
        reveal_strlit("\u{feff}");
        assert("\u{feff}"@ == seq!['\u{feff}']);
        if has_prefix(text@, "\u{feff}"@) {
            assert(text@.take(1)[0] == '\u{feff}');
        } else if text@.len() > 0 && text@[0] == '\u{feff}' {
            assert(text@.take(1) == seq!['\u{feff}']);
        }
    }
    match read_ini(bare.as_str()) {
        Ok(sections) => Some(sections),
        Err(_) => None,
    }
}

/// What a section of the configuration says of its profile.
pub fn config_of_section(name: &str, properties: &Vec<(String, String)>) -> (r: AwsConfig)
    ensures
        r@ == profile_config(name@, pairs_view(properties@)),
{
    let profile = match strip_prefix(name, "profile ") {
        Some(rest) => rest,
        None => owned(name),
    };
    let role_arn = match find_pair(properties, "role_arn") {
        Some(v) => v.clone(),
        None => String::new(),
    };
    let source_profile = match find_pair(properties, "source_profile") {
        Some(v) => v.clone(),
        None => String::new(),
    };
    let region = match find_pair(properties, "region") {
        Some(v) => v.clone(),
        None => String::new(),
    };
    AwsConfig { profile, role_arn, source_profile, region }
}

/// The profiles that the sections of a configuration describe.
pub fn profiles_from_sections(sections: &Vec<IniSection>) -> (r: Result<NameMap<AwsConfig>, AwsError>)
    ensures
        profiles_result(r) == profiles_of(sections_view(sections@)),
{
    let ghost views = sections_view(sections@);
    let mut profiles: NameMap<AwsConfig> = NameMap::new();
    let mut i: usize = 0;
    while i < sections.len()
        invariant
            i <= sections.len(),
            views == sections_view(sections@),
            profiles@ == profiles_upto(views, i as int),
            forall|j: int| 0 <= j < i ==> (#[trigger] views[j]).name is Some,
        decreases sections.len() - i,
    {
        assert(views[i as int] == sections@[i as int]@);
        match &sections[i].name {
            Some(name) => {
                let config = config_of_section(name.as_str(), &sections[i].properties);
                profiles.insert(config.profile.clone(), config);
            },
            None => {
                return Err(AwsError::Config { store: Store::Config });
            },
        }
        i += 1;
    }
    Ok(profiles)
}

/// The static credential that a section of the secrets gives its profile.
pub fn credential_of_section(section: &IniSection, profiles: &NameMap<AwsConfig>) -> (r: Option<
    Credential,
>)
    ensures
        match r {
            Some(c) => static_credential(section@, profiles@) == Some(c@),
            None => static_credential(section@, profiles@) is None,
        },
{
    let name = match &section.name {
        Some(n) => n,
        None => {
            return None;
        },
    };
    let access_key = match find_pair(&section.properties, "aws_access_key_id") {
        Some(v) => v,
        None => {
            return None;
        },
    };
    let secret_key = match find_pair(&section.properties, "aws_secret_access_key") {
        Some(v) => v,
        None => {
            return None;
        },
    };
    match profiles.get(name.as_str()) {
        Some(config) => Some(
            Credential {
                profile: name.clone(),
                access_key: access_key.clone(),
                secret_key: secret_key.clone(),
                session_token: String::new(),
                region: config.region.clone(),
                expiration: String::new(),
            },
        ),
        None => None,
    }
}

/// The static credentials that the sections of the secrets give, each with
/// the region that the configuration has for its profile.
pub fn statics_from_sections(sections: &Vec<IniSection>, profiles: &NameMap<AwsConfig>) -> (r:
    NameMap<Credential>)
    ensures
        r@ == statics_of(sections_view(sections@), profiles@),
{
    let ghost views = sections_view(sections@);
    let mut statics: NameMap<Credential> = NameMap::new();
    let mut i: usize = 0;
    while i < sections.len()
        invariant
            i <= sections.len(),
            views == sections_view(sections@),
            statics@ == statics_upto(views, profiles@, i as int),
        decreases sections.len() - i,
    {
        assert(views[i as int] == sections@[i as int]@);
        match credential_of_section(&sections[i], profiles) {
            Some(c) => {
                statics.insert(c.profile.clone(), c);
            },
            None => {},
        }
        i += 1;
    }
    statics
}

/// Reads the account configuration: a mapping from each profile's name to
/// its role, source and region. It fails where the text cannot be read as
/// sections, or holds properties outside any section.
pub fn load_profiles(config_text: &str) -> (r: Result<NameMap<AwsConfig>, AwsError>)
    ensures
        profiles_result(r) == match store_sections(config_text@) {
            Some(sections) => profiles_of(sections),
            None => Err(AwsErrorView::Config { store: Store::Config }),
        },
{
    match read_store(config_text) {
        Some(sections) => profiles_from_sections(&sections),
        None => Err(AwsError::Config { store: Store::Config }),
    }
}

/// Reads the secrets: the static credential of every profile that has both
/// keys there and a region in the configuration. It fails where the text
/// cannot be read as sections.
pub fn load_statics(secrets_text: &str, profiles: &NameMap<AwsConfig>) -> (r: Result<
    NameMap<Credential>,
    AwsError,
>)
    ensures
        statics_result(r) == match store_sections(secrets_text@) {
            Some(sections) => Ok(statics_of(sections, profiles@)),
            None => Err(AwsErrorView::Config { store: Store::Secrets }),
        },
{
    match read_store(secrets_text) {
        Some(sections) => Ok(statics_from_sections(&sections, profiles)),
        None => Err(AwsError::Config { store: Store::Secrets }),
    }
}


/// Profile names are unique: no two of the profiles that a configuration
/// describes have one name, and each stands under its own name.
pub proof fn lemma_profiles_are_unique(sections: Seq<IniSectionView>, n: int)
    requires
        0 <= n <= sections.len(),
    ensures
        distinct_names(profiles_upto(sections, n)),
        forall|i: int|
            0 <= i < profiles_upto(sections, n).len() ==> (#[trigger] profiles_upto(
                sections,
                n,
            )[i]).0 == profiles_upto(sections, n)[i].1.profile,
    decreases n,
{
    if n > 0 {
        lemma_profiles_are_unique(sections, n - 1);
        let before = profiles_upto(sections, n - 1);
        let now = profiles_upto(sections, n);
        match sections[n - 1].name {
            Some(name) => {
                let config = profile_config(name, sections[n - 1].properties);
                lemma_upsert(before, config.profile, config);
                lemma_index_of(before, config.profile);
                assert forall|i: int| 0 <= i < now.len() implies (#[trigger] now[i]).0
                    == now[i].1.profile by {
                    if i < before.len() && i != crate::name_map::index_of(before, config.profile) {
                        assert(now[i] == before[i]);
                    }
                }
            },
            None => {},
        }
    }
}

/// No two static credentials are for one profile, and each stands under
/// its own profile.
pub proof fn lemma_statics_are_unique(
    sections: Seq<IniSectionView>,
    profiles: Seq<(Seq<char>, AwsConfigView)>,
    n: int,
)
    requires
        0 <= n <= sections.len(),
    ensures
        distinct_names(statics_upto(sections, profiles, n)),
        crate::aws::cache::keyed_by_profile(statics_upto(sections, profiles, n)),
    decreases n,
{
    if n > 0 {
        lemma_statics_are_unique(sections, profiles, n - 1);
        let before = statics_upto(sections, profiles, n - 1);
        match static_credential(sections[n - 1], profiles) {
            Some(c) => {
                lemma_upsert(before, c.profile, c);
                crate::aws::cache::lemma_upsert_keeps_keys(before, c);
            },
            None => {},
        }
    }
}

} // verus!
