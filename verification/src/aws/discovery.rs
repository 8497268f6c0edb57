//! Discovery: the request that lists the running instances of a profile's
//! region, and the reading of its answer into host records.

use vstd::prelude::*;
use vstd::string::StringExecFns;
use crate::aws::credential::{Credential, CredentialView};
use crate::aws::delegation::{is_success, Reply, ReplyView};
use crate::aws::error::{Action, AwsError, AwsErrorView};
use crate::aws::sign::{aws_sign, signature, SignedRequest};
use crate::text::{owned, replace_char, replaced};
use crate::xml::{
    first_child_element,
    first_child_tag,
    is_tag,
    text_of_node,
    xml_nodes,
    XmlDocument,
    XmlNodeView,
};

verus! {

/// A host that discovery found. `identity_file_path` is the name of the
/// instance's key pair, as the service reports it: the caller places it in
/// its key directory.
#[derive(Clone, Debug)]
pub struct HostRecord {
    pub name: String,
    pub address: String,
    pub identity_file_path: String,
    pub platform: String,
    pub profile: String,
    pub via_bastion: Option<String>,
}

pub struct HostRecordView {
    pub name: Seq<char>,
    pub address: Seq<char>,
    pub identity_file_path: Seq<char>,
    pub platform: Seq<char>,
    pub profile: Seq<char>,
    pub via_bastion: Option<Seq<char>>,
}

impl View for HostRecord {
    type V = HostRecordView;

    open spec fn view(&self) -> HostRecordView {
        HostRecordView {
            name: self.name@,
            address: self.address@,
            identity_file_path: self.identity_file_path@,
            platform: self.platform@,
            profile: self.profile@,
            via_bastion: match self.via_bastion {
                Some(b) => Some(b@),
                None => None,
            },
        }
    }
}

/// Host records as their views.
pub open spec fn hosts_view(hosts: Seq<HostRecord>) -> Seq<HostRecordView> {
    hosts.map_values(|h: HostRecord| h@)
}

/// The account that logs in on a platform.
pub open spec fn login_user(platform: Seq<char>) -> Seq<char> {
    if platform == "Windows"@ {
        "administrator"@
    } else {
        "ubuntu"@
    }
}

impl HostRecord {
    /// A copy of this record.
    pub fn duplicate(&self) -> (r: HostRecord)
        ensures
            r@ == self@,
    {
        HostRecord {
            name: self.name.clone(),
            address: self.address.clone(),
            identity_file_path: self.identity_file_path.clone(),
            platform: self.platform.clone(),
            profile: self.profile.clone(),
            via_bastion: match &self.via_bastion {
                Some(b) => Some(b.clone()),
                None => None,
            },
        }
    }

    /// The account that logs in on this host.
    pub fn user(&self) -> (r: String)
        ensures
            r@ == login_user(self@.platform),
    {
        if self.platform == owned("Windows") {
            owned("administrator")
        } else {
            owned("ubuntu")
        }
    }
}

/// The name under which discovery requests are signed.
pub open spec fn ec2_service() -> Seq<char> {
    "ec2"@
}

/// The address of the discovery request for `region`: the compute service
/// of that region, asked for the instances that are running.
pub open spec fn describe_instances_address(region: Seq<char>) -> Seq<char> {
    "https://ec2."@ + region
        + ".amazonaws.com/?Action=DescribeInstances&Version=2016-11-15&Filter.1.Name=instance-state-name&Filter.1.Value.1=running"@
}

/// The address of the discovery request for `region`.
pub fn describe_instances_url(region: &str) -> (r: String)
    ensures
        r@ == describe_instances_address(region@),
{
    owned("https://ec2.").concat(region).concat(
        ".amazonaws.com/?Action=DescribeInstances&Version=2016-11-15&Filter.1.Name=instance-state-name&Filter.1.Value.1=running",
    )
}

/// The discovery request for the region of `credential`, signed with it and
/// dated `time` seconds after the Unix epoch.
pub fn describe_instances_request(credential: &Credential, time: i64) -> (r: Result<
    SignedRequest,
    AwsError,
>)
    ensures
        match r {
            Ok(request) => {
                &&& request@.url == describe_instances_address(credential@.region)
                &&& signature(
                    describe_instances_address(credential@.region),
                    ec2_service(),
                    credential@,
                    time,
                ) == Some(request@.headers)
            },
            Err(e) => {
                &&& e@ == AwsErrorView::Signing { profile: credential@.profile }
                &&& signature(
                    describe_instances_address(credential@.region),
                    ec2_service(),
                    credential@,
                    time,
                ) is None
            },
        },
{
    let url = describe_instances_url(credential.region.as_str());
    aws_sign(url.as_str(), "ec2", credential, time)
}

/// Whether a bastion is configured: one is given, and it is not empty.
pub open spec fn bastion_configured(bastion: Option<Seq<char>>) -> bool {
    bastion matches Some(b) && b.len() > 0
}

/// The tag that holds the address to use: the private one behind a bastion,
/// the public one without.
pub open spec fn address_tag(bastion: Option<Seq<char>>) -> Seq<char> {
    if bastion_configured(bastion) {
        "privateIpAddress"@
    } else {
        "ipAddress"@
    }
}

/// The text of the first child of `parent` tagged `tag`.
pub open spec fn child_text(nodes: Seq<XmlNodeView>, parent: usize, tag: Seq<char>) -> Option<
    Seq<char>,
> {
    text_of_node(nodes, first_child_tag(nodes, parent, tag))
}

/// Whether node `i` is an entry of the tag set `tag_set` whose key is
/// `Name`.
pub open spec fn is_name_tag(nodes: Seq<XmlNodeView>, tag_set: usize, i: int) -> bool {
    &&& nodes[i].parent == Some(tag_set)
    &&& child_text(nodes, i as usize, "key"@) == Some("Name"@)
}

/// The first entry of the tag set `tag_set`, at or after `from`, whose key
/// is `Name`.
pub open spec fn name_tag_from(nodes: Seq<XmlNodeView>, tag_set: usize, from: int) -> Option<usize>
    decreases nodes.len() - from,
{
    if from < 0 || from >= nodes.len() {
        None
    } else if is_name_tag(nodes, tag_set, from) {
        Some(from as usize)
    } else {
        name_tag_from(nodes, tag_set, from + 1)
    }
}

/// The name that the tags of `instance` give it: the value of the first tag
/// whose key is `Name`.
pub open spec fn instance_name(nodes: Seq<XmlNodeView>, instance: usize) -> Option<Seq<char>> {
    match first_child_tag(nodes, instance, "tagSet"@) {
        Some(tag_set) => match name_tag_from(nodes, tag_set, 0) {
            Some(tag) => child_text(nodes, tag, "value"@),
            None => None,
        },
        None => None,
    }
}

/// The host record of the instance entry `instance`: it needs a key name,
/// the address in use, a `Name` tag and a platform, and is `None` where one
/// of them is missing. Spaces in the name become hyphens.
pub open spec fn host_of_instance(
    nodes: Seq<XmlNodeView>,
    instance: usize,
    profile: Seq<char>,
    bastion: Option<Seq<char>>,
) -> Option<HostRecordView> {
    match (
        child_text(nodes, instance, "keyName"@),
        child_text(nodes, instance, address_tag(bastion)),
        instance_name(nodes, instance),
        child_text(nodes, instance, "platformDetails"@),
    ) {
        (Some(key), Some(address), Some(name), Some(platform)) => Some(
            HostRecordView {
                name: replaced(name, ' ', '-'),
                address,
                identity_file_path: key,
                platform,
                profile,
                via_bastion: bastion,
            },
        ),
        _ => None,
    }
}

/// The host record that node `i` stands for: that of its first element
/// child, where `i` is an `instancesSet`.
pub open spec fn host_at(
    nodes: Seq<XmlNodeView>,
    i: int,
    profile: Seq<char>,
    bastion: Option<Seq<char>>,
) -> Option<HostRecordView> {
    if is_tag(nodes[i], "instancesSet"@) {
        match first_child_element(nodes, i as usize) {
            Some(instance) => host_of_instance(nodes, instance, profile, bastion),
            None => None,
        }
    } else {
        None
    }
}

/// The host records of the first `n` nodes, in document order.
pub open spec fn hosts_upto(
    nodes: Seq<XmlNodeView>,
    n: int,
    profile: Seq<char>,
    bastion: Option<Seq<char>>,
) -> Seq<HostRecordView>
    decreases n,
{
    if n <= 0 {
        Seq::empty()
    } else {
        let before = hosts_upto(nodes, n - 1, profile, bastion);
        match host_at(nodes, n - 1, profile, bastion) {
            Some(h) => before.push(h),
            None => before,
        }
    }
}

/// The host records of a discovery response, in document order. Entries
/// that lack a field are left out.
pub open spec fn hosts_of(nodes: Seq<XmlNodeView>, profile: Seq<char>, bastion: Option<Seq<char>>) -> Seq<
    HostRecordView,
> {
    hosts_upto(nodes, nodes.len() as int, profile, bastion)
}

/// What a reply to the discovery request of `credential` amounts to.
pub open spec fn discovery_result(
    credential: CredentialView,
    bastion: Option<Seq<char>>,
    reply: ReplyView,
) -> Result<Seq<HostRecordView>, AwsErrorView> {
    match reply {
        ReplyView::Failed { message } => Err(
            AwsErrorView::Transport { profile: credential.profile, message },
        ),
        ReplyView::Response { status, reason, body } => if status == 401 {
            Err(AwsErrorView::Auth { profile: credential.profile })
        } else if !is_success(status) {
            Err(
                AwsErrorView::Api {
                    action: Action::DescribeInstances,
                    status,
                    reason,
                    profile: credential.profile,
                },
            )
        } else {
            match xml_nodes(body) {
                Some(nodes) => Ok(hosts_of(nodes, credential.profile, bastion)),
                None => Err(AwsErrorView::Parse { profile: credential.profile, field: None }),
            }
        },
    }
}

/// Views of the outcome of a discovery.
pub open spec fn hosts_result(r: Result<Vec<HostRecord>, AwsError>) -> Result<
    Seq<HostRecordView>,
    AwsErrorView,
> {
    match r {
        Ok(hosts) => Ok(hosts_view(hosts@)),
        Err(e) => Err(e@),
    }
}

/// The view of an optional text.
pub open spec fn option_view(s: Option<&str>) -> Option<Seq<char>> {
    match s {
        Some(t) => Some(t@),
        None => None,
    }
}

/// The text of the first child of `parent` tagged `tag`.
pub fn text_of_child<'a>(document: &'a XmlDocument, parent: usize, tag: &str) -> (r: Option<
    &'a String,
>)
    ensures
        match r {
            Some(t) => child_text(document@, parent, tag@) == Some(t@),
            None => child_text(document@, parent, tag@) is None,
        },
{
    document.text(document.find_child(parent, tag))
}

/// The first entry of the tag set `tag_set` whose key is `Name`.
pub fn find_name_tag(document: &XmlDocument, tag_set: usize) -> (r: Option<usize>)
    ensures
        r == name_tag_from(document@, tag_set, 0),
        r matches Some(i) ==> i < document@.len(),
{
    let wanted = owned("Name");
    let mut i: usize = 0;
    while i < document.len()
        invariant
            i <= document@.len(),
            wanted@ == "Name"@,
            name_tag_from(document@, tag_set, 0) == name_tag_from(document@, tag_set, i as int),
        decreases document@.len() - i,
    {
        let under = match document.nodes[i].parent {
            Some(p) => p == tag_set,
            None => false,
        };
        if under {
            let named = match text_of_child(document, i, "key") {
                Some(k) => *k == wanted,
                None => false,
            };
            if named {
                return Some(i);
            }
        }
        i += 1;
    }
    None
}

/// The name that the tags of `instance` give it.
pub fn name_of_instance<'a>(document: &'a XmlDocument, instance: usize) -> (r: Option<&'a String>)
    ensures
        match r {
            Some(t) => instance_name(document@, instance) == Some(t@),
            None => instance_name(document@, instance) is None,
        },
{
    match document.find_child(instance, "tagSet") {
        Some(tag_set) => match find_name_tag(document, tag_set) {
            Some(tag) => text_of_child(document, tag, "value"),
            None => None,
        },
        None => None,
    }
}

/// The host record of the instance entry `instance`.
pub fn host_from_instance(
    document: &XmlDocument,
    instance: usize,
    profile: &str,
    bastion: Option<&str>,
) -> (r: Option<HostRecord>)
    ensures
        match r {
            Some(h) => host_of_instance(document@, instance, profile@, option_view(bastion))
                == Some(h@),
            None => host_of_instance(document@, instance, profile@, option_view(bastion)) is None,
        },
{
    let behind = match bastion {
        Some(b) => !b.is_empty(),
        None => false,
    };
    let key = match text_of_child(document, instance, "keyName") {
        Some(t) => t,
        None => {
            return None;
        },
    };
    let found = if behind {
        text_of_child(document, instance, "privateIpAddress")
    } else {
        text_of_child(document, instance, "ipAddress")
    };
    let address = match found {
        Some(t) => t,
        None => {
            return None;
        },
    };
    let name = match name_of_instance(document, instance) {
        Some(t) => t,
        None => {
            return None;
        },
    };
    let platform = match text_of_child(document, instance, "platformDetails") {
        Some(t) => t,
        None => {
            return None;
        },
    };
    Some(
        HostRecord {
            name: replace_char(name.as_str(), ' ', '-'),
            address: address.clone(),
            identity_file_path: key.clone(),
            platform: platform.clone(),
            profile: owned(profile),
            via_bastion: match bastion {
                Some(b) => Some(owned(b)),
                None => None,
            },
        },
    )
}

/// The host records of the discovery response `document`, for the profile
/// `profile`, in document order.
pub fn hosts_from_document(document: &XmlDocument, profile: &str, bastion: Option<&str>) -> (r: Vec<
    HostRecord,
>)
    ensures
        hosts_view(r@) == hosts_of(document@, profile@, option_view(bastion)),
{
    let mut hosts: Vec<HostRecord> = Vec::new();
    let mut i: usize = 0;
    while i < document.len()
        invariant
            i <= document@.len(),
            hosts_view(hosts@) == hosts_upto(document@, i as int, profile@, option_view(bastion)),
        decreases document@.len() - i,
    {
        let ghost before = hosts@;
        if document.has_tag_name(i, "instancesSet") {
            match document.first_element_child(i) {
                Some(instance) => match host_from_instance(document, instance, profile, bastion) {
                    Some(h) => {
                        hosts.push(h);
                        assert(hosts_view(hosts@) == hosts_view(before).push(h@));
                    },
                    None => {},
                },
                None => {},
            }
        }
        i += 1;
    }
    hosts
}

/// Reads the reply to the discovery request of `credential`: the host
/// records of its profile, or the failure of that profile. An answer of 401
/// is an `Auth` failure, which asks for the credential cache to be purged.
pub fn update_from_aws_api(credential: &Credential, bastion: Option<&str>, reply: &Reply) -> (r:
    Result<Vec<HostRecord>, AwsError>)
    ensures
        hosts_result(r) == discovery_result(credential@, option_view(bastion), reply@),
{
    match reply {
        Reply::Failed { message } => Err(
            AwsError::Transport { profile: credential.profile.clone(), message: message.clone() },
        ),
        Reply::Response { status, reason, body } => {
            if *status == 401 {
                return Err(AwsError::Auth { profile: credential.profile.clone() });
            }
            if *status < 200 || *status > 299 {
                return Err(
                    AwsError::Api {
                        action: Action::DescribeInstances,
                        status: *status,
                        reason: reason.clone(),
                        profile: credential.profile.clone(),
                    },
                );
            }
            match XmlDocument::parse(body.as_str()) {
                Some(document) => Ok(
                    hosts_from_document(&document, credential.profile.as_str(), bastion),
                ),
                None => Err(AwsError::Parse { profile: credential.profile.clone(), field: None }),
            }
        },
    }
}


/// An answer of 401 to the discovery request of a credential is an
/// authorization failure of that credential's profile, whatever else the
/// answer holds.
pub proof fn lemma_refusal_is_auth_failure(
    credential: CredentialView,
    bastion: Option<Seq<char>>,
    reason: Seq<char>,
    body: Seq<char>,
)
    ensures
        discovery_result(credential, bastion, ReplyView::Response { status: 401, reason, body })
            == Err::<Seq<HostRecordView>, AwsErrorView>(
            AwsErrorView::Auth { profile: credential.profile },
        ),
{
}

/// `name_tag_from` finds an entry whose key is `Name` if the tag set has
/// one at or after `from`.
pub proof fn lemma_name_tag(nodes: Seq<XmlNodeView>, tag_set: usize, from: int)
    requires
        0 <= from,
    ensures
        name_tag_from(nodes, tag_set, from) is None ==> forall|i: int|
            from <= i < nodes.len() ==> !is_name_tag(nodes, tag_set, i),
        (forall|i: int| from <= i < nodes.len() ==> !is_name_tag(nodes, tag_set, i))
            ==> name_tag_from(nodes, tag_set, from) is None,
    decreases nodes.len() - from,
{
    if from < nodes.len() {
        lemma_name_tag(nodes, tag_set, from + 1);
    }
}

/// An instance entry whose tag set has no tag with the key `Name` gives no
/// host record.
pub proof fn lemma_unnamed_instance_is_left_out(
    nodes: Seq<XmlNodeView>,
    instance: usize,
    profile: Seq<char>,
    bastion: Option<Seq<char>>,
)
    requires
        first_child_tag(nodes, instance, "tagSet"@) matches Some(tag_set) ==> forall|i: int|
            0 <= i < nodes.len() ==> !is_name_tag(nodes, tag_set, i),
    ensures
        host_of_instance(nodes, instance, profile, bastion) is None,
{
    match first_child_tag(nodes, instance, "tagSet"@) {
        Some(tag_set) => {
            lemma_name_tag(nodes, tag_set, 0);
        },
        None => {},
    }
}

/// Every host record of a response is that of one of its instance entries,
/// and every entry that gives a record has it in the list: an entry that
/// gives none is absent, and takes nothing from the others.
pub proof fn lemma_hosts_come_from_entries(
    nodes: Seq<XmlNodeView>,
    n: int,
    profile: Seq<char>,
    bastion: Option<Seq<char>>,
)
    requires
        0 <= n <= nodes.len(),
    ensures
        forall|j: int|
            0 <= j < hosts_upto(nodes, n, profile, bastion).len() ==> exists|i: int|
                0 <= i < n && host_at(nodes, i, profile, bastion) == Some(
                    #[trigger] hosts_upto(nodes, n, profile, bastion)[j],
                ),
        forall|i: int|
            0 <= i < n && (#[trigger] host_at(nodes, i, profile, bastion)) is Some ==> hosts_upto(
                nodes,
                n,
                profile,
                bastion,
            ).contains(host_at(nodes, i, profile, bastion)->0),
    decreases n,
{
    if n > 0 {
        lemma_hosts_come_from_entries(nodes, n - 1, profile, bastion);
        let before = hosts_upto(nodes, n - 1, profile, bastion);
        let now = hosts_upto(nodes, n, profile, bastion);
        assert forall|j: int| 0 <= j < now.len() implies exists|i: int|
            0 <= i < n && host_at(nodes, i, profile, bastion) == Some(#[trigger] now[j]) by {
            if j < before.len() {
                assert(now[j] == before[j]);
                let i = choose|i: int|
                    0 <= i < n - 1 && host_at(nodes, i, profile, bastion) == Some(before[j]);
                assert(0 <= i < n && host_at(nodes, i, profile, bastion) == Some(now[j]));
            } else {
                assert(host_at(nodes, n - 1, profile, bastion) == Some(now[j]));
            }
        }
        assert forall|i: int|
            0 <= i < n && (#[trigger] host_at(nodes, i, profile, bastion)) is Some implies now.contains(
            host_at(nodes, i, profile, bastion)->0,
        ) by {
            let h = host_at(nodes, i, profile, bastion)->0;
            if i < n - 1 {
                assert(before.contains(h));
                let j = choose|j: int| 0 <= j < before.len() && before[j] == h;
                assert(now[j] == h);
            } else {
                assert(now[now.len() - 1] == h);
            }
        }
    }
}

} // verus!
