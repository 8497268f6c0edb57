//! What the command-line client of the cloud prints for "describe
//! instances", and the host records that it gives.

use vstd::prelude::*;
use crate::aws::discovery::{hosts_view, option_view, HostRecord, HostRecordView};
use crate::name_map::{lemma_index_of_is, lookup};
use crate::text::{owned, replace_char, replaced};

verus! {

/// A description: reservations, each with its instances.
#[derive(Clone, Debug)]
pub struct DescribeInstances {
    pub reservations: Vec<Reservation>,
}

#[derive(Clone, Debug)]
pub struct Reservation {
    pub instances: Vec<Instance>,
}

#[derive(Clone, Debug)]
pub struct Instance {
    pub image_id: String,
    pub instance_id: String,
    pub instance_type: String,
    pub key_name: Option<String>,
    pub private_ip_address: String,
    pub public_ip_address: String,
    pub state: State,
    pub tags: Vec<Tag>,
    pub platform_details: String,
    pub platform: Option<String>,
}

#[derive(Clone, Debug)]
pub struct State {
    pub code: i64,
    pub name: String,
}

#[derive(Clone, Debug)]
pub struct Tag {
    pub key: String,
    pub value: String,
}

/// What discovery reads of an instance.
pub struct InstanceView {
    pub key_name: Option<Seq<char>>,
    pub private_ip_address: Seq<char>,
    pub public_ip_address: Seq<char>,
    pub tags: Seq<(Seq<char>, Seq<char>)>,
    pub platform_details: Seq<char>,
}

/// Tags as pairs of key and value.
pub open spec fn tags_view(tags: Seq<Tag>) -> Seq<(Seq<char>, Seq<char>)> {
    tags.map_values(|t: Tag| (t.key@, t.value@))
}

impl View for Instance {
    type V = InstanceView;

    open spec fn view(&self) -> InstanceView {
        InstanceView {
            key_name: match self.key_name {
                Some(k) => Some(k@),
                None => None,
            },
            private_ip_address: self.private_ip_address@,
            public_ip_address: self.public_ip_address@,
            tags: tags_view(self.tags@),
            platform_details: self.platform_details@,
        }
    }
}

/// Instances as their views.
pub open spec fn instances_view(instances: Seq<Instance>) -> Seq<InstanceView> {
    instances.map_values(|i: Instance| i@)
}

impl View for Reservation {
    type V = Seq<InstanceView>;

    open spec fn view(&self) -> Seq<InstanceView> {
        instances_view(self.instances@)
    }
}

impl View for DescribeInstances {
    type V = Seq<Seq<InstanceView>>;

    open spec fn view(&self) -> Seq<Seq<InstanceView>> {
        self.reservations@.map_values(|r: Reservation| r@)
    }
}

/// Whether a proxy is in use: one is given, and it is not empty.
pub open spec fn proxied(proxy_jump: Option<Seq<char>>) -> bool {
    proxy_jump matches Some(p) && p.len() > 0
}

/// The host record of a described instance: it needs a tag with the key
/// `Name`, whose value is its name with hyphens for spaces, and a key name.
/// Its address is the private one through a proxy, the public one without.
pub open spec fn described_host(
    instance: InstanceView,
    profile: Seq<char>,
    proxy_jump: Option<Seq<char>>,
) -> Option<HostRecordView> {
    match (lookup(instance.tags, "Name"@), instance.key_name) {
        (Some(name), Some(key)) => Some(
            HostRecordView {
                name: replaced(name, ' ', '-'),
                address: if proxied(proxy_jump) {
                    instance.private_ip_address
                } else {
                    instance.public_ip_address
                },
                identity_file_path: key,
                platform: instance.platform_details,
                profile,
                via_bastion: proxy_jump,
            },
        ),
        _ => None,
    }
}

/// The host records of the first `n` instances of a reservation.
pub open spec fn reserved_upto(
    instances: Seq<InstanceView>,
    n: int,
    profile: Seq<char>,
    proxy_jump: Option<Seq<char>>,
) -> Seq<HostRecordView>
    decreases n,
{
    if n <= 0 {
        Seq::empty()
    } else {
        let before = reserved_upto(instances, n - 1, profile, proxy_jump);
        match described_host(instances[n - 1], profile, proxy_jump) {
            Some(h) => before.push(h),
            None => before,
        }
    }
}

/// The host records of the first `n` reservations, in their order.
pub open spec fn described_upto(
    reservations: Seq<Seq<InstanceView>>,
    n: int,
    profile: Seq<char>,
    proxy_jump: Option<Seq<char>>,
) -> Seq<HostRecordView>
    decreases n,
{
    if n <= 0 {
        Seq::empty()
    } else {
        described_upto(reservations, n - 1, profile, proxy_jump) + reserved_upto(
            reservations[n - 1],
            reservations[n - 1].len() as int,
            profile,
            proxy_jump,
        )
    }
}

/// The value of the first tag whose key is `key`.
pub fn tag_value<'a>(tags: &'a Vec<Tag>, key: &str) -> (r: Option<&'a String>)
    ensures
        match r {
            Some(v) => lookup(tags_view(tags@), key@) == Some(v@),
            None => lookup(tags_view(tags@), key@) is None,
        },
{
    let wanted = owned(key);
    let mut i: usize = 0;
    while i < tags.len()
        invariant
            i <= tags.len(),
            wanted@ == key@,
            forall|j: int| 0 <= j < i ==> (#[trigger] tags_view(tags@)[j]).0 != key@,
        decreases tags.len() - i,
    {
        if tags[i].key == wanted {
            proof {
                lemma_index_of_is(tags_view(tags@), key@, i as int);
            }
            return Some(&tags[i].value);
        }
        i += 1;
    }
    proof {
        lemma_index_of_is(tags_view(tags@), key@, tags@.len() as int);
    }
    None
}

/// The host record of a described instance.
pub fn host_of_described(instance: &Instance, profile: &str, proxy_jump: Option<&str>) -> (r: Option<
    HostRecord,
>)
    ensures
        match r {
            Some(h) => described_host(instance@, profile@, option_view(proxy_jump)) == Some(h@),
            None => described_host(instance@, profile@, option_view(proxy_jump)) is None,
        },
{
    let name = match tag_value(&instance.tags, "Name") {
        Some(v) => v,
        None => {
            return None;
        },
    };
    let key = match &instance.key_name {
        Some(k) => k,
        None => {
            return None;
        },
    };
    let through = match proxy_jump {
        Some(p) => !p.is_empty(),
        None => false,
    };
    Some(
        HostRecord {
            name: replace_char(name.as_str(), ' ', '-'),
            address: if through {
                instance.private_ip_address.clone()
            } else {
                instance.public_ip_address.clone()
            },
            identity_file_path: key.clone(),
            platform: instance.platform_details.clone(),
            profile: owned(profile),
            via_bastion: match proxy_jump {
                Some(p) => Some(owned(p)),
                None => None,
            },
        },
    )
}

/// The host records that a description gives the profile `profile`, in the
/// order of the description. An instance without a tag `Name` or without
/// key name is left out.
pub fn update_from_aws_cli(description: &DescribeInstances, profile: &str, proxy_jump: Option<&str>) -> (r:
    Vec<HostRecord>)
    ensures
        hosts_view(r@) == described_upto(
            description@,
            description@.len() as int,
            profile@,
            option_view(proxy_jump),
        ),
{
    let ghost all = description@;
    let mut hosts: Vec<HostRecord> = Vec::new();
    let mut i: usize = 0;
    while i < description.reservations.len()
        invariant
            i <= description.reservations.len(),
            all == description@,
            hosts_view(hosts@) == described_upto(all, i as int, profile@, option_view(proxy_jump)),
        decreases description.reservations.len() - i,
    {
        let instances = &description.reservations[i].instances;
        let ghost start = hosts@;
        assert(all[i as int] == instances_view(instances@));
        let mut j: usize = 0;
        while j < instances.len()
            invariant
                j <= instances.len(),
                hosts_view(hosts@) == hosts_view(start) + reserved_upto(
                    instances_view(instances@),
                    j as int,
                    profile@,
                    option_view(proxy_jump),
                ),
            decreases instances.len() - j,
        {
            assert(instances_view(instances@)[j as int] == instances@[j as int]@);
            match host_of_described(&instances[j], profile, proxy_jump) {
                Some(h) => {
                    let ghost before = hosts@;
                    hosts.push(h);
                    assert(hosts_view(hosts@) == hosts_view(before).push(h@));
                },
                None => {},
            }
            j += 1;
        }
        i += 1;
    }
    hosts
}


/// What the programming interface of the cloud says of an instance, where
/// every field may be missing.
#[derive(Clone, Debug)]
pub struct Described {
    pub tags: Option<Vec<DescribedTag>>,
    pub key_name: Option<String>,
    pub private_ip_address: Option<String>,
    pub public_ip_address: Option<String>,
    pub platform_details: Option<String>,
}

#[derive(Clone, Debug)]
pub struct DescribedTag {
    pub key: Option<String>,
    pub value: Option<String>,
}

/// The view of an optional text.
pub open spec fn some_view(s: Option<String>) -> Option<Seq<char>> {
    match s {
        Some(t) => Some(t@),
        None => None,
    }
}

/// The view of an optional text, a missing one being empty.
pub open spec fn or_empty(s: Option<String>) -> Seq<char> {
    match s {
        Some(t) => t@,
        None => Seq::empty(),
    }
}

/// Tags as pairs of key, a missing one being empty, and value.
pub open spec fn described_tags(tags: Seq<DescribedTag>) -> Seq<(Seq<char>, Option<Seq<char>>)> {
    tags.map_values(|t: DescribedTag| (or_empty(t.key), some_view(t.value)))
}

/// The tags of an instance, if it has any.
pub open spec fn tags_of(tags: Option<Vec<DescribedTag>>) -> Option<
    Seq<(Seq<char>, Option<Seq<char>>)>,
> {
    match tags {
        Some(t) => Some(described_tags(t@)),
        None => None,
    }
}

pub struct DescribedView {
    pub tags: Option<Seq<(Seq<char>, Option<Seq<char>>)>>,
    pub key_name: Option<Seq<char>>,
    pub private_ip_address: Option<Seq<char>>,
    pub public_ip_address: Option<Seq<char>>,
    pub platform_details: Option<Seq<char>>,
}

impl View for Described {
    type V = DescribedView;

    open spec fn view(&self) -> DescribedView {
        DescribedView {
            tags: tags_of(self.tags),
            key_name: some_view(self.key_name),
            private_ip_address: some_view(self.private_ip_address),
            public_ip_address: some_view(self.public_ip_address),
            platform_details: some_view(self.platform_details),
        }
    }
}

/// Instances as their views.
pub open spec fn described_view(instances: Seq<Described>) -> Seq<DescribedView> {
    instances.map_values(|i: Described| i@)
}

/// Reservations as the views of their instances.
pub open spec fn reservations_view(reservations: Seq<Vec<Described>>) -> Seq<Seq<DescribedView>> {
    reservations.map_values(|r: Vec<Described>| described_view(r@))
}

/// The name that the tags give: the value of the first tag whose key is
/// `Name`, if that tag has a value.
pub open spec fn tagged_name(tags: Option<Seq<(Seq<char>, Option<Seq<char>>)>>) -> Option<Seq<char>> {
    match tags {
        Some(t) => match lookup(t, "Name"@) {
            Some(Some(v)) => Some(v),
            _ => None,
        },
        None => None,
    }
}

/// The host record of an instance of which every field may be missing: it
/// needs a name, a key name, the address in use and a platform. Its address
/// is the private one where a proxy is given, the public one otherwise.
pub open spec fn sdk_host(
    instance: DescribedView,
    profile: Seq<char>,
    proxy_jump: Option<Seq<char>>,
) -> Option<HostRecordView> {
    match (
        tagged_name(instance.tags),
        instance.key_name,
        if proxy_jump is Some {
            instance.private_ip_address
        } else {
            instance.public_ip_address
        },
        instance.platform_details,
    ) {
        (Some(name), Some(key), Some(address), Some(platform)) => Some(
            HostRecordView {
                name: replaced(name, ' ', '-'),
                address,
                identity_file_path: key,
                platform,
                profile,
                via_bastion: proxy_jump,
            },
        ),
        _ => None,
    }
}

/// The host records of the first `n` instances of a reservation.
pub open spec fn sdk_reserved_upto(
    instances: Seq<DescribedView>,
    n: int,
    profile: Seq<char>,
    proxy_jump: Option<Seq<char>>,
) -> Seq<HostRecordView>
    decreases n,
{
    if n <= 0 {
        Seq::empty()
    } else {
        let before = sdk_reserved_upto(instances, n - 1, profile, proxy_jump);
        match sdk_host(instances[n - 1], profile, proxy_jump) {
            Some(h) => before.push(h),
            None => before,
        }
    }
}

/// The host records of the first `n` reservations, in their order.
pub open spec fn sdk_described_upto(
    reservations: Seq<Seq<DescribedView>>,
    n: int,
    profile: Seq<char>,
    proxy_jump: Option<Seq<char>>,
) -> Seq<HostRecordView>
    decreases n,
{
    if n <= 0 {
        Seq::empty()
    } else {
        sdk_described_upto(reservations, n - 1, profile, proxy_jump) + sdk_reserved_upto(
            reservations[n - 1],
            reservations[n - 1].len() as int,
            profile,
            proxy_jump,
        )
    }
}

/// The name that the tags give.
pub fn name_of_tags<'a>(tags: &'a Option<Vec<DescribedTag>>) -> (r: Option<&'a String>)
    ensures
        match r {
            Some(v) => tagged_name(tags_of(*tags)) == Some(v@),
            None => tagged_name(tags_of(*tags)) is None,
        },
{
    let list = match tags {
        Some(t) => t,
        None => {
            return None;
        },
    };
    assert(tags_of(*tags) == Some(described_tags(list@)));
    let wanted = owned("Name");
    let mut i: usize = 0;
    while i < list.len()
        invariant
            i <= list.len(),
            wanted@ == "Name"@,
            tags_of(*tags) == Some(described_tags(list@)),
            forall|j: int| 0 <= j < i ==> (#[trigger] described_tags(list@)[j]).0 != "Name"@,
        decreases list.len() - i,
    {
        proof {
            reveal_strlit("Name");
            assert("Name"@.len() == 4);
            assert(described_tags(list@)[i as int] == (
                or_empty(list@[i as int].key),
                some_view(list@[i as int].value),
            ));
        }
        let named = match &list[i].key {
            Some(k) => *k == wanted,
            None => false,
        };
        if named {
            proof {
                lemma_index_of_is(described_tags(list@), "Name"@, i as int);
                assert(lookup(described_tags(list@), "Name"@) == Some(
                    some_view(list@[i as int].value),
                ));
            }
            let value = &list[i].value;
            return match value {
                Some(v) => Some(v),
                None => None,
            };
        }
        i += 1;
    }
    proof {
        lemma_index_of_is(described_tags(list@), "Name"@, list@.len() as int);
    }
    None
}

/// The host record of an instance of which every field may be missing.
pub fn host_of_sdk(instance: &Described, profile: &str, proxy_jump: Option<&str>) -> (r: Option<
    HostRecord,
>)
    ensures
        match r {
            Some(h) => sdk_host(instance@, profile@, option_view(proxy_jump)) == Some(h@),
            None => sdk_host(instance@, profile@, option_view(proxy_jump)) is None,
        },
{
    let name = match name_of_tags(&instance.tags) {
        Some(v) => v,
        None => {
            return None;
        },
    };
    let key = match &instance.key_name {
        Some(k) => k,
        None => {
            return None;
        },
    };
    let found = if proxy_jump.is_some() {
        &instance.private_ip_address
    } else {
        &instance.public_ip_address
    };
    let address = match found {
        Some(a) => a,
        None => {
            return None;
        },
    };
    let platform = match &instance.platform_details {
        Some(p) => p,
        None => {
            return None;
        },
    };
    Some(
        HostRecord {
            name: replace_char(name.as_str(), ' ', '-'),
            address: address.clone(),
            identity_file_path: key.clone(),
            platform: platform.clone(),
            profile: owned(profile),
            via_bastion: match proxy_jump {
                Some(p) => Some(owned(p)),
                None => None,
            },
        },
    )
}

/// The host records that the reservations give the profile `profile`, in
/// their order. An instance that lacks a field is left out.
pub fn update(reservations: &Vec<Vec<Described>>, profile: &str, proxy_jump: Option<&str>) -> (r: Vec<
    HostRecord,
>)
    ensures
        hosts_view(r@) == sdk_described_upto(
            reservations_view(reservations@),
            reservations@.len() as int,
            profile@,
            option_view(proxy_jump),
        ),
{
    let ghost all = reservations_view(reservations@);
    let mut hosts: Vec<HostRecord> = Vec::new();
    let mut i: usize = 0;
    while i < reservations.len()
        invariant
            i <= reservations.len(),
            all == reservations_view(reservations@),
            hosts_view(hosts@) == sdk_described_upto(
                all,
                i as int,
                profile@,
                option_view(proxy_jump),
            ),
        decreases reservations.len() - i,
    {
        let instances = &reservations[i];
        let ghost start = hosts@;
        assert(all[i as int] == described_view(instances@));
        let mut j: usize = 0;
        while j < instances.len()
            invariant
                j <= instances.len(),
                hosts_view(hosts@) == hosts_view(start) + sdk_reserved_upto(
                    described_view(instances@),
                    j as int,
                    profile@,
                    option_view(proxy_jump),
                ),
            decreases instances.len() - j,
        {
            assert(described_view(instances@)[j as int] == instances@[j as int]@);
            match host_of_sdk(&instances[j], profile, proxy_jump) {
                Some(h) => {
                    let ghost before = hosts@;
                    hosts.push(h);
                    assert(hosts_view(hosts@) == hosts_view(before).push(h@));
                },
                None => {},
            }
            j += 1;
        }
        i += 1;
    }
    hosts
}

} // verus!
