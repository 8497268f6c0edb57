//! Readers for the two line-based formats of this tool, and what they
//! share: named sections of keys and values, filled line by line.

use vstd::prelude::*;
use crate::name_map::{
    has_name,
    index_of,
    lemma_index_of,
    lemma_upsert,
    upsert,
    NameMap,
};
use crate::text::owned;

pub mod ini_parser;
pub mod ssh_config_parser;

verus! {

/// `sections` with a section named `name`: an empty one at the end, where
/// there was none.
pub open spec fn with_section(
    sections: Seq<(Seq<char>, Seq<(Seq<char>, Seq<char>)>)>,
    name: Seq<char>,
) -> Seq<(Seq<char>, Seq<(Seq<char>, Seq<char>)>)> {
    if has_name(sections, name) {
        sections
    } else {
        sections.push((name, Seq::empty()))
    }
}

/// `sections` with `key` bound to `value` in the section named `name`,
/// which is added where there was none.
pub open spec fn with_property(
    sections: Seq<(Seq<char>, Seq<(Seq<char>, Seq<char>)>)>,
    name: Seq<char>,
    key: Seq<char>,
    value: Seq<char>,
) -> Seq<(Seq<char>, Seq<(Seq<char>, Seq<char>)>)> {
    let s = with_section(sections, name);
    let i = index_of(s, name);
    s.update(i, (name, upsert(s[i].1, key, value)))
}

/// Adds an empty section named `name`, unless there is one.
pub fn add_section(sections: &mut NameMap<NameMap<String>>, name: &str)
    ensures
        final(sections)@ == with_section(old(sections)@, name@),
{
    if !sections.contains_key(name) {
        sections.insert(owned(name), NameMap::new());
    }
}

/// Binds `key` to `value` in the section named `name`, which is added where
/// there was none.
pub fn set_property(sections: &mut NameMap<NameMap<String>>, name: &str, key: String, value: String)
    ensures
        final(sections)@ == with_property(old(sections)@, name@, key@, value@),
{
    let _ = sections.len();
    add_section(sections, name);
    let ghost s = sections@;
    proof {
        lemma_index_of(old(sections)@, name@);
        lemma_index_of(s, name@);
        if !has_name(old(sections)@, name@) {
            lemma_upsert(old(sections)@, name@, Seq::<(Seq<char>, Seq<char>)>::empty());
        }
    }
    match sections.position(name) {
        Some(i) => {
            let mut properties = sections.swap_value(i, NameMap::new());
            properties.insert(key, value);
            let _ = sections.swap_value(i, properties);
            assert(sections@ == s.update(i as int, (name@, upsert(s[i as int].1, key@, value@))));
        },
        None => {
            assert(false);
        },
    }
}

} // verus!
