//! An optional text that is never the empty text.

use vstd::prelude::*;
use crate::text::owned;

verus! {

/// A text that is either absent or not empty: the empty text counts as
/// absent.
pub struct OptionNotEmptyString(Option<String>);

/// What a text amounts to: nothing when it is empty, itself otherwise.
pub open spec fn kept(s: Seq<char>) -> Option<Seq<char>> {
    if s.len() == 0 {
        None
    } else {
        Some(s)
    }
}

impl View for OptionNotEmptyString {
    type V = Option<Seq<char>>;

    closed spec fn view(&self) -> Option<Seq<char>> {
        match self.0 {
            Some(s) => Some(s@),
            None => None,
        }
    }
}

impl OptionNotEmptyString {
    #[verifier::type_invariant]
    spec fn holds_no_empty_text(&self) -> bool {
        self.0 matches Some(s) ==> s@.len() > 0
    }

    /// The text `s`, absent when it is empty.
    pub fn new(s: String) -> (r: Self)
        ensures
            r@ == kept(s@),
    {
        if s.as_str().is_empty() {
            return OptionNotEmptyString(None);
        }
        OptionNotEmptyString(Some(s))
    }

    /// The text `s`, absent when it is empty.
    pub fn from_str(s: &str) -> (r: Self)
        ensures
            r@ == kept(s@),
    {
        OptionNotEmptyString::new(owned(s))
    }

    /// The text `s`, absent when there is none or it is empty.
    pub fn from_option(s: Option<String>) -> (r: Self)
        ensures
            r@ == match s {
                Some(t) => kept(t@),
                None => None,
            },
    {
        match s {
            Some(t) => OptionNotEmptyString::new(t),
            None => OptionNotEmptyString(None),
        }
    }

    /// The text `s`, absent when there is none or it is empty.
    pub fn from_option_str(s: Option<&str>) -> (r: Self)
        ensures
            r@ == match s {
                Some(t) => kept(t@),
                None => None,
            },
    {
        match s {
            Some(t) => OptionNotEmptyString::from_str(t),
            None => OptionNotEmptyString(None),
        }
    }

    /// The text, if there is one; it is never empty.
    pub fn as_option(&self) -> (r: &Option<String>)
        ensures
            match r {
                Some(s) => self@ == Some(s@) && s@.len() > 0,
                None => self@ is None,
            },
    {
        proof {
            use_type_invariant(self);
        }
        &self.0
    }

    /// The text, or `None` spelled out where there is none.
    pub fn to_text(&self) -> (r: String)
        ensures
            r@ == match self@ {
                Some(s) => s,
                None => "None"@,
            },
    {
        match &self.0 {
            Some(s) => s.clone(),
            None => owned("None"),
        }
    }
}


impl From<String> for OptionNotEmptyString {
    fn from(s: String) -> (r: Self)
        ensures
            r@ == kept(s@),
    {
        OptionNotEmptyString::new(s)
    }
}

impl vstd::std_specs::convert::FromSpecImpl<String> for OptionNotEmptyString {
    open spec fn obeys_from_spec() -> bool {
        false
    }

    open spec fn from_spec(s: String) -> Self {
        vstd::pervasive::arbitrary()
    }
}

impl From<&str> for OptionNotEmptyString {
    fn from(s: &str) -> (r: Self)
        ensures
            r@ == kept(s@),
    {
        OptionNotEmptyString::from_str(s)
    }
}

impl vstd::std_specs::convert::FromSpecImpl<&str> for OptionNotEmptyString {
    open spec fn obeys_from_spec() -> bool {
        false
    }

    open spec fn from_spec(s: &str) -> Self {
        vstd::pervasive::arbitrary()
    }
}

impl From<Option<String>> for OptionNotEmptyString {
    fn from(s: Option<String>) -> (r: Self)
        ensures
            r@ == match s {
                Some(t) => kept(t@),
                None => None,
            },
    {
        OptionNotEmptyString::from_option(s)
    }
}

impl vstd::std_specs::convert::FromSpecImpl<Option<String>> for OptionNotEmptyString {
    open spec fn obeys_from_spec() -> bool {
        false
    }

    open spec fn from_spec(s: Option<String>) -> Self {
        vstd::pervasive::arbitrary()
    }
}

impl From<Option<&str>> for OptionNotEmptyString {
    fn from(s: Option<&str>) -> (r: Self)
        ensures
            r@ == match s {
                Some(t) => kept(t@),
                None => None,
            },
    {
        OptionNotEmptyString::from_option_str(s)
    }
}

impl vstd::std_specs::convert::FromSpecImpl<Option<&str>> for OptionNotEmptyString {
    open spec fn obeys_from_spec() -> bool {
        false
    }

    open spec fn from_spec(s: Option<&str>) -> Self {
        vstd::pervasive::arbitrary()
    }
}


impl core::ops::Deref for OptionNotEmptyString {
    type Target = Option<String>;

    fn deref(&self) -> (r: &Option<String>)
        ensures
            match r {
                Some(s) => self@ == Some(s@),
                None => self@ is None,
            },
    {
        &self.0
    }
}

} // verus!
