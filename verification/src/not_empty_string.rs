//! A text that is either absent or not empty.

use vstd::prelude::*;
use crate::text::owned;

verus! {

/// A text that is either absent or not empty: the empty text counts as
/// absent.
pub struct NotEmptyString(Option<String>);

/// What a text amounts to: nothing when it is empty, itself otherwise.
pub open spec fn not_empty(s: Seq<char>) -> Option<Seq<char>> {
    if s.len() == 0 {
        None
    } else {
        Some(s)
    }
}

impl View for NotEmptyString {
    type V = Option<Seq<char>>;

    closed spec fn view(&self) -> Option<Seq<char>> {
        match self.0 {
            Some(s) => Some(s@),
            None => None,
        }
    }
}

impl NotEmptyString {
    #[verifier::type_invariant]
    spec fn holds_no_empty_text(&self) -> bool {
        self.0 matches Some(s) ==> s@.len() > 0
    }

    /// The text `s`, absent when it is empty.
    pub fn new(s: String) -> (r: Self)
        ensures
            r@ == not_empty(s@),
    {
        if s.as_str().is_empty() {
            return NotEmptyString(None);
        }
        NotEmptyString(Some(s))
    }

    /// The absent text.
    pub fn none() -> (r: Self)
        ensures
            r@ is None,
    {
        NotEmptyString(None)
    }

    /// The text `s`, absent when it is empty.
    pub fn from_str(s: &str) -> (r: Self)
        ensures
            r@ == not_empty(s@),
    {
        NotEmptyString::new(owned(s))
    }

    /// The text `s`, absent when there is none or it is empty.
    pub fn from_option(s: Option<String>) -> (r: Self)
        ensures
            r@ == match s {
                Some(t) => not_empty(t@),
                None => None,
            },
    {
        match s {
            Some(t) => NotEmptyString::new(t),
            None => NotEmptyString(None),
        }
    }

    /// The text `s`, absent when there is none or it is empty.
    pub fn from_option_str(s: Option<&str>) -> (r: Self)
        ensures
            r@ == match s {
                Some(t) => not_empty(t@),
                None => None,
            },
    {
        match s {
            Some(t) => NotEmptyString::from_str(t),
            None => NotEmptyString(None),
        }
    }

    /// The text, if there is one; it is never empty.
    pub fn as_option(&self) -> (r: &Option<String>)
        ensures
            match r {
                Some(s) => self@ == Some(s@) && s@.len() > 0,
                None => self@ is None,
            },
    {
        proof {
            use_type_invariant(self);
        }
        &self.0
    }

    /// The text, or `None` spelled out where there is none.
    pub fn to_text(&self) -> (r: String)
        ensures
            r@ == match self@ {
                Some(s) => s,
                None => "None"@,
            },
    {
        match &self.0 {
            Some(s) => s.clone(),
            None => owned("None"),
        }
    }
}


impl From<String> for NotEmptyString {
    fn from(s: String) -> (r: Self)
        ensures
            r@ == not_empty(s@),
    {
        NotEmptyString::new(s)
    }
}

impl vstd::std_specs::convert::FromSpecImpl<String> for NotEmptyString {
    open spec fn obeys_from_spec() -> bool {
        false
    }

    open spec fn from_spec(s: String) -> Self {
        vstd::pervasive::arbitrary()
    }
}

impl From<&str> for NotEmptyString {
    fn from(s: &str) -> (r: Self)
        ensures
            r@ == not_empty(s@),
    {
        NotEmptyString::from_str(s)
    }
}

impl vstd::std_specs::convert::FromSpecImpl<&str> for NotEmptyString {
    open spec fn obeys_from_spec() -> bool {
        false
    }

    open spec fn from_spec(s: &str) -> Self {
        vstd::pervasive::arbitrary()
    }
}

impl From<Option<String>> for NotEmptyString {
    fn from(s: Option<String>) -> (r: Self)
        ensures
            r@ == match s {
                Some(t) => not_empty(t@),
                None => None,
            },
    {
        NotEmptyString::from_option(s)
    }
}

impl vstd::std_specs::convert::FromSpecImpl<Option<String>> for NotEmptyString {
    open spec fn obeys_from_spec() -> bool {
        false
    }

    open spec fn from_spec(s: Option<String>) -> Self {
        vstd::pervasive::arbitrary()
    }
}

impl From<Option<&str>> for NotEmptyString {
    fn from(s: Option<&str>) -> (r: Self)
        ensures
            r@ == match s {
                Some(t) => not_empty(t@),
                None => None,
            },
    {
        NotEmptyString::from_option_str(s)
    }
}

impl vstd::std_specs::convert::FromSpecImpl<Option<&str>> for NotEmptyString {
    open spec fn obeys_from_spec() -> bool {
        false
    }

    open spec fn from_spec(s: Option<&str>) -> Self {
        vstd::pervasive::arbitrary()
    }
}


impl core::ops::Deref for NotEmptyString {
    type Target = Option<String>;

    fn deref(&self) -> (r: &Option<String>)
        ensures
            match r {
                Some(s) => self@ == Some(s@),
                None => self@ is None,
            },
    {
        &self.0
    }
}

} // verus!
