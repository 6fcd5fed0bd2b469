//! The optional yes/no/ask default for a confirmation step.
use crate::config_item::{ConfigValue, ValidationError};
use crate::strutil::line_free;
use vstd::prelude::*;

verus! {

#[derive(Clone, Copy, PartialEq, Eq, Structural, Debug)]
pub enum DefaultBehavior {
    Yes,
    No,
    Ask,
}

impl DefaultBehavior {
    pub fn is_yes(&self) -> (r: bool)
        ensures
            r == (*self == DefaultBehavior::Yes),
    {
        match self {
            DefaultBehavior::Yes => true,
            _ => false,
        }
    }

    pub fn is_no(&self) -> (r: bool)
        ensures
            r == (*self == DefaultBehavior::No),
    {
        match self {
            DefaultBehavior::No => true,
            _ => false,
        }
    }

    pub fn is_ask(&self) -> (r: bool)
        ensures
            r == (*self == DefaultBehavior::Ask),
    {
        match self {
            DefaultBehavior::Ask => true,
            _ => false,
        }
    }
}

/// A behavior default that may be unset. Unset prints as the empty string.
#[derive(Clone, Copy, PartialEq, Eq, Structural, Debug)]
pub struct DefaultBehaviorOption(pub Option<DefaultBehavior>);

impl DefaultBehaviorOption {
    pub fn get_inner_value(&self) -> (r: Option<DefaultBehavior>)
        ensures
            r == self.0,
    {
        self.0
    }

    pub fn unset() -> (r: Self)
        ensures
            r.0 is None,
    {
        Self(None)
    }
}

impl ConfigValue for DefaultBehaviorOption {
    open spec fn inv(&self) -> bool {
        true
    }

    open spec fn string_rep(&self) -> Seq<char> {
        match self.0 {
            Some(DefaultBehavior::Yes) => "yes"@,
            Some(DefaultBehavior::No) => "no"@,
            Some(DefaultBehavior::Ask) => "ask"@,
            None => Seq::<char>::empty(),
        }
    }

    open spec fn accepts(s: Seq<char>) -> bool {
        s.len() == 0 || s == "yes"@ || s == "no"@ || s == "ask"@
    }

    open spec fn canon(s: Seq<char>) -> Seq<char> {
        s
    }

    open spec fn congruent(&self, other: &Self) -> bool {
        self.0 == other.0
    }

    fn validate(&self) -> (r: Result<(), ValidationError>) {
        Ok(())
    }

    fn update(&mut self, value: &str) -> (r: Result<(), ValidationError>) {
        if value.unicode_len() == 0 {
            *self = DefaultBehaviorOption(None);
            proof {
                assert(self.string_rep() =~= value@);
            }
            Ok(())
        } else if crate::strutil::str_eq(value, "yes") {
            *self = DefaultBehaviorOption(Some(DefaultBehavior::Yes));
            Ok(())
        } else if crate::strutil::str_eq(value, "no") {
            *self = DefaultBehaviorOption(Some(DefaultBehavior::No));
            Ok(())
        } else if crate::strutil::str_eq(value, "ask") {
            *self = DefaultBehaviorOption(Some(DefaultBehavior::Ask));
            Ok(())
        } else {
            Err(ValidationError::InvalidBehavior)
        }
    }

    fn get_value(&self) -> (r: String) {
        match self.0 {
            Some(DefaultBehavior::Yes) => crate::strutil::str_to_string("yes"),
            Some(DefaultBehavior::No) => crate::strutil::str_to_string("no"),
            Some(DefaultBehavior::Ask) => crate::strutil::str_to_string("ask"),
            None => String::new(),
        }
    }

    proof fn lemma_rep_roundtrip(&self) {
        reveal_strlit("yes");
        reveal_strlit("no");
        reveal_strlit("ask");
    }

    proof fn lemma_rep_injective(&self, other: &Self) {
        reveal_strlit("yes");
        reveal_strlit("no");
        reveal_strlit("ask");
        assert(("yes"@).len() == 3);
        assert(("no"@).len() == 2);
        assert(("ask"@).len() == 3);
        assert(("yes"@)[0] == 'y');
        assert(("ask"@)[0] == 'a');
    }
}

} // verus!
