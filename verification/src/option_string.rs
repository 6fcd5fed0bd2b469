//! An optional string value. Unset prints as the empty string, and updating
//! with the empty string unsets it, so a set value is never empty.
use crate::config_item::{ConfigValue, ValidationError};
use crate::strutil::line_free;
use vstd::prelude::*;

verus! {

#[derive(Clone, Debug)]
pub struct OptionString(pub Option<String>);

impl OptionString {
    /// The held text, if any.
    pub open spec fn dv(&self) -> Option<Seq<char>> {
        match self.0 {
            Some(s) => Some(s@),
            None => None,
        }
    }

    pub fn get_inner_value(&self) -> (r: Option<String>)
        ensures
            r.deep_view() == self.dv(),
    {
        match &self.0 {
            Some(s) => Some(s.clone()),
            None => None,
        }
    }

    pub fn unset() -> (r: Self)
        ensures
            r.0 is None,
    {
        Self(None)
    }
}

impl ConfigValue for OptionString {
    open spec fn inv(&self) -> bool {
        match self.0 {
            Some(s) => s@.len() > 0 && line_free(s@),
            None => true,
        }
    }

    open spec fn string_rep(&self) -> Seq<char> {
        match self.0 {
            Some(s) => s@,
            None => Seq::<char>::empty(),
        }
    }

    open spec fn accepts(s: Seq<char>) -> bool {
        line_free(s)
    }

    open spec fn canon(s: Seq<char>) -> Seq<char> {
        s
    }

    open spec fn congruent(&self, other: &Self) -> bool {
        self.dv() == other.dv()
    }

    fn validate(&self) -> (r: Result<(), ValidationError>) {
        match &self.0 {
            None => Ok(()),
            Some(s) => {
                if s.as_str().unicode_len() == 0 || crate::strutil::str_contains_char(
                    s.as_str(),
                    '\n',
                ) {
                    Err(ValidationError::DisallowedCharacter)
                } else {
                    Ok(())
                }
            },
        }
    }

    fn update(&mut self, value: &str) -> (r: Result<(), ValidationError>) {
        if crate::strutil::str_contains_char(value, '\n') {
            Err(ValidationError::DisallowedCharacter)
        } else if value.unicode_len() == 0 {
            *self = OptionString(None);
            proof {
                assert(self.string_rep() =~= value@);
            }
            Ok(())
        } else {
            *self = OptionString(Some(crate::strutil::str_to_string(value)));
            Ok(())
        }
    }

    fn get_value(&self) -> (r: String) {
        match &self.0 {
            Some(s) => s.clone(),
            None => String::new(),
        }
    }

    proof fn lemma_rep_roundtrip(&self) {
    }

    proof fn lemma_rep_injective(&self, other: &Self) {
    }
}

} // verus!
