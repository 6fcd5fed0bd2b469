//! The session's language as a configuration value.
use crate::config_item::{ConfigValue, ValidationError};
use crate::i18n::Language;
use vstd::prelude::*;

verus! {

#[derive(Clone, Copy, PartialEq, Eq, Structural, Debug)]
pub struct DefaultLanguage(pub Language);

impl ConfigValue for DefaultLanguage {
    open spec fn inv(&self) -> bool {
        true
    }

    open spec fn string_rep(&self) -> Seq<char> {
        match self.0 {
            Language::English => "english"@,
        }
    }

    open spec fn accepts(s: Seq<char>) -> bool {
        s == "english"@
    }

    open spec fn canon(s: Seq<char>) -> Seq<char> {
        s
    }

    open spec fn congruent(&self, other: &Self) -> bool {
        self.0 == other.0
    }

    fn validate(&self) -> (r: Result<(), ValidationError>) {
        Ok(())
    }

    fn update(&mut self, value: &str) -> (r: Result<(), ValidationError>) {
        if crate::strutil::str_eq(value, "english") {
            *self = DefaultLanguage(Language::English);
            Ok(())
        } else {
            Err(ValidationError::UnsupportedLanguage)
        }
    }

    fn get_value(&self) -> (r: String) {
        match self.0 {
            Language::English => crate::strutil::str_to_string("english"),
        }
    }

    proof fn lemma_rep_roundtrip(&self) {
        reveal_strlit("english");
    }

    proof fn lemma_rep_injective(&self, other: &Self) {
    }
}

} // verus!
