//! The configuration store's value model: every stored value knows how to
//! validate itself, update itself from a raw string, and print itself, and the
//! three fit together so a printed value always reads back as itself.
use crate::strutil::line_free;
use vstd::prelude::*;

verus! {

/// A rejected configuration value. The offending `set` is refused and the
/// prior value is left intact.
#[derive(Clone, Copy, PartialEq, Eq, Structural, Debug)]
pub enum ValidationError {
    /// The value was not `true` or `false`.
    InvalidBoolean,
    /// The value named no known default behavior.
    InvalidBehavior,
    /// The value named no supported language.
    UnsupportedLanguage,
    /// The value held a line break, which the store's line-per-key file cannot
    /// carry.
    DisallowedCharacter,
}

impl ValidationError {
    /// A short human-readable account of the rejection.
    pub fn describe(&self) -> (r: String)
        ensures
            *self == ValidationError::InvalidBoolean ==> r@ == "Invalid value for boolean"@,
            *self == ValidationError::InvalidBehavior ==> r@ == "Invalid value for default behavior"@,
            *self == ValidationError::UnsupportedLanguage ==> r@ == "Unsupported language"@,
            *self == ValidationError::DisallowedCharacter ==> r@
                == "Value must not contain a line break"@,
    {
        match self {
            ValidationError::InvalidBoolean => crate::strutil::str_to_string(
                "Invalid value for boolean",
            ),
            ValidationError::InvalidBehavior => crate::strutil::str_to_string(
                "Invalid value for default behavior",
            ),
            ValidationError::UnsupportedLanguage => crate::strutil::str_to_string(
                "Unsupported language",
            ),
            ValidationError::DisallowedCharacter => crate::strutil::str_to_string(
                "Value must not contain a line break",
            ),
        }
    }
}

/// What it means to be a configuration value: a validity invariant, a printed
/// form, and an update relation, tied together by the round-trip laws.
pub trait ConfigValue: Sized {
    /// The values the store accepts as stored state.
    spec fn inv(&self) -> bool;

    /// The printed form, as `get_value` returns it.
    spec fn string_rep(&self) -> Seq<char>;

    /// Which raw strings an update accepts.
    spec fn accepts(s: Seq<char>) -> bool;

    /// The printed form the value updated from `s` will have.
    spec fn canon(s: Seq<char>) -> Seq<char>;

    /// Whether two values carry the same information.
    spec fn congruent(&self, other: &Self) -> bool;

    fn validate(&self) -> (r: Result<(), ValidationError>)
        ensures
            r is Ok <==> self.inv(),
    ;

    fn update(&mut self, value: &str) -> (r: Result<(), ValidationError>)
        ensures
            r is Ok <==> Self::accepts(value@),
            Self::accepts(value@) ==> final(self).inv() && final(self).string_rep() == Self::canon(
                value@,
            ),
            !Self::accepts(value@) ==> *final(self) == *old(self),
    ;

    fn get_value(&self) -> (r: String)
        ensures
            r@ == self.string_rep(),
    ;

    /// A valid value's printed form is accepted back, reprints itself, and
    /// fits on one line of the store's file.
    proof fn lemma_rep_roundtrip(&self)
        requires
            self.inv(),
        ensures
            Self::accepts(self.string_rep()),
            Self::canon(self.string_rep()) == self.string_rep(),
            line_free(self.string_rep()),
    ;

    /// The printed form determines the value: equal prints mean congruent
    /// values.
    proof fn lemma_rep_injective(&self, other: &Self)
        requires
            self.inv(),
            other.inv(),
            self.string_rep() == other.string_rep(),
        ensures
            self.congruent(other),
    ;
}

impl ConfigValue for bool {
    open spec fn inv(&self) -> bool {
        true
    }

    open spec fn string_rep(&self) -> Seq<char> {
        if *self {
            "true"@
        } else {
            "false"@
        }
    }

    open spec fn accepts(s: Seq<char>) -> bool {
        s == "true"@ || s == "false"@
    }

    open spec fn canon(s: Seq<char>) -> Seq<char> {
        s
    }

    open spec fn congruent(&self, other: &Self) -> bool {
        *self == *other
    }

    fn validate(&self) -> (r: Result<(), ValidationError>) {
        Ok(())
    }

    fn update(&mut self, value: &str) -> (r: Result<(), ValidationError>) {
        if crate::strutil::str_eq(value, "true") {
            *self = true;
            Ok(())
        } else if crate::strutil::str_eq(value, "false") {
            *self = false;
            Ok(())
        } else {
            Err(ValidationError::InvalidBoolean)
        }
    }

    fn get_value(&self) -> (r: String) {
        if *self {
            crate::strutil::str_to_string("true")
        } else {
            crate::strutil::str_to_string("false")
        }
    }

    proof fn lemma_rep_roundtrip(&self) {
        reveal_strlit("true");
        reveal_strlit("false");
    }

    proof fn lemma_rep_injective(&self, other: &Self) {
        if *self != *other {
            reveal_strlit("true");
            reveal_strlit("false");
            assert(("true"@).len() != ("false"@).len());
        }
    }
}

impl ConfigValue for String {
    open spec fn inv(&self) -> bool {
        line_free(self@)
    }

    open spec fn string_rep(&self) -> Seq<char> {
        self@
    }

    open spec fn accepts(s: Seq<char>) -> bool {
        line_free(s)
    }

    open spec fn canon(s: Seq<char>) -> Seq<char> {
        s
    }

    open spec fn congruent(&self, other: &Self) -> bool {
        self@ == other@
    }

    fn validate(&self) -> (r: Result<(), ValidationError>) {
        if crate::strutil::str_contains_char(self.as_str(), '\n') {
            Err(ValidationError::DisallowedCharacter)
        } else {
            Ok(())
        }
    }

    fn update(&mut self, value: &str) -> (r: Result<(), ValidationError>) {
        if crate::strutil::str_contains_char(value, '\n') {
            Err(ValidationError::DisallowedCharacter)
        } else {
            *self = crate::strutil::str_to_string(value);
            Ok(())
        }
    }

    fn get_value(&self) -> (r: String) {
        self.clone()
    }

    proof fn lemma_rep_roundtrip(&self) {
    }

    proof fn lemma_rep_injective(&self, other: &Self) {
    }
}

/// One slot of the configuration store.
pub struct ConfigItem<T> where T: ConfigValue {
    pub value: T,
}

impl<T> ConfigItem<T> where T: ConfigValue {
    pub fn new(value: T) -> (r: Self)
        ensures
            r.value == value,
    {
        Self { value }
    }

    pub fn update(&mut self, value: &str) -> (r: Result<(), ValidationError>)
        ensures
            r is Ok <==> T::accepts(value@),
            T::accepts(value@) ==> final(self).value.inv() && final(self).value.string_rep()
                == T::canon(value@),
            !T::accepts(value@) ==> *final(self) == *old(self),
    {
        self.value.update(value)
    }

    pub fn get_value(&self) -> (r: String)
        ensures
            r@ == self.value.string_rep(),
    {
        self.value.get_value()
    }

    pub fn get_value_ref(&self) -> (r: &T)
        ensures
            r == &self.value,
    {
        &self.value
    }
}

} // verus!
