//! The configuration record under its session defaults, with update and
//! read-out by key.
use crate::config_data::ConfigData;
use crate::config_item::{ConfigItem, ConfigValue, ValidationError};
use crate::config_key::{key_name_spec, ConfigKey};
use crate::default_behavior::DefaultBehaviorOption;
use crate::default_language::DefaultLanguage;
use crate::i18n::Language;
use crate::option_string::OptionString;
use crate::strutil::line_free;
use vstd::prelude::*;

verus! {

pub struct AutocommitConfig {
    pub config_data: ConfigData,
}

/// Whether a record holds exactly the session defaults for the given author.
pub open spec fn default_config_spec(c: ConfigData, name: Seq<char>, email: Seq<char>) -> bool {
    &&& c.description_enabled.value == false
    &&& c.emoji_enabled.value == false
    &&& c.language.value.0 == Language::English
    &&& c.name.value@ == name
    &&& c.email.value@ == email
    &&& c.default_commit_message.value.dv() is None
    &&& c.default_commit_behavior.value.0 is None
    &&& c.default_push_behavior.value.0 is None
    &&& c.open_ai_api_key.value.dv() is None
    &&& c.api_host.value@ == "https://api.openai.com"@
    &&& c.open_ai_model.value.dv() == Some("gpt-3.5-turbo"@)
}

impl AutocommitConfig {
    /// Builds the default configuration around the repository's author
    /// identity; an identity that cannot sit in the store is rejected.
    pub fn new(name: String, email: String) -> (r: Result<AutocommitConfig, ValidationError>)
        ensures
            r is Ok <==> line_free(name@) && line_free(email@),
            r matches Ok(c) ==> default_config_spec(c.config_data, name@, email@)
                && c.config_data.inv(),
    {
        if crate::strutil::str_contains_char(name.as_str(), '\n') || crate::strutil::str_contains_char(
            email.as_str(),
            '\n',
        ) {
            return Err(ValidationError::DisallowedCharacter);
        }
        let model = crate::strutil::str_to_string("gpt-3.5-turbo");
        proof {
            reveal_strlit("gpt-3.5-turbo");
            reveal_strlit("https://api.openai.com");
            assert(("gpt-3.5-turbo"@).len() == 13);
            assert(!crate::strutil::seq_contains_char("gpt-3.5-turbo"@, '\n'));
            assert(!crate::strutil::seq_contains_char("https://api.openai.com"@, '\n'));
        }
        let config_data = ConfigData {
            description_enabled: ConfigItem::new(false),
            emoji_enabled: ConfigItem::new(false),
            language: ConfigItem::new(DefaultLanguage(Language::English)),
            name: ConfigItem::new(name),
            email: ConfigItem::new(email),
            default_commit_message: ConfigItem::new(OptionString::unset()),
            default_commit_behavior: ConfigItem::new(DefaultBehaviorOption::unset()),
            default_push_behavior: ConfigItem::new(DefaultBehaviorOption::unset()),
            open_ai_api_key: ConfigItem::new(OptionString::unset()),
            api_host: ConfigItem::new(crate::strutil::str_to_string("https://api.openai.com")),
            open_ai_model: ConfigItem::new(OptionString(Some(model))),
        };
        Ok(AutocommitConfig { config_data })
    }

    /// Replaces the value under `key`; a rejected value leaves the
    /// configuration untouched.
    pub fn update_config(&mut self, key: &ConfigKey, value: &str) -> (r: Result<
        (),
        ValidationError,
    >)
        ensures
            r is Ok <==> ConfigData::accepts_value(*key, value@),
            r is Ok ==> ConfigData::same_except(
                &old(self).config_data,
                &final(self).config_data,
                *key,
            ) && final(self).config_data.rep_of(*key) == value@ && (old(self).config_data.inv()
                ==> final(self).config_data.inv()),
            r is Err ==> *final(self) == *old(self),
    {
        self.config_data.update_config(key, value)
    }

    /// Prints the value under a key.
    pub fn get_config_value(&self, key: &ConfigKey) -> (r: String)
        ensures
            r@ == self.config_data.rep_of(*key),
    {
        self.config_data.get_value(key)
    }

    /// Prints the named keys with their values, in the order given.
    pub fn get_config_values(&self, keys: &[ConfigKey]) -> (r: Vec<(String, String)>)
        ensures
            r@.len() == keys@.len(),
            forall|i: int|
                0 <= i < keys@.len() ==> (#[trigger] r@[i]).0@ == key_name_spec(keys@[i])
                    && r@[i].1@ == self.config_data.rep_of(keys@[i]),
    {
        let mut out: Vec<(String, String)> = Vec::new();
        let mut i: usize = 0;
        while i < keys.len()
            invariant
                i <= keys@.len(),
                out@.len() == i,
                forall|j: int|
                    0 <= j < i ==> (#[trigger] out@[j]).0@ == key_name_spec(keys@[j])
                        && out@[j].1@ == self.config_data.rep_of(keys@[j]),
            decreases keys@.len() - i,
        {
            let key = keys[i];
            out.push((key.name(), self.get_config_value(&key)));
            i = i + 1;
        }
        out
    }
}

} // verus!
