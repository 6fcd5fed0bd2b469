//! The configuration record: one slot per key, dispatch by key, and the
//! read-only snapshot a commit session works from.
use crate::config_item::{ConfigItem, ConfigValue, ValidationError};
use crate::config_key::{key_order, ConfigKey};
use crate::default_behavior::{DefaultBehavior, DefaultBehaviorOption};
use crate::default_language::DefaultLanguage;
use crate::i18n::Language;
use crate::option_string::OptionString;
use vstd::prelude::*;

verus! {

pub struct ConfigData {
    pub description_enabled: ConfigItem<bool>,
    pub emoji_enabled: ConfigItem<bool>,
    pub language: ConfigItem<DefaultLanguage>,
    pub name: ConfigItem<String>,
    pub email: ConfigItem<String>,
    pub default_commit_message: ConfigItem<OptionString>,
    pub default_commit_behavior: ConfigItem<DefaultBehaviorOption>,
    pub default_push_behavior: ConfigItem<DefaultBehaviorOption>,
    pub open_ai_api_key: ConfigItem<OptionString>,
    pub api_host: ConfigItem<String>,
    pub open_ai_model: ConfigItem<OptionString>,
}

impl ConfigData {
    /// Every slot holds a value the store accepts.
    pub open spec fn inv(&self) -> bool {
        &&& self.description_enabled.value.inv()
        &&& self.emoji_enabled.value.inv()
        &&& self.language.value.inv()
        &&& self.name.value.inv()
        &&& self.email.value.inv()
        &&& self.default_commit_message.value.inv()
        &&& self.default_commit_behavior.value.inv()
        &&& self.default_push_behavior.value.inv()
        &&& self.open_ai_api_key.value.inv()
        &&& self.api_host.value.inv()
        &&& self.open_ai_model.value.inv()
    }

    /// The printed form of the value stored under a key.
    pub open spec fn rep_of(&self, k: ConfigKey) -> Seq<char> {
        match k {
            ConfigKey::OpenAiApiKey => self.open_ai_api_key.value.string_rep(),
            ConfigKey::OpenAiModel => self.open_ai_model.value.string_rep(),
            ConfigKey::ApiHost => self.api_host.value.string_rep(),
            ConfigKey::DescriptionEnabled => self.description_enabled.value.string_rep(),
            ConfigKey::EmojiEnabled => self.emoji_enabled.value.string_rep(),
            ConfigKey::Language => self.language.value.string_rep(),
            ConfigKey::Name => self.name.value.string_rep(),
            ConfigKey::Email => self.email.value.string_rep(),
            ConfigKey::DefaultCommitMessage => self.default_commit_message.value.string_rep(),
            ConfigKey::DefaultCommitBehavior => self.default_commit_behavior.value.string_rep(),
            ConfigKey::DefaultPushBehavior => self.default_push_behavior.value.string_rep(),
        }
    }

    /// The printed forms of all values, in the order of the store's file.
    pub open spec fn reps(&self) -> Seq<Seq<char>> {
        Seq::new(key_order().len(), |i: int| self.rep_of(key_order()[i]))
    }

    /// Which raw strings the slot under a key accepts.
    pub open spec fn accepts_value(k: ConfigKey, s: Seq<char>) -> bool {
        match k {
            ConfigKey::OpenAiApiKey => <OptionString as ConfigValue>::accepts(s),
            ConfigKey::OpenAiModel => <OptionString as ConfigValue>::accepts(s),
            ConfigKey::ApiHost => <String as ConfigValue>::accepts(s),
            ConfigKey::DescriptionEnabled => <bool as ConfigValue>::accepts(s),
            ConfigKey::EmojiEnabled => <bool as ConfigValue>::accepts(s),
            ConfigKey::Language => <DefaultLanguage as ConfigValue>::accepts(s),
            ConfigKey::Name => <String as ConfigValue>::accepts(s),
            ConfigKey::Email => <String as ConfigValue>::accepts(s),
            ConfigKey::DefaultCommitMessage => <OptionString as ConfigValue>::accepts(s),
            ConfigKey::DefaultCommitBehavior => <DefaultBehaviorOption as ConfigValue>::accepts(s),
            ConfigKey::DefaultPushBehavior => <DefaultBehaviorOption as ConfigValue>::accepts(s),
        }
    }

    /// The printed form the slot under `k` will have after updating from `s`.
    pub open spec fn canon_value(k: ConfigKey, s: Seq<char>) -> Seq<char> {
        match k {
            ConfigKey::OpenAiApiKey => <OptionString as ConfigValue>::canon(s),
            ConfigKey::OpenAiModel => <OptionString as ConfigValue>::canon(s),
            ConfigKey::ApiHost => <String as ConfigValue>::canon(s),
            ConfigKey::DescriptionEnabled => <bool as ConfigValue>::canon(s),
            ConfigKey::EmojiEnabled => <bool as ConfigValue>::canon(s),
            ConfigKey::Language => <DefaultLanguage as ConfigValue>::canon(s),
            ConfigKey::Name => <String as ConfigValue>::canon(s),
            ConfigKey::Email => <String as ConfigValue>::canon(s),
            ConfigKey::DefaultCommitMessage => <OptionString as ConfigValue>::canon(s),
            ConfigKey::DefaultCommitBehavior => <DefaultBehaviorOption as ConfigValue>::canon(s),
            ConfigKey::DefaultPushBehavior => <DefaultBehaviorOption as ConfigValue>::canon(s),
        }
    }

    /// All slots other than the one under `k` agree between the two records.
    pub open spec fn same_except(a: &ConfigData, b: &ConfigData, k: ConfigKey) -> bool {
        &&& k != ConfigKey::OpenAiApiKey ==> a.open_ai_api_key == b.open_ai_api_key
        &&& k != ConfigKey::OpenAiModel ==> a.open_ai_model == b.open_ai_model
        &&& k != ConfigKey::ApiHost ==> a.api_host == b.api_host
        &&& k != ConfigKey::DescriptionEnabled ==> a.description_enabled == b.description_enabled
        &&& k != ConfigKey::EmojiEnabled ==> a.emoji_enabled == b.emoji_enabled
        &&& k != ConfigKey::Language ==> a.language == b.language
        &&& k != ConfigKey::Name ==> a.name == b.name
        &&& k != ConfigKey::Email ==> a.email == b.email
        &&& k != ConfigKey::DefaultCommitMessage ==> a.default_commit_message
            == b.default_commit_message
        &&& k != ConfigKey::DefaultCommitBehavior ==> a.default_commit_behavior
            == b.default_commit_behavior
        &&& k != ConfigKey::DefaultPushBehavior ==> a.default_push_behavior
            == b.default_push_behavior
    }

    /// Whether every slot the store accepts is present and valid.
    pub fn validate(&self) -> (r: Result<(), ValidationError>)
        ensures
            r is Ok <==> self.inv(),
    {
        if let Err(e) = self.description_enabled.value.validate() {
            return Err(e);
        }
        if let Err(e) = self.emoji_enabled.value.validate() {
            return Err(e);
        }
        if let Err(e) = self.language.value.validate() {
            return Err(e);
        }
        if let Err(e) = self.name.value.validate() {
            return Err(e);
        }
        if let Err(e) = self.email.value.validate() {
            return Err(e);
        }
        if let Err(e) = self.default_commit_message.value.validate() {
            return Err(e);
        }
        if let Err(e) = self.default_commit_behavior.value.validate() {
            return Err(e);
        }
        if let Err(e) = self.default_push_behavior.value.validate() {
            return Err(e);
        }
        if let Err(e) = self.open_ai_api_key.value.validate() {
            return Err(e);
        }
        if let Err(e) = self.api_host.value.validate() {
            return Err(e);
        }
        if let Err(e) = self.open_ai_model.value.validate() {
            return Err(e);
        }
        Ok(())
    }

    /// Replaces the value under `key` with the one parsed from `value`; a
    /// rejected value leaves the record untouched.
    pub fn update_config(&mut self, key: &ConfigKey, value: &str) -> (r: Result<
        (),
        ValidationError,
    >)
        ensures
            r is Ok <==> Self::accepts_value(*key, value@),
            r is Ok ==> Self::same_except(old(self), final(self), *key) && final(self).rep_of(*key)
                == value@ && (old(self).inv() ==> final(self).inv()),
            r is Err ==> *final(self) == *old(self),
    {
        let r = match key {
            ConfigKey::DescriptionEnabled => self.description_enabled.update(value),
            ConfigKey::EmojiEnabled => self.emoji_enabled.update(value),
            ConfigKey::Language => self.language.update(value),
            ConfigKey::Name => self.name.update(value),
            ConfigKey::Email => self.email.update(value),
            ConfigKey::OpenAiApiKey => self.open_ai_api_key.update(value),
            ConfigKey::ApiHost => self.api_host.update(value),
            ConfigKey::OpenAiModel => self.open_ai_model.update(value),
            ConfigKey::DefaultCommitMessage => self.default_commit_message.update(value),
            ConfigKey::DefaultCommitBehavior => self.default_commit_behavior.update(value),
            ConfigKey::DefaultPushBehavior => self.default_push_behavior.update(value),
        };
        r
    }

    /// Prints the value under a key.
    pub fn get_value(&self, key: &ConfigKey) -> (r: String)
        ensures
            r@ == self.rep_of(*key),
    {
        match key {
            ConfigKey::DescriptionEnabled => self.description_enabled.get_value(),
            ConfigKey::EmojiEnabled => self.emoji_enabled.get_value(),
            ConfigKey::Language => self.language.get_value(),
            ConfigKey::Name => self.name.get_value(),
            ConfigKey::Email => self.email.get_value(),
            ConfigKey::OpenAiApiKey => self.open_ai_api_key.get_value(),
            ConfigKey::ApiHost => self.api_host.get_value(),
            ConfigKey::OpenAiModel => self.open_ai_model.get_value(),
            ConfigKey::DefaultCommitMessage => self.default_commit_message.get_value(),
            ConfigKey::DefaultCommitBehavior => self.default_commit_behavior.get_value(),
            ConfigKey::DefaultPushBehavior => self.default_push_behavior.get_value(),
        }
    }
}

/// Specification-level image of a `SessionPreferences`.
pub ghost struct SessionPreferencesV {
    pub emoji_enabled: bool,
    pub description_enabled: bool,
    pub locale: Seq<char>,
    pub author_name: Seq<char>,
    pub author_email: Seq<char>,
    pub default_commit_message: Option<Seq<char>>,
    pub default_commit_behavior: Option<DefaultBehavior>,
    pub default_push_behavior: Option<DefaultBehavior>,
}

/// The read-only snapshot one commit session works from, taken from the store
/// when the session starts.
pub struct SessionPreferences {
    pub emoji_enabled: bool,
    pub description_enabled: bool,
    pub locale: String,
    pub author_name: String,
    pub author_email: String,
    pub default_commit_message: Option<String>,
    pub default_commit_behavior: Option<DefaultBehavior>,
    pub default_push_behavior: Option<DefaultBehavior>,
}

impl View for SessionPreferences {
    type V = SessionPreferencesV;

    open spec fn view(&self) -> SessionPreferencesV {
        SessionPreferencesV {
            emoji_enabled: self.emoji_enabled,
            description_enabled: self.description_enabled,
            locale: self.locale@,
            author_name: self.author_name@,
            author_email: self.author_email@,
            default_commit_message: self.default_commit_message.deep_view(),
            default_commit_behavior: self.default_commit_behavior,
            default_push_behavior: self.default_push_behavior,
        }
    }
}

/// The snapshot a given record yields.
pub open spec fn prefs_spec(c: ConfigData) -> SessionPreferencesV {
    SessionPreferencesV {
        emoji_enabled: c.emoji_enabled.value,
        description_enabled: c.description_enabled.value,
        locale: c.language.value.string_rep(),
        author_name: c.name.value@,
        author_email: c.email.value@,
        default_commit_message: c.default_commit_message.value.dv(),
        default_commit_behavior: c.default_commit_behavior.value.0,
        default_push_behavior: c.default_push_behavior.value.0,
    }
}

impl ConfigData {
    /// Takes the session snapshot from this record.
    pub fn session_preferences(&self) -> (r: SessionPreferences)
        ensures
            r@ == prefs_spec(*self),
    {
        SessionPreferences {
            emoji_enabled: *self.emoji_enabled.get_value_ref(),
            description_enabled: *self.description_enabled.get_value_ref(),
            locale: self.language.get_value(),
            author_name: self.name.value.clone(),
            author_email: self.email.value.clone(),
            default_commit_message: self.default_commit_message.get_value_ref().get_inner_value(),
            default_commit_behavior: self.default_commit_behavior.get_value_ref().get_inner_value(),
            default_push_behavior: self.default_push_behavior.get_value_ref().get_inner_value(),
        }
    }
}

/// Two valid records that print every key alike yield the same session
/// snapshot: the printed file determines the preferences.
pub proof fn lemma_reps_determine_prefs(a: ConfigData, b: ConfigData)
    requires
        a.inv(),
        b.inv(),
        forall|k: ConfigKey| a.rep_of(k) == b.rep_of(k),
    ensures
        prefs_spec(a) == prefs_spec(b),
{
    assert(a.rep_of(ConfigKey::EmojiEnabled) == b.rep_of(ConfigKey::EmojiEnabled));
    a.emoji_enabled.value.lemma_rep_injective(&b.emoji_enabled.value);
    assert(a.rep_of(ConfigKey::DescriptionEnabled) == b.rep_of(ConfigKey::DescriptionEnabled));
    a.description_enabled.value.lemma_rep_injective(&b.description_enabled.value);
    assert(a.rep_of(ConfigKey::Language) == b.rep_of(ConfigKey::Language));
    a.language.value.lemma_rep_injective(&b.language.value);
    assert(a.rep_of(ConfigKey::Name) == b.rep_of(ConfigKey::Name));
    assert(a.rep_of(ConfigKey::Email) == b.rep_of(ConfigKey::Email));
    assert(a.rep_of(ConfigKey::DefaultCommitMessage) == b.rep_of(
        ConfigKey::DefaultCommitMessage,
    ));
    a.default_commit_message.value.lemma_rep_injective(&b.default_commit_message.value);
    assert(a.rep_of(ConfigKey::DefaultCommitBehavior) == b.rep_of(
        ConfigKey::DefaultCommitBehavior,
    ));
    a.default_commit_behavior.value.lemma_rep_injective(&b.default_commit_behavior.value);
    assert(a.rep_of(ConfigKey::DefaultPushBehavior) == b.rep_of(ConfigKey::DefaultPushBehavior));
    a.default_push_behavior.value.lemma_rep_injective(&b.default_push_behavior.value);
}

} // verus!
