//! The closed set of configuration keys and their printed names.
use vstd::prelude::*;

verus! {

#[derive(Clone, Copy, PartialEq, Eq, Structural, Debug)]
pub enum ConfigKey {
    OpenAiApiKey,
    OpenAiModel,
    ApiHost,
    DescriptionEnabled,
    EmojiEnabled,
    Language,
    Name,
    Email,
    DefaultCommitMessage,
    DefaultCommitBehavior,
    DefaultPushBehavior,
}

/// The printed name of each key.
pub open spec fn key_name_spec(k: ConfigKey) -> Seq<char> {
    match k {
        ConfigKey::OpenAiApiKey => "open_ai_api_key"@,
        ConfigKey::OpenAiModel => "open_ai_model"@,
        ConfigKey::ApiHost => "api_host"@,
        ConfigKey::DescriptionEnabled => "description"@,
        ConfigKey::EmojiEnabled => "emoji"@,
        ConfigKey::Language => "language"@,
        ConfigKey::Name => "name"@,
        ConfigKey::Email => "email"@,
        ConfigKey::DefaultCommitMessage => "default_commit_message"@,
        ConfigKey::DefaultCommitBehavior => "default_commit_behavior"@,
        ConfigKey::DefaultPushBehavior => "default_push_behavior"@,
    }
}

/// Which key a printed name denotes, if any.
pub open spec fn key_of_name_spec(s: Seq<char>) -> Option<ConfigKey> {
    if s == "open_ai_api_key"@ {
        Some(ConfigKey::OpenAiApiKey)
    } else if s == "open_ai_model"@ {
        Some(ConfigKey::OpenAiModel)
    } else if s == "api_host"@ {
        Some(ConfigKey::ApiHost)
    } else if s == "description"@ {
        Some(ConfigKey::DescriptionEnabled)
    } else if s == "emoji"@ {
        Some(ConfigKey::EmojiEnabled)
    } else if s == "language"@ {
        Some(ConfigKey::Language)
    } else if s == "name"@ {
        Some(ConfigKey::Name)
    } else if s == "email"@ {
        Some(ConfigKey::Email)
    } else if s == "default_commit_message"@ {
        Some(ConfigKey::DefaultCommitMessage)
    } else if s == "default_commit_behavior"@ {
        Some(ConfigKey::DefaultCommitBehavior)
    } else if s == "default_push_behavior"@ {
        Some(ConfigKey::DefaultPushBehavior)
    } else {
        None
    }
}

/// The order in which the store's file lists the keys.
pub open spec fn key_order() -> Seq<ConfigKey> {
    seq![
        ConfigKey::DescriptionEnabled,
        ConfigKey::EmojiEnabled,
        ConfigKey::Language,
        ConfigKey::Name,
        ConfigKey::Email,
        ConfigKey::DefaultCommitMessage,
        ConfigKey::DefaultCommitBehavior,
        ConfigKey::DefaultPushBehavior,
        ConfigKey::OpenAiApiKey,
        ConfigKey::ApiHost,
        ConfigKey::OpenAiModel,
    ]
}

impl ConfigKey {
    /// The printed name of this key.
    pub fn name(&self) -> (r: String)
        ensures
            r@ == key_name_spec(*self),
    {
        match self {
            ConfigKey::OpenAiApiKey => crate::strutil::str_to_string("open_ai_api_key"),
            ConfigKey::OpenAiModel => crate::strutil::str_to_string("open_ai_model"),
            ConfigKey::ApiHost => crate::strutil::str_to_string("api_host"),
            ConfigKey::DescriptionEnabled => crate::strutil::str_to_string("description"),
            ConfigKey::EmojiEnabled => crate::strutil::str_to_string("emoji"),
            ConfigKey::Language => crate::strutil::str_to_string("language"),
            ConfigKey::Name => crate::strutil::str_to_string("name"),
            ConfigKey::Email => crate::strutil::str_to_string("email"),
            ConfigKey::DefaultCommitMessage => crate::strutil::str_to_string(
                "default_commit_message",
            ),
            ConfigKey::DefaultCommitBehavior => crate::strutil::str_to_string(
                "default_commit_behavior",
            ),
            ConfigKey::DefaultPushBehavior => crate::strutil::str_to_string(
                "default_push_behavior",
            ),
        }
    }

    /// Parses a printed key name.
    pub fn parse_key(s: &str) -> (r: Option<ConfigKey>)
        ensures
            r == key_of_name_spec(s@),
    {
        if crate::strutil::str_eq(s, "open_ai_api_key") {
            Some(ConfigKey::OpenAiApiKey)
        } else if crate::strutil::str_eq(s, "open_ai_model") {
            Some(ConfigKey::OpenAiModel)
        } else if crate::strutil::str_eq(s, "api_host") {
            Some(ConfigKey::ApiHost)
        } else if crate::strutil::str_eq(s, "description") {
            Some(ConfigKey::DescriptionEnabled)
        } else if crate::strutil::str_eq(s, "emoji") {
            Some(ConfigKey::EmojiEnabled)
        } else if crate::strutil::str_eq(s, "language") {
            Some(ConfigKey::Language)
        } else if crate::strutil::str_eq(s, "name") {
            Some(ConfigKey::Name)
        } else if crate::strutil::str_eq(s, "email") {
            Some(ConfigKey::Email)
        } else if crate::strutil::str_eq(s, "default_commit_message") {
            Some(ConfigKey::DefaultCommitMessage)
        } else if crate::strutil::str_eq(s, "default_commit_behavior") {
            Some(ConfigKey::DefaultCommitBehavior)
        } else if crate::strutil::str_eq(s, "default_push_behavior") {
            Some(ConfigKey::DefaultPushBehavior)
        } else {
            None
        }
    }

    /// Every key, in the order of the store's file.
    pub fn all_keys() -> (r: Vec<ConfigKey>)
        ensures
            r@ == key_order(),
    {
        let mut keys: Vec<ConfigKey> = Vec::new();
        keys.push(ConfigKey::DescriptionEnabled);
        keys.push(ConfigKey::EmojiEnabled);
        keys.push(ConfigKey::Language);
        keys.push(ConfigKey::Name);
        keys.push(ConfigKey::Email);
        keys.push(ConfigKey::DefaultCommitMessage);
        keys.push(ConfigKey::DefaultCommitBehavior);
        keys.push(ConfigKey::DefaultPushBehavior);
        keys.push(ConfigKey::OpenAiApiKey);
        keys.push(ConfigKey::ApiHost);
        keys.push(ConfigKey::OpenAiModel);
        proof {
            assert(keys@ =~= key_order());
        }
        keys
    }
}

} // verus!
