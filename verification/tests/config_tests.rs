use autocommit::autocommit_config::AutocommitConfig;
use autocommit::config_item::{ConfigItem, ConfigValue, ValidationError};
use autocommit::config_key::ConfigKey;
use autocommit::config_service::AutocommitService;
use autocommit::default_behavior::{DefaultBehavior, DefaultBehaviorOption};
use autocommit::default_language::DefaultLanguage;
use autocommit::i18n::Language;
use autocommit::option_string::OptionString;
use autocommit::persist::{parse_config, render_config};

fn fresh_config() -> AutocommitConfig {
    AutocommitConfig::new(String::from("Ada"), String::from("ada@example.com")).unwrap()
}

#[test]
fn new_config_holds_defaults() {
    let config = fresh_config();
    assert_eq!(config.get_config_value(&ConfigKey::DescriptionEnabled), "false");
    assert_eq!(config.get_config_value(&ConfigKey::EmojiEnabled), "false");
    assert_eq!(config.get_config_value(&ConfigKey::Language), "english");
    assert_eq!(config.get_config_value(&ConfigKey::Name), "Ada");
    assert_eq!(config.get_config_value(&ConfigKey::Email), "ada@example.com");
    assert_eq!(config.get_config_value(&ConfigKey::DefaultCommitMessage), "");
    assert_eq!(config.get_config_value(&ConfigKey::DefaultCommitBehavior), "");
    assert_eq!(config.get_config_value(&ConfigKey::DefaultPushBehavior), "");
    assert_eq!(config.get_config_value(&ConfigKey::OpenAiApiKey), "");
    assert_eq!(config.get_config_value(&ConfigKey::ApiHost), "https://api.openai.com");
    assert_eq!(config.get_config_value(&ConfigKey::OpenAiModel), "gpt-3.5-turbo");
}

#[test]
fn new_config_rejects_identity_with_line_break() {
    let outcome = AutocommitConfig::new(String::from("Ada\nLovelace"), String::from("a@b"));
    assert!(matches!(outcome, Err(ValidationError::DisallowedCharacter)));
}

#[test]
fn update_bool_accepts_true_false_only() {
    let mut config = fresh_config();
    assert!(config.update_config(&ConfigKey::EmojiEnabled, "true").is_ok());
    assert_eq!(config.get_config_value(&ConfigKey::EmojiEnabled), "true");
    assert!(config.update_config(&ConfigKey::EmojiEnabled, "false").is_ok());
    assert_eq!(config.get_config_value(&ConfigKey::EmojiEnabled), "false");
    let outcome = config.update_config(&ConfigKey::EmojiEnabled, "yes");
    assert!(matches!(outcome, Err(ValidationError::InvalidBoolean)));
    assert_eq!(config.get_config_value(&ConfigKey::EmojiEnabled), "false");
}

#[test]
fn update_behavior_accepts_the_three_words_and_empty() {
    let mut config = fresh_config();
    assert!(config.update_config(&ConfigKey::DefaultCommitBehavior, "yes").is_ok());
    assert_eq!(config.get_config_value(&ConfigKey::DefaultCommitBehavior), "yes");
    assert!(config.update_config(&ConfigKey::DefaultCommitBehavior, "no").is_ok());
    assert_eq!(config.get_config_value(&ConfigKey::DefaultCommitBehavior), "no");
    assert!(config.update_config(&ConfigKey::DefaultCommitBehavior, "ask").is_ok());
    assert_eq!(config.get_config_value(&ConfigKey::DefaultCommitBehavior), "ask");
    assert!(config.update_config(&ConfigKey::DefaultCommitBehavior, "").is_ok());
    assert_eq!(config.get_config_value(&ConfigKey::DefaultCommitBehavior), "");
    let outcome = config.update_config(&ConfigKey::DefaultCommitBehavior, "maybe");
    assert!(matches!(outcome, Err(ValidationError::InvalidBehavior)));
}

#[test]
fn update_language_accepts_english_only() {
    let mut config = fresh_config();
    assert!(config.update_config(&ConfigKey::Language, "english").is_ok());
    let outcome = config.update_config(&ConfigKey::Language, "klingon");
    assert!(matches!(outcome, Err(ValidationError::UnsupportedLanguage)));
    assert_eq!(config.get_config_value(&ConfigKey::Language), "english");
}

#[test]
fn update_string_rejects_line_breaks() {
    let mut config = fresh_config();
    assert!(config.update_config(&ConfigKey::Name, "Grace Hopper").is_ok());
    assert_eq!(config.get_config_value(&ConfigKey::Name), "Grace Hopper");
    let outcome = config.update_config(&ConfigKey::Name, "Grace\nHopper");
    assert!(matches!(outcome, Err(ValidationError::DisallowedCharacter)));
    assert_eq!(config.get_config_value(&ConfigKey::Name), "Grace Hopper");
}

#[test]
fn update_optional_string_empty_unsets() {
    let mut config = fresh_config();
    assert!(config.update_config(&ConfigKey::OpenAiApiKey, "sk-test-1").is_ok());
    assert_eq!(config.get_config_value(&ConfigKey::OpenAiApiKey), "sk-test-1");
    assert!(config.update_config(&ConfigKey::OpenAiApiKey, "").is_ok());
    assert_eq!(config.get_config_value(&ConfigKey::OpenAiApiKey), "");
}

#[test]
fn save_then_load_reproduces_every_value() {
    let mut config = fresh_config();
    config.update_config(&ConfigKey::EmojiEnabled, "true").unwrap();
    config.update_config(&ConfigKey::DescriptionEnabled, "true").unwrap();
    config.update_config(&ConfigKey::DefaultCommitMessage, "Fix typo").unwrap();
    config.update_config(&ConfigKey::DefaultCommitBehavior, "yes").unwrap();
    config.update_config(&ConfigKey::DefaultPushBehavior, "no").unwrap();
    config.update_config(&ConfigKey::OpenAiApiKey, "sk-test-2").unwrap();
    config.update_config(&ConfigKey::Name, "Grace = Hopper").unwrap();

    let text = render_config(&config.config_data);
    let loaded = parse_config(text.as_str()).expect("a saved configuration loads back");
    let keys = ConfigKey::all_keys();
    for key in keys {
        assert_eq!(loaded.get_value(&key), config.get_config_value(&key));
    }
}

#[test]
fn rendered_file_has_one_line_per_key() {
    let config = fresh_config();
    let text = render_config(&config.config_data);
    let lines: Vec<&str> = text.split('\n').filter(|l| !l.is_empty()).collect();
    assert_eq!(lines.len(), 11);
    assert_eq!(lines[0], "description = false");
    assert_eq!(lines[3], "name = Ada");
    assert_eq!(lines[9], "api_host = https://api.openai.com");
}

#[test]
fn parse_rejects_misshapen_text() {
    assert!(parse_config("").is_none());
    assert!(parse_config("description = false").is_none());
    let config = fresh_config();
    let text = render_config(&config.config_data);
    let mut with_garbage = text.clone();
    with_garbage.push_str("extra = value\n");
    assert!(parse_config(with_garbage.as_str()).is_none());
    let swapped = text.replace("description = false", "description = perhaps");
    assert!(parse_config(swapped.as_str()).is_none());
}

#[test]
fn parse_reads_values_back_not_defaults() {
    let mut config = fresh_config();
    config.update_config(&ConfigKey::DefaultCommitMessage, "Ship it").unwrap();
    let text = render_config(&config.config_data);
    let loaded = parse_config(text.as_str()).unwrap();
    assert_eq!(loaded.get_value(&ConfigKey::DefaultCommitMessage), "Ship it");
    let prefs = loaded.session_preferences();
    assert_eq!(prefs.default_commit_message, Some(String::from("Ship it")));
    assert_eq!(prefs.author_name, "Ada");
    assert!(!prefs.emoji_enabled);
}

#[test]
fn service_forwards_to_configuration() {
    let mut service = AutocommitService::new(fresh_config());
    assert!(service.update_config(&ConfigKey::EmojiEnabled, "true").is_ok());
    assert_eq!(service.get_config_value(&ConfigKey::EmojiEnabled), "true");
    let pairs = service.get_config_values(&[ConfigKey::EmojiEnabled, ConfigKey::Name]);
    assert_eq!(pairs.len(), 2);
    assert_eq!(pairs[0].0, "emoji");
    assert_eq!(pairs[0].1, "true");
    assert_eq!(pairs[1].0, "name");
    assert_eq!(pairs[1].1, "Ada");
    assert_eq!(service.get_config().get_config_value(&ConfigKey::Name), "Ada");
}

#[test]
fn config_item_forwards_and_keeps_value_on_rejection() {
    let mut item: ConfigItem<bool> = ConfigItem::new(true);
    assert_eq!(item.get_value(), "true");
    assert!(item.update("false").is_ok());
    assert_eq!(item.get_value(), "false");
    assert!(item.update("junk").is_err());
    assert_eq!(item.get_value(), "false");
    assert_eq!(*item.get_value_ref(), false);
}

#[test]
fn behavior_option_inner_value_and_tests() {
    let mut opt = DefaultBehaviorOption::unset();
    assert_eq!(opt.get_inner_value(), None);
    opt.update("yes").unwrap();
    assert_eq!(opt.get_inner_value(), Some(DefaultBehavior::Yes));
    assert!(DefaultBehavior::Yes.is_yes());
    assert!(!DefaultBehavior::Yes.is_no());
    assert!(DefaultBehavior::No.is_no());
    assert!(DefaultBehavior::Ask.is_ask());
    assert!(!DefaultBehavior::Ask.is_yes());
}

#[test]
fn option_string_inner_value() {
    let mut s = OptionString::unset();
    assert_eq!(s.get_inner_value(), None);
    s.update("hello").unwrap();
    assert_eq!(s.get_inner_value(), Some(String::from("hello")));
    s.update("").unwrap();
    assert_eq!(s.get_inner_value(), None);
}

#[test]
fn language_value_prints_lowercase() {
    let lang = DefaultLanguage(Language::English);
    assert_eq!(lang.get_value(), "english");
    let mut lang = DefaultLanguage(Language::English);
    assert!(lang.update("english").is_ok());
    assert!(lang.update("English").is_err());
}

#[test]
fn validation_errors_describe_themselves() {
    assert_eq!(ValidationError::InvalidBoolean.describe(), "Invalid value for boolean");
    assert_eq!(ValidationError::InvalidBehavior.describe(), "Invalid value for default behavior");
    assert_eq!(ValidationError::UnsupportedLanguage.describe(), "Unsupported language");
    assert_eq!(
        ValidationError::DisallowedCharacter.describe(),
        "Value must not contain a line break"
    );
}

#[test]
fn key_names_parse_back() {
    for key in ConfigKey::all_keys() {
        let name = key.name();
        assert_eq!(ConfigKey::parse_key(name.as_str()), Some(key));
    }
    assert_eq!(ConfigKey::parse_key("unknown_key"), None);
    assert_eq!(ConfigKey::parse_key("emoji"), Some(ConfigKey::EmojiEnabled));
}
