use autocommit::autocommit_config::AutocommitConfig;
use autocommit::chat_context::{get_chat_context, initial_diff, ChatContext, ChatContextBuilder};
use autocommit::config_data::SessionPreferences;
use autocommit::config_key::ConfigKey;
use autocommit::openai::MessageRole;

fn prefs(emoji: bool, description: bool) -> SessionPreferences {
    SessionPreferences {
        emoji_enabled: emoji,
        description_enabled: description,
        locale: String::from("english"),
        author_name: String::from("Ada"),
        author_email: String::from("ada@example.com"),
        default_commit_message: None,
        default_commit_behavior: None,
        default_push_behavior: None,
    }
}

#[test]
fn build_is_deterministic_byte_for_byte() {
    for (emoji, description) in [(false, false), (true, false), (false, true), (true, true)] {
        let a = ChatContextBuilder::build(&prefs(emoji, description));
        let b = ChatContextBuilder::build(&prefs(emoji, description));
        let am = a.get_messages();
        let bm = b.get_messages();
        assert_eq!(am.len(), bm.len());
        for i in 0..am.len() {
            assert_eq!(am[i].role, bm[i].role);
            assert_eq!(am[i].content, bm[i].content);
        }
    }
}

#[test]
fn context_has_system_exemplar_shape() {
    let ctx = ChatContextBuilder::build(&prefs(false, false));
    let messages = ctx.get_messages();
    assert_eq!(messages.len(), 3);
    assert_eq!(messages[0].role, MessageRole::System);
    assert_eq!(messages[1].role, MessageRole::User);
    assert_eq!(messages[2].role, MessageRole::Assistant);
    assert_eq!(messages[1].content, initial_diff());
}

#[test]
fn system_message_interpolates_author_and_language() {
    let ctx = ChatContextBuilder::build(&prefs(false, false));
    let system = &ctx.get_messages()[0].content;
    assert!(system.contains(
        "Include a 'Signed-off-by: Ada <ada@example.com>' line indicating the author of the commit."
    ));
    assert!(system.contains("Use English to answer."));
    assert!(system.starts_with(
        "You are a software developer and need to create a commit message for a git repository."
    ));
}

#[test]
fn emoji_clause_follows_the_flag() {
    let without = ChatContextBuilder::build(&prefs(false, false));
    let with = ChatContextBuilder::build(&prefs(true, false));
    let plain = &without.get_messages()[0].content;
    let fancy = &with.get_messages()[0].content;
    assert!(!plain.contains("GitMoji"));
    assert!(fancy.contains("Use GitMoji convention to preface the commit."));
    assert!(!without.get_messages()[2].content.contains('\u{1f41b}'));
    assert!(with.get_messages()[2].content.contains('\u{1f41b}'));
}

#[test]
fn description_clause_follows_the_flag() {
    let without = ChatContextBuilder::build(&prefs(false, false));
    let with = ChatContextBuilder::build(&prefs(false, true));
    assert!(without.get_messages()[0]
        .content
        .contains("Don't add any descriptions to the commit, only commit message."));
    assert!(with.get_messages()[0]
        .content
        .contains("The commit message should be under 72 characters"));
    assert!(with.get_messages()[2].content.contains("After further testing"));
}

#[test]
fn assistant_exemplar_signs_off() {
    let ctx = ChatContextBuilder::build(&prefs(false, false));
    assert_eq!(ctx.get_messages()[2].content, "Signed-off-by: Ada <ada@example.com>");
}

#[test]
fn add_message_appends_in_order() {
    let mut ctx = ChatContext::empty();
    ctx.add_message(MessageRole::System, String::from("one"));
    ctx.add_message(MessageRole::User, String::from("two"));
    let messages = ctx.get_messages();
    assert_eq!(messages.len(), 2);
    assert_eq!(messages[0].content, "one");
    assert_eq!(messages[1].content, "two");
    assert_eq!(messages[1].role, MessageRole::User);
}

#[test]
fn initial_context_from_config_matches_builder() {
    let mut config = AutocommitConfig::new(String::from("Ada"), String::from("ada@example.com"))
        .unwrap();
    config.update_config(&ConfigKey::EmojiEnabled, "true").unwrap();
    let from_config = ChatContext::get_initial_context(&config);
    let from_prefs = ChatContextBuilder::build(&config.config_data.session_preferences());
    let a = from_config.get_messages();
    let b = from_prefs.get_messages();
    assert_eq!(a.len(), b.len());
    for i in 0..a.len() {
        assert_eq!(a[i].content, b[i].content);
    }
}

#[test]
fn chat_prompt_wraps_diff_exactly() {
    let config = AutocommitConfig::new(String::from("Ada"), String::from("ada@example.com"))
        .unwrap();
    let prompt = get_chat_context(&config, "diff body");
    assert_eq!(
        prompt,
        "Write a git commit message in present tense for the following diff without prefacing it \
         with anything. Do not be needlessly verbose and make sure the answer is concise and to \
         the point. The response must be in the language english: \ndiff body"
    );
}
