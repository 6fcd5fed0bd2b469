//! The conversational context sent to the remote generator: a system message
//! assembled from the session preferences, one illustrative exchange, and the
//! user's diff. Building it is a pure function of the preferences, so equal
//! preferences always yield byte-identical message sequences.
use crate::autocommit_config::AutocommitConfig;
use crate::config_data::{prefs_spec, SessionPreferences, SessionPreferencesV};
use crate::config_item::ConfigValue;
use crate::i18n::{english_translation_spec, get_translation, Language};
use crate::openai::{Message, MessageRole, MessageV};
use vstd::prelude::*;

verus! {

/// The separator between the system message's instruction fragments.
pub open spec fn frag_sep() -> Seq<char> {
    "\n\n"@
}

/// The fixed opening instructions, always present.
pub open spec fn base_instructions_spec() -> Seq<char> {
    "You are a software developer and need to create a commit message for a git repository."@
        + frag_sep()
        + "Write a clear and concise git commit message that follows the imperative mood and starts with a specific action verb that clearly conveys the changes made (e.g. 'Implement', 'Refactor', 'Optimize', 'Fix', 'Add', 'Remove')."@
        + frag_sep()
        + "Use present tense in your commit message to describe what the commit does, not what it did. For example, 'Add feature' instead of 'Added feature.'"@
        + frag_sep()
        + "Avoid using technical jargon or acronyms that may be unfamiliar to other developers."@
}

/// The emoji-convention clause, present only when emoji are enabled.
pub open spec fn emoji_clause_spec() -> Seq<char> {
    "Use GitMoji convention to preface the commit."@ + frag_sep()
        + "Look up the GitMoji convention to choose an appropriate emoji for the type of changes being made (e.g. \u{1f41b} for bug fixes, \u{1f389} for new features, etc.)"@
}

/// The description-formatting block, present only when descriptions are
/// enabled.
pub open spec fn description_clause_spec() -> Seq<char> {
    "You should also provide a detailed explanation in the commit description, including any relevant context or reasoning behind the change. Specifically, you should:"@
        + frag_sep()
        + "Include a brief, descriptive summary of the changes made in the commit message"@
        + frag_sep()
        + "Use the body to provide more details: The body of your commit message should provide more context and details about the changes you made. Be specific and use complete sentences. If there are any known issues or limitations, mention them here."@
        + frag_sep()
        + "Start the commit description with a brief summary of the changes made, similar to the summary in the commit message."@
        + frag_sep()
        + "Provide additional context or background information that might be helpful for other developers to understand why the changes were necessary."@
        + frag_sep()
        + "If the changes fix a bug or issue, describe the symptoms of the bug and the steps taken to fix it."@
        + frag_sep()
        + "If the changes are related to a feature enhancement, describe what the new feature does and why it was added."@
        + frag_sep()
        + "If there were any particular challenges or obstacles that needed to be overcome to make these changes, mention them in the commit description."@
        + frag_sep()
        + "Use proper formatting, such as bullet points or numbered lists, to make your commit message easier to read and understand."@
        + frag_sep()
        + "Keep your commit message concise and to the point. If the changes are significant, consider breaking them up into smaller, more manageable commits."@
        + frag_sep()
        + "The commit message should be under 72 characters and focused on a single change or set of related changes."@
}

/// The clause used instead when descriptions are disabled.
pub open spec fn no_description_clause_spec() -> Seq<char> {
    "Don't add any descriptions to the commit, only commit message."@
}

/// The fixed classification and consistency rules, always present.
pub open spec fn classification_rules_spec() -> Seq<char> {
    "Use the right keywords to help identify the type of change you made. For example, 'fix' for bug fixes, 'add' for new features, 'refactor' for code refactoring, etc."@
        + frag_sep()
        + "Be consistent with your commit messages across your project. Use the same format and style to make it easier for others to read and understand your messages."@
}

/// The language directive, interpolating the translation of the session's
/// language.
pub open spec fn language_directive_spec() -> Seq<char> {
    "Use "@ + english_translation_spec().language + " to answer."@
}

/// The sign-off directive, interpolating the author identity.
pub open spec fn signoff_directive_spec(p: SessionPreferencesV) -> Seq<char> {
    "Include a 'Signed-off-by: "@ + p.author_name + " <"@ + p.author_email
        + ">' line indicating the author of the commit."@
}

/// The fixed closing instructions, always present.
pub open spec fn closing_instructions_spec() -> Seq<char> {
    "Exclude anything unnecessary such as the original translation\u{2014}your entire response will be passed directly into git commit."@
        + frag_sep() + "Carefully heed the user's instructions."@
}

/// The whole system message for the given preferences.
pub open spec fn system_message_spec(p: SessionPreferencesV) -> Seq<char> {
    let with_emoji = if p.emoji_enabled {
        base_instructions_spec() + frag_sep() + emoji_clause_spec()
    } else {
        base_instructions_spec()
    };
    let with_description = if p.description_enabled {
        with_emoji + frag_sep() + description_clause_spec()
    } else {
        with_emoji + frag_sep() + no_description_clause_spec()
    };
    with_description + frag_sep() + classification_rules_spec() + frag_sep()
        + language_directive_spec() + frag_sep() + signoff_directive_spec(p) + frag_sep()
        + closing_instructions_spec()
}

/// The canned diff of the illustrative exchange.
pub open spec fn initial_diff_spec() -> Seq<char> {
    "\ndiff --git a/main.rs b/main.rs\nindex 9a99e25..d6ce76e 100644\n--- a/main.rs\n+++ b/main.rs\n@@ -1,7 +1,6 @@\n    use reqwest::Client;\n    use serde::{Deserialize, Serialize};\n-    use std::{collections::HashMap, env, io::{BufRead, BufReader, stdin, stdout}, process, str::FromStr};\n-    use structopt::{clap::arg_enum, StructOpt};\n+    use std::{error::Error, io::{self, Write}};\n#[derive(Debug, Serialize, Deserialize)]\nstruct ResponseData {\n    joke: String,\n}\n-    let response = client.get(\"https://api.icndb.com/jokes/random\").send().await?;\n+    let response_result = client.get(\"https://api.icndb.com/jokes/random\").send().await;\n+\n+    let response = match response_result {\n+        Ok(resp) => resp,\n+        Err(e) => {\n+            eprintln!(\"Error sending request to API: {}\", e);\n+            std::process::exit(1);\n+        }\n+    };\n+\n+    let response_body = response.text().await?;\n-    let response_data: ResponseData = serde_json::from_str(&response_body)?;\n+    let response_body_trimmed = response_body.trim();\n+    let response_data: ResponseData = match serde_json::from_str(response_body_trimmed) {\n+        Ok(data) => data,\n+        Err(e) => {\n+            eprintln!(\"Error parsing API response: {}\", e);\n+            std::process::exit(1);\n+        }\n+    };\n+\n+    writeln!(io::stdout(), \"{}\", response_data.joke)?;\n+    Ok(())\n}    \n    "@
}

/// The illustrative assistant answer for the given preferences.
pub open spec fn assistant_message_spec(p: SessionPreferencesV) -> Seq<char> {
    let with_emoji = if p.emoji_enabled {
        "\u{1f41b} "@ + english_translation_spec().commit_fix + "\n"@ + "\u{2728} "@
            + english_translation_spec().commit_feat + "\n"@
    } else {
        Seq::<char>::empty()
    };
    let with_description = if p.description_enabled {
        with_emoji + english_translation_spec().commit_description
    } else {
        with_emoji
    };
    with_description + "Signed-off-by: "@ + p.author_name + " <"@ + p.author_email + ">"@
}

/// The whole initial context for the given preferences: the system message,
/// the canned user diff, and the illustrative assistant answer.
pub open spec fn initial_context_spec(p: SessionPreferencesV) -> Seq<MessageV> {
    seq![
        MessageV { role: MessageRole::System, content: system_message_spec(p) },
        MessageV { role: MessageRole::User, content: initial_diff_spec() },
        MessageV { role: MessageRole::Assistant, content: assistant_message_spec(p) },
    ]
}

/// The canned diff of the illustrative exchange, as an owned string.
pub fn initial_diff() -> (r: String)
    ensures
        r@ == initial_diff_spec(),
{
    crate::strutil::str_to_string(
        "\ndiff --git a/main.rs b/main.rs\nindex 9a99e25..d6ce76e 100644\n--- a/main.rs\n+++ b/main.rs\n@@ -1,7 +1,6 @@\n    use reqwest::Client;\n    use serde::{Deserialize, Serialize};\n-    use std::{collections::HashMap, env, io::{BufRead, BufReader, stdin, stdout}, process, str::FromStr};\n-    use structopt::{clap::arg_enum, StructOpt};\n+    use std::{error::Error, io::{self, Write}};\n#[derive(Debug, Serialize, Deserialize)]\nstruct ResponseData {\n    joke: String,\n}\n-    let response = client.get(\"https://api.icndb.com/jokes/random\").send().await?;\n+    let response_result = client.get(\"https://api.icndb.com/jokes/random\").send().await;\n+\n+    let response = match response_result {\n+        Ok(resp) => resp,\n+        Err(e) => {\n+            eprintln!(\"Error sending request to API: {}\", e);\n+            std::process::exit(1);\n+        }\n+    };\n+\n+    let response_body = response.text().await?;\n-    let response_data: ResponseData = serde_json::from_str(&response_body)?;\n+    let response_body_trimmed = response_body.trim();\n+    let response_data: ResponseData = match serde_json::from_str(response_body_trimmed) {\n+        Ok(data) => data,\n+        Err(e) => {\n+            eprintln!(\"Error parsing API response: {}\", e);\n+            std::process::exit(1);\n+        }\n+    };\n+\n+    writeln!(io::stdout(), \"{}\", response_data.joke)?;\n+    Ok(())\n}    \n    ",
    )
}

/// An ordered, append-only sequence of role-tagged messages.
pub struct ChatContext {
    messages: Vec<Message>,
}

impl View for ChatContext {
    type V = Seq<MessageV>;

    closed spec fn view(&self) -> Seq<MessageV> {
        self.messages.deep_view()
    }
}

impl ChatContext {
    /// A context with no messages yet.
    pub fn empty() -> (r: ChatContext)
        ensures
            r@ == Seq::<MessageV>::empty(),
    {
        let c = ChatContext { messages: Vec::new() };
        proof {
            assert(c@ =~= Seq::<MessageV>::empty());
        }
        c
    }

    /// Appends one message; the context only ever grows at the end.
    pub fn add_message(&mut self, role: MessageRole, content: String)
        ensures
            final(self)@ == old(self)@.push(MessageV { role, content: content@ }),
    {
        let ghost prev = self.messages.deep_view();
        let m = Message::new(role, content);
        self.messages.push(m);
        proof {
            assert(self.messages.deep_view() =~= prev.push(m.deep_view()));
        }
    }

    /// The messages, oldest first.
    pub fn get_messages(&self) -> (r: &Vec<Message>)
        ensures
            r.deep_view() == self@,
    {
        &self.messages
    }

    /// Builds the initial context from a configuration's session preferences.
    pub fn get_initial_context(config: &AutocommitConfig) -> (r: ChatContext)
        ensures
            r@ == initial_context_spec(prefs_spec(config.config_data)),
    {
        let prefs = config.config_data.session_preferences();
        ChatContextBuilder::build(&prefs)
    }
}


fn base_instructions() -> (r: String)
    ensures
        r@ == base_instructions_spec(),
{
    let mut s = String::new();
    s.append(
        "You are a software developer and need to create a commit message for a git repository.",
    );
    s.append("\n\n");
    s.append(
        "Write a clear and concise git commit message that follows the imperative mood and starts with a specific action verb that clearly conveys the changes made (e.g. 'Implement', 'Refactor', 'Optimize', 'Fix', 'Add', 'Remove').",
    );
    s.append("\n\n");
    s.append(
        "Use present tense in your commit message to describe what the commit does, not what it did. For example, 'Add feature' instead of 'Added feature.'",
    );
    s.append("\n\n");
    s.append(
        "Avoid using technical jargon or acronyms that may be unfamiliar to other developers.",
    );
    proof {
        assert(s@ =~= base_instructions_spec());
    }
    s
}

fn emoji_clause() -> (r: String)
    ensures
        r@ == emoji_clause_spec(),
{
    let mut s = String::new();
    s.append("Use GitMoji convention to preface the commit.");
    s.append("\n\n");
    s.append(
        "Look up the GitMoji convention to choose an appropriate emoji for the type of changes being made (e.g. \u{1f41b} for bug fixes, \u{1f389} for new features, etc.)",
    );
    proof {
        assert(s@ =~= emoji_clause_spec());
    }
    s
}

fn description_clause() -> (r: String)
    ensures
        r@ == description_clause_spec(),
{
    let mut s = String::new();
    s.append(
        "You should also provide a detailed explanation in the commit description, including any relevant context or reasoning behind the change. Specifically, you should:",
    );
    s.append("\n\n");
    s.append("Include a brief, descriptive summary of the changes made in the commit message");
    s.append("\n\n");
    s.append(
        "Use the body to provide more details: The body of your commit message should provide more context and details about the changes you made. Be specific and use complete sentences. If there are any known issues or limitations, mention them here.",
    );
    s.append("\n\n");
    s.append(
        "Start the commit description with a brief summary of the changes made, similar to the summary in the commit message.",
    );
    s.append("\n\n");
    s.append(
        "Provide additional context or background information that might be helpful for other developers to understand why the changes were necessary.",
    );
    s.append("\n\n");
    s.append(
        "If the changes fix a bug or issue, describe the symptoms of the bug and the steps taken to fix it.",
    );
    s.append("\n\n");
    s.append(
        "If the changes are related to a feature enhancement, describe what the new feature does and why it was added.",
    );
    s.append("\n\n");
    s.append(
        "If there were any particular challenges or obstacles that needed to be overcome to make these changes, mention them in the commit description.",
    );
    s.append("\n\n");
    s.append(
        "Use proper formatting, such as bullet points or numbered lists, to make your commit message easier to read and understand.",
    );
    s.append("\n\n");
    s.append(
        "Keep your commit message concise and to the point. If the changes are significant, consider breaking them up into smaller, more manageable commits.",
    );
    s.append("\n\n");
    s.append(
        "The commit message should be under 72 characters and focused on a single change or set of related changes.",
    );
    proof {
        assert(s@ =~= description_clause_spec());
    }
    s
}

fn classification_rules() -> (r: String)
    ensures
        r@ == classification_rules_spec(),
{
    let mut s = String::new();
    s.append(
        "Use the right keywords to help identify the type of change you made. For example, 'fix' for bug fixes, 'add' for new features, 'refactor' for code refactoring, etc.",
    );
    s.append("\n\n");
    s.append(
        "Be consistent with your commit messages across your project. Use the same format and style to make it easier for others to read and understand your messages.",
    );
    proof {
        assert(s@ =~= classification_rules_spec());
    }
    s
}

fn language_directive(translation: &crate::i18n::I18nTranslation) -> (r: String)
    requires
        translation@ == english_translation_spec(),
    ensures
        r@ == language_directive_spec(),
{
    let mut s = String::new();
    s.append("Use ");
    s.append(translation.language.as_str());
    s.append(" to answer.");
    proof {
        assert(s@ =~= language_directive_spec());
    }
    s
}

fn signoff_directive(prefs: &SessionPreferences) -> (r: String)
    ensures
        r@ == signoff_directive_spec(prefs@),
{
    let mut s = String::new();
    s.append("Include a 'Signed-off-by: ");
    s.append(prefs.author_name.as_str());
    s.append(" <");
    s.append(prefs.author_email.as_str());
    s.append(">' line indicating the author of the commit.");
    proof {
        assert(s@ =~= signoff_directive_spec(prefs@));
    }
    s
}

fn closing_instructions() -> (r: String)
    ensures
        r@ == closing_instructions_spec(),
{
    let mut s = String::new();
    s.append(
        "Exclude anything unnecessary such as the original translation\u{2014}your entire response will be passed directly into git commit.",
    );
    s.append("\n\n");
    s.append("Carefully heed the user's instructions.");
    proof {
        assert(s@ =~= closing_instructions_spec());
    }
    s
}

/// Builds initial contexts deterministically from session preferences.
pub struct ChatContextBuilder;


impl ChatContextBuilder {
    /// Assembles the initial context for the given preferences. Same
    /// preferences, same context: the result is a pure function of `prefs`.
    pub fn build(prefs: &SessionPreferences) -> (r: ChatContext)
        ensures
            r@ == initial_context_spec(prefs@),
    {
        let translation = match get_translation(&Language::English) {
            Some(t) => t,
            None => {
                proof {
                    assert(false);
                }
                unreached()
            },
        };
        let mut system_message = base_instructions();
        if prefs.emoji_enabled {
            let clause = emoji_clause();
            system_message.append("\n\n");
            system_message.append(clause.as_str());
        }
        if prefs.description_enabled {
            let clause = description_clause();
            system_message.append("\n\n");
            system_message.append(clause.as_str());
        } else {
            system_message.append("\n\n");
            system_message.append("Don't add any descriptions to the commit, only commit message.");
        }
        let rules = classification_rules();
        system_message.append("\n\n");
        system_message.append(rules.as_str());
        let directive = language_directive(&translation);
        system_message.append("\n\n");
        system_message.append(directive.as_str());
        let signoff = signoff_directive(prefs);
        system_message.append("\n\n");
        system_message.append(signoff.as_str());
        let closing = closing_instructions();
        system_message.append("\n\n");
        system_message.append(closing.as_str());
        proof {
            assert(system_message@ == system_message_spec(prefs@));
        }
        let mut assistant_message = String::new();
        if prefs.emoji_enabled {
            assistant_message.append("\u{1f41b} ");
            assistant_message.append(translation.commit_fix.as_str());
            assistant_message.append("\n");
            assistant_message.append("\u{2728} ");
            assistant_message.append(translation.commit_feat.as_str());
            assistant_message.append("\n");
        }
        if prefs.description_enabled {
            assistant_message.append(translation.commit_description.as_str());
        }
        assistant_message.append("Signed-off-by: ");
        assistant_message.append(prefs.author_name.as_str());
        assistant_message.append(" <");
        assistant_message.append(prefs.author_email.as_str());
        assistant_message.append(">");
        proof {
            assert(assistant_message@ =~= assistant_message_spec(prefs@));
        }
        let mut context = ChatContext::empty();
        context.add_message(MessageRole::System, system_message);
        context.add_message(MessageRole::User, initial_diff());
        context.add_message(MessageRole::Assistant, assistant_message);
        proof {
            assert(context@ =~= initial_context_spec(prefs@));
        }
        context
    }
}

/// Building the context is deterministic: equal preferences yield identical
/// message sequences.
pub proof fn lemma_build_deterministic(p1: SessionPreferencesV, p2: SessionPreferencesV)
    requires
        p1 == p2,
    ensures
        initial_context_spec(p1) == initial_context_spec(p2),
{
}

/// The one-line prompt wrapped around a diff when a single free-standing
/// message is requested for it.
pub open spec fn chat_prompt_spec(language: Seq<char>, diff: Seq<char>) -> Seq<char> {
    "Write a git commit message in present tense for the following diff without prefacing it with anything. Do not be needlessly verbose and make sure the answer is concise and to the point. The response must be in the language "@
        + language + ": \n"@ + diff
}

/// Builds the one-line prompt around a diff, naming the configured language.
pub fn get_chat_context(config: &AutocommitConfig, diff: &str) -> (r: String)
    ensures
        r@ == chat_prompt_spec(
            config.config_data.language.value.string_rep(),
            diff@,
        ),
{
    let mut out = String::new();
    out.append(
        "Write a git commit message in present tense for the following diff without prefacing it with anything. Do not be needlessly verbose and make sure the answer is concise and to the point. The response must be in the language ",
    );
    let lang = config.config_data.language.get_value();
    out.append(lang.as_str());
    out.append(": \n");
    out.append(diff);
    proof {
        assert(out@ =~= chat_prompt_spec(config.config_data.language.value.string_rep(), diff@));
    }
    out
}

} // verus!
