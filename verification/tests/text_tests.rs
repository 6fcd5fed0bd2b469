use autocommit::chroma::Chroma;
use autocommit::git_data::{
    parse_file_list, partition_lock_files, status_label, CommitSummary, FileStatusFlags,
};
use autocommit::i18n::{get_translation, load_i18n, I18n, I18nTranslation, Language};
use autocommit::strutil::usize_to_string;
use autocommit::unicode::get_unicode_string;

#[test]
fn bold_wraps_in_codes() {
    let chroma = Chroma::new(true);
    assert_eq!(chroma.bold("hi"), "\u{1b}[1mhi\u{1b}[22m");
}

#[test]
fn nested_close_code_is_rewritten() {
    let chroma = Chroma::new(true);
    let inner = "a\u{1b}[22mb";
    assert_eq!(chroma.bold(inner), "\u{1b}[1ma\u{1b}[22m\u{1b}[1mb\u{1b}[22m");
}

#[test]
fn italic_rewrites_close_to_itself() {
    let chroma = Chroma::new(true);
    assert_eq!(chroma.italic("x\u{1b}[23my"), "\u{1b}[3mx\u{1b}[23my\u{1b}[23m");
    assert_eq!(chroma.italic("plain"), "\u{1b}[3mplain\u{1b}[23m");
}

#[test]
fn colors_use_their_codes() {
    let chroma = Chroma::new(true);
    assert_eq!(chroma.red("r"), "\u{1b}[31mr\u{1b}[39m");
    assert_eq!(chroma.green("g"), "\u{1b}[32mg\u{1b}[39m");
    assert_eq!(chroma.gray("x"), "\u{1b}[90mx\u{1b}[39m");
    assert_eq!(chroma.bg_yellow("y"), "\u{1b}[43my\u{1b}[49m");
    assert_eq!(chroma.bg_white("w"), "\u{1b}[47mw\u{1b}[49m");
}

#[test]
fn reset_honors_color_support() {
    let on = Chroma::new(true);
    let off = Chroma::new(false);
    assert_eq!(on.reset("t"), "\u{1b}[0mt\u{1b}[0m\u{1b}[0m");
    assert_eq!(off.reset("t"), "t");
    let copy = off.create_colors();
    assert_eq!(copy.reset("u"), "u");
}

#[test]
fn formatter_replaces_only_first_occurrence() {
    let chroma = Chroma::new(true);
    let styled = chroma.formatter("<", ">", Some("#"), "a>b>c");
    assert_eq!(styled, "<a#b>c>");
}

#[test]
fn unicode_string_picks_by_support() {
    assert_eq!(get_unicode_string("\u{2502}", "|", true), "\u{2502}");
    assert_eq!(get_unicode_string("\u{2502}", "|", false), "|");
}

#[test]
fn file_list_drops_empty_lines() {
    let listing = "src/a.rs\n\nsrc/b.rs\nREADME.md\n";
    let files = parse_file_list(listing);
    assert_eq!(
        files,
        vec![String::from("src/a.rs"), String::from("src/b.rs"), String::from("README.md")]
    );
    assert_eq!(parse_file_list(""), Vec::<String>::new());
    assert_eq!(parse_file_list("one"), vec![String::from("one")]);
}

#[test]
fn lock_files_are_split_out() {
    let files = vec![
        String::from("src/main.rs"),
        String::from("Cargo.lock"),
        String::from("yarn.lock"),
        String::from("notes.md"),
    ];
    let (kept, locks) = partition_lock_files(&files);
    assert_eq!(kept, vec![String::from("src/main.rs"), String::from("notes.md")]);
    assert_eq!(locks, vec![String::from("Cargo.lock"), String::from("yarn.lock")]);
}

#[test]
fn status_labels_follow_priority() {
    let plain = FileStatusFlags {
        wt_new: false,
        wt_modified: false,
        wt_deleted: false,
        index_new: false,
        index_modified: false,
        index_deleted: false,
    };
    assert!(status_label(&plain).is_none());
    let untracked = FileStatusFlags { wt_new: true, index_modified: true, ..plain_copy(&plain) };
    assert_eq!(status_label(&untracked).unwrap(), "Untracked");
    let staged = FileStatusFlags { index_modified: true, ..plain_copy(&plain) };
    assert_eq!(status_label(&staged).unwrap(), "Staged");
    let removed = FileStatusFlags { index_deleted: true, ..plain_copy(&plain) };
    assert_eq!(status_label(&removed).unwrap(), "Removed");
}

fn plain_copy(f: &FileStatusFlags) -> FileStatusFlags {
    FileStatusFlags {
        wt_new: f.wt_new,
        wt_modified: f.wt_modified,
        wt_deleted: f.wt_deleted,
        index_new: f.index_new,
        index_modified: f.index_modified,
        index_deleted: f.index_deleted,
    }
}

#[test]
fn numbers_render_in_decimal() {
    assert_eq!(usize_to_string(0), "0");
    assert_eq!(usize_to_string(7), "7");
    assert_eq!(usize_to_string(10), "10");
    assert_eq!(usize_to_string(12345), "12345");
}

#[test]
fn commit_summary_table_lays_out_rows() {
    let summary = CommitSummary {
        branch_name: String::from("main"),
        commit_hash: String::from("abc123"),
        author_name: String::from("Ada"),
        author_email: String::from("ada@example.com"),
        commit_count: 42,
        files_changed: 3,
        insertions: 17,
        deletions: 5,
    };
    let rows = summary.get_table();
    assert_eq!(rows.len(), 6);
    assert_eq!(rows[0], vec!["Branch", "Commit Hash"]);
    assert_eq!(rows[1], vec!["main", "abc123"]);
    assert_eq!(rows[2], vec!["Author", "Email", "Commit Count"]);
    assert_eq!(rows[3], vec!["Ada", "ada@example.com", "42"]);
    assert_eq!(rows[4], vec!["Files Changed", "Insertions", "Deletions"]);
    assert_eq!(rows[5], vec!["3", "17", "5"]);
}

#[test]
fn commit_summary_carries_its_fields() {
    let summary = CommitSummary {
        branch_name: String::from("main"),
        commit_hash: String::from("abc"),
        author_name: String::from("Ada"),
        author_email: String::from("ada@example.com"),
        commit_count: 3,
        files_changed: 2,
        insertions: 10,
        deletions: 1,
    };
    assert_eq!(summary.branch_name, "main");
    assert_eq!(summary.commit_count, 3);
}

#[test]
fn translation_table_serves_english() {
    let i18n = load_i18n();
    let entry = i18n.get(&Language::English).expect("English is loaded");
    assert_eq!(entry.language, "English");
    assert!(entry.commit_fix.starts_with("fix(main.rs)"));
    assert!(entry.commit_feat.starts_with("feat(main.rs)"));
    let owned = get_translation(&Language::English).unwrap();
    assert_eq!(owned.language, entry.language);
    assert_eq!(owned.commit_description, entry.commit_description);
}

#[test]
fn translation_lookup_finds_first_entry() {
    let first = I18nTranslation {
        commit_fix: String::from("fix one"),
        commit_feat: String::from("feat one"),
        commit_description: String::from("desc one"),
        language: String::from("English"),
    };
    let second = I18nTranslation {
        commit_fix: String::from("fix two"),
        commit_feat: String::from("feat two"),
        commit_description: String::from("desc two"),
        language: String::from("English"),
    };
    let table = I18n::new(vec![(Language::English, first), (Language::English, second)]);
    assert_eq!(table.get(&Language::English).unwrap().commit_fix, "fix one");
}
