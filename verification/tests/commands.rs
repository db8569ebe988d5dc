use muren::commands::{
    ChangeCase, FileContent, FixExtension, Normalize, Prefix, Remove, RenameCommand, RenameIntent,
    Replace, SetExtension,
};

/// Compare whether old_names are converted to new expected_names using command.
fn assert_renames_correctly<C: RenameCommand>(
    command: &C,
    old_names: &[&str],
    expected_names: &[&str],
) {
    let old: Vec<String> = old_names.iter().map(|&x| String::from(x)).collect();
    let new_intents = command.suggest_renames(&old);
    let new: Vec<String> = new_intents
        .iter()
        .map(|intent| intent.new_name.clone())
        .collect();
    let expected: Vec<String> = expected_names.iter().map(|&x| String::from(x)).collect();
    assert_eq!(expected, new);
}

fn content(path: &str, mime_type: &str, description: &str) -> FileContent {
    FileContent {
        path: String::from(path),
        mime_type: String::from(mime_type),
        description: String::from(description),
    }
}

#[test]
fn test_set_prefix() {
    let p = Prefix { prefix: String::from("a") };
    let old_path = String::from("b");
    assert_eq!(p.suggest_new_name(&old_path), String::from("ab"))
}

#[test]
fn test_regex() {
    // Regex really matching
    let replace = Replace {
        pattern: String::from("\\d"),
        replacement: String::from("a"),
        is_regex: true,
    };
    let old_path = String::from("a222");
    assert_eq!(replace.suggest_new_name(&old_path), String::from("aaaa"));

    // Regex present as literal
    let replace = Replace {
        pattern: String::from("a$"),
        replacement: String::from("a"),
        is_regex: true,
    };
    let old_path = String::from("a$a");
    assert_eq!(replace.suggest_new_name(&old_path), String::from("a$a"));
}

#[test]
fn test_non_regex() {
    let command = Replace {
        pattern: String::from("a.c"),
        replacement: String::from("def"),
        is_regex: false,
    };
    let old_path = String::from("a.cabc");
    assert_eq!(command.suggest_new_name(&old_path), String::from("defabc"));
}

#[test]
fn test_upper() {
    assert_renames_correctly(
        &ChangeCase { upper: true },
        &["Abc", "hnědý", "Αθήνα", "mountAIN🗻"],
        &["ABC", "HNĚDÝ", "ΑΘΉΝΑ", "MOUNTAIN🗻"],
    );
}

#[test]
fn test_lower() {
    assert_renames_correctly(
        &ChangeCase { upper: false },
        &["Abc", "hnědý", "Αθήνα", "mountAIN🗻"],
        &["abc", "hnědý", "αθήνα", "mountain🗻"],
    );
}

#[test]
fn test_normalize() {
    assert_renames_correctly(
        &Normalize,
        &["Abc", "hnědý", "Αθήνα & Σπάρτη", "mountain🗻"],
        &["Abc", "hnedy", "Athena_&_Sparte", "mountain"],
    );
}

#[test]
fn test_no_extension() {
    assert_renames_correctly(
        &SetExtension { extension: String::from("") },
        &["a", "b", "c.jpg", ".gitignore"],
        &["a", "b", "c", ".gitignore"],
    );
}

#[test]
fn test_some_extension() {
    assert_renames_correctly(
        &SetExtension { extension: String::from("jpg") },
        &["a", "b", "c.jpg", ".gitignore"],
        &["a.jpg", "b.jpg", "c.jpg", ".gitignore.jpg"],
    );
}

#[test]
fn intent_is_changed_by_exact_comparison() {
    let same = RenameIntent { old_name: String::from("a.txt"), new_name: String::from("a.txt") };
    let case_only = RenameIntent { old_name: String::from("a.txt"), new_name: String::from("A.txt") };
    let slash = RenameIntent { old_name: String::from("a/b"), new_name: String::from("a//b") };
    assert!(!same.is_changed());
    assert!(case_only.is_changed());
    assert!(slash.is_changed());
}

#[test]
fn intent_text_shows_both_names_or_an_equals_sign() {
    let changed = RenameIntent { old_name: String::from("a"), new_name: String::from("b") };
    let unchanged = RenameIntent { old_name: String::from("a"), new_name: String::from("a") };
    assert_eq!(changed.to_text(), "a → b");
    assert_eq!(unchanged.to_text(), "a =");
}

#[test]
fn intent_clone_keeps_both_names() {
    let intent = RenameIntent { old_name: String::from("a"), new_name: String::from("b") };
    let copy = intent.clone();
    assert_eq!(copy.old_name, "a");
    assert_eq!(copy.new_name, "b");
}

#[test]
fn suggest_renames_keeps_order_and_duplicates() {
    let files = vec![String::from("b"), String::from("a"), String::from("b")];
    let intents = Prefix { prefix: String::from("x/") }.suggest_renames(&files);
    assert_eq!(intents.len(), 3);
    assert_eq!(intents[0].old_name, "b");
    assert_eq!(intents[0].new_name, "x/b");
    assert_eq!(intents[1].old_name, "a");
    assert_eq!(intents[1].new_name, "x/a");
    assert_eq!(intents[2].old_name, "b");
    assert_eq!(intents[2].new_name, "x/b");
    assert!(Prefix { prefix: String::new() }.suggest_renames(&Vec::new()).is_empty());
}

#[test]
fn suggestion_is_the_same_when_asked_twice() {
    let replace = Replace {
        pattern: String::from("(\\d+)-(\\w+)"),
        replacement: String::from("$2-$1"),
        is_regex: true,
    };
    assert_eq!(replace.suggest_new_name("12-ab.txt"), replace.suggest_new_name("12-ab.txt"));
    assert_eq!(replace.suggest_new_name("12-ab.txt"), "ab-12.txt");
    assert_eq!(Normalize.suggest_new_name("é è"), Normalize.suggest_new_name("é è"));
    let upper = ChangeCase { upper: true };
    assert_eq!(upper.suggest_new_name("straße"), upper.suggest_new_name("straße"));
    assert_eq!(upper.suggest_new_name("straße"), "STRASSE");
}

#[test]
fn prefix_goes_before_the_whole_path() {
    let p = Prefix { prefix: String::from("new_") };
    assert_eq!(p.suggest_new_name("dir/file.txt"), "new_dir/file.txt");
    assert_eq!(p.suggest_new_name(""), "new_");
    assert!(p.is_usable());
}

#[test]
fn remove_deletes_every_occurrence_in_the_whole_path() {
    let remove = Remove { pattern: String::from("ab") };
    assert_eq!(remove.suggest_new_name("ab/xabab.ab"), "/x.");
    assert_eq!(remove.suggest_new_name("aab"), "a");
    assert_eq!(remove.suggest_new_name("aabb"), "ab");
    assert_eq!(remove.suggest_new_name("none"), "none");
    let nothing = Remove { pattern: String::new() };
    assert_eq!(nothing.suggest_new_name("abc"), "abc");
}

#[test]
fn replace_literal_is_case_sensitive_and_not_overlapping() {
    let replace = Replace {
        pattern: String::from("aa"),
        replacement: String::from("b"),
        is_regex: false,
    };
    assert_eq!(replace.suggest_new_name("aaa"), "ba");
    assert_eq!(replace.suggest_new_name("aaaa"), "bb");
    assert_eq!(replace.suggest_new_name("AAaa"), "AAb");
    assert_eq!(replace.suggest_new_name("a"), "a");
    assert_eq!(replace.suggest_new_name(""), "");
}

#[test]
fn replace_literal_takes_dollar_and_dots_as_they_are() {
    let replace = Replace {
        pattern: String::from("a$"),
        replacement: String::from("$1"),
        is_regex: false,
    };
    assert_eq!(replace.suggest_new_name("a$a"), "$1a");
    assert!(replace.is_usable());
}

#[test]
fn replace_literal_empty_pattern_matches_between_characters() {
    let replace = Replace {
        pattern: String::new(),
        replacement: String::from("-"),
        is_regex: false,
    };
    assert_eq!(replace.suggest_new_name("abc"), "abc".replace("", "-"));
    assert_eq!(replace.suggest_new_name("abc"), "-a-b-c-");
    assert_eq!(replace.suggest_new_name(""), "-");
    assert_eq!(replace.suggest_new_name("é🗻"), "-é-🗻-");
}

#[test]
fn replace_literal_agrees_with_the_standard_library() {
    let cases = [
        ("a.cabc", "a.c", "def"),
        ("aaaa", "aaa", "x"),
        ("abcabcab", "abc", ""),
        ("hnědý/hnědý", "ě", "e"),
        ("x", "xyz", "q"),
        ("ababa", "aba", "aba"),
    ];
    for (text, pattern, replacement) in cases {
        let command = Replace {
            pattern: String::from(pattern),
            replacement: String::from(replacement),
            is_regex: false,
        };
        assert_eq!(command.suggest_new_name(text), text.replace(pattern, replacement));
    }
}

#[test]
fn replace_regex_expands_groups_and_rewrites_directories() {
    let replace = Replace {
        pattern: String::from("^(\\w+)/(\\w+)"),
        replacement: String::from("$2/$1"),
        is_regex: true,
    };
    assert!(replace.is_usable());
    assert_eq!(replace.suggest_new_name("dir/file.txt"), "file/dir.txt");
    assert_eq!(replace.suggest_new_name("nomatch"), "nomatch");
}

#[test]
fn replace_regex_with_bad_pattern_is_not_usable() {
    let replace = Replace {
        pattern: String::from("foo(bar"),
        replacement: String::from("x"),
        is_regex: true,
    };
    assert!(!replace.is_usable());
    assert_eq!(replace.try_suggest_new_name("foo(bar"), None);
    let literal = Replace {
        pattern: String::from("foo(bar"),
        replacement: String::from("x"),
        is_regex: false,
    };
    assert!(literal.is_usable());
    assert_eq!(literal.try_suggest_new_name("foo(bar"), Some(String::from("x")));
}

#[test]
fn change_case_covers_the_whole_path() {
    let upper = ChangeCase { upper: true };
    assert_eq!(upper.suggest_new_name("dir/file.txt"), "DIR/FILE.TXT");
    let lower = ChangeCase { upper: false };
    assert_eq!(lower.suggest_new_name("Dir/FILE.Txt"), "dir/file.txt");
    assert_eq!(lower.suggest_new_name("Αθήνα"), "αθήνα");
}

#[test]
fn normalize_keeps_case_and_replaces_spaces() {
    assert_eq!(Normalize.suggest_new_name("My File.TXT"), "My_File.TXT");
    assert_eq!(Normalize.suggest_new_name("a  b"), "a__b");
    assert_eq!(Normalize.suggest_new_name("Æneid"), "AEneid");
    assert_eq!(Normalize.suggest_new_name("北亰"), "Bei_Jing_");
    assert_eq!(Normalize.suggest_new_name(""), "");
    let once = Normalize.suggest_new_name("Αθήνα & Σπάρτη");
    assert_eq!(Normalize.suggest_new_name(&once), once);
}

#[test]
fn set_extension_replaces_or_appends() {
    let set = SetExtension { extension: String::from("png") };
    assert!(set.is_usable());
    assert_eq!(set.suggest_new_name("dir.d/photo.jpeg"), "dir.d/photo.png");
    assert_eq!(set.suggest_new_name("archive.tar.gz"), "archive.tar.png");
    assert_eq!(set.suggest_new_name("dir.d/photo"), "dir.d/photo.png");
    let twice = set.suggest_new_name(&set.suggest_new_name("a.b"));
    assert_eq!(twice, "a.png");
}

#[test]
fn set_extension_with_separator_is_not_usable() {
    assert!(!SetExtension { extension: String::from("a/b") }.is_usable());
    assert!(!SetExtension { extension: String::from("a\\b") }.is_usable());
    assert!(SetExtension { extension: String::from("tar.gz") }.is_usable());
    assert_eq!(SetExtension { extension: String::from("a/b") }.try_suggest_new_name("x.y"), None);
    assert_eq!(
        SetExtension { extension: String::from("tar.gz") }.try_suggest_new_name("x.y"),
        Some(String::from("x.tar.gz"))
    );
}

#[test]
fn fix_extension_replaces_a_wrong_extension() {
    let fix = FixExtension {
        append: false,
        contents: vec![
            content("report.txt", "application/pdf", "PDF document, version 1.4"),
            content("photo.JPG", "image/jpeg", "JPEG image data"),
            content("data", "application/octet-stream", "Apache Parquet"),
            content("notes.md", "text/plain", "ASCII text"),
        ],
    };
    assert!(fix.is_usable());
    assert_eq!(fix.suggest_new_name("report.txt"), "report.pdf");
    assert_eq!(fix.suggest_new_name("photo.JPG"), "photo.JPG");
    assert_eq!(fix.suggest_new_name("data"), "data.parquet");
    assert_eq!(fix.suggest_new_name("notes.md"), "notes.md");
    assert_eq!(fix.suggest_new_name("unlisted.txt"), "unlisted.txt");
}

#[test]
fn fix_extension_in_append_mode_keeps_the_old_extension() {
    let fix = FixExtension {
        append: true,
        contents: vec![
            content("report.txt", "application/pdf", "PDF document"),
            content("report", "application/pdf", "PDF document"),
            content("page.htm", "text/html", "HTML document"),
            content("report.txt", "image/png", "PNG image data"),
        ],
    };
    assert_eq!(fix.suggest_new_name("report.txt"), "report.txt.pdf");
    assert_eq!(fix.suggest_new_name("report"), "report.pdf");
    assert_eq!(fix.suggest_new_name("page.htm"), "page.htm");
    let intents = fix.suggest_renames(&vec![String::from("report.txt"), String::from("page.htm")]);
    assert!(intents[0].is_changed());
    assert!(!intents[1].is_changed());
}

#[test]
fn fix_extension_finds_the_first_report_of_a_path() {
    let fix = FixExtension {
        append: false,
        contents: vec![
            content("a.bin", "image/png", ""),
            content("a.bin", "text/csv", ""),
        ],
    };
    assert_eq!(fix.find_content("a.bin").map(|c| c.mime_type.as_str()), Some("image/png"));
    assert!(fix.find_content("b.bin").is_none());
    assert_eq!(fix.suggest_new_name("a.bin"), "a.png");
}
