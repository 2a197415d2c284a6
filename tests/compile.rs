use noter::compile::prepend_notes;
use noter::configs::{Configuration, NoteVariant};
use noter::fragments::{
    any_notes, find_variant, formatter_for_filename, group_notes, note_for_file, str_ends_with,
    str_has_extension,
};
use noter::{compile_release_notes, NoteError, NoteFormatter, StringWriter};

fn sample_config(title_format: &str, issue_format: &str) -> Configuration {
    Configuration::new(
        "unreleased_notes",
        "ReleaseNotes.rst",
        title_format,
        issue_format,
        vec![
            NoteVariant::new("feature", "Features", true),
            NoteVariant::new("bugfix", "Bugfixes", true),
            NoteVariant::new("misc", "Miscellaneous", false),
        ],
    )
}

fn pair(a: &str, b: &str) -> (String, String) {
    (a.to_string(), b.to_string())
}

#[test]
fn configuration_keeps_fields_and_order() {
    let config = sample_config("v{version}", "#{issue}");
    assert_eq!(config.directory, "unreleased_notes");
    assert_eq!(config.filename, "ReleaseNotes.rst");
    assert_eq!(config.title_format, "v{version}");
    assert_eq!(config.issue_format, "#{issue}");
    let names: Vec<&str> = config.variant.iter().map(|v| v.extension.as_str()).collect();
    assert_eq!(names, vec!["feature", "bugfix", "misc"]);
}

#[test]
fn suffix_checks() {
    assert!(str_ends_with("12.bugfix", "bugfix"));
    assert!(str_ends_with("abc", ""));
    assert!(!str_ends_with("fix", "bugfix"));
    assert!(!str_ends_with("12.bugfiz", "bugfix"));
}

#[test]
fn variant_found_by_extension() {
    let config = sample_config("v", "i");
    assert_eq!(find_variant(&config, "12.bugfix"), Some(1));
    assert_eq!(find_variant(&config, "12.feature"), Some(0));
    assert_eq!(find_variant(&config, "12.other"), None);
}

#[test]
fn extension_needs_the_dot() {
    let config = sample_config("v", "i");
    assert_eq!(find_variant(&config, "12bugfix"), None);
    assert_eq!(find_variant(&config, "bugfix"), None);
    assert_eq!(find_variant(&config, "misc"), None);
    assert_eq!(find_variant(&config, ".misc"), Some(2));
    assert_eq!(note_for_file(&config, "12bugfix", "x"), None);
    assert!(str_has_extension("12.bugfix", "bugfix"));
    assert!(!str_has_extension("12bugfix", "bugfix"));
    assert!(!str_has_extension("12_bugfix", "bugfix"));
    assert!(!str_has_extension("bugfix", "bugfix"));
    assert!(str_has_extension("é.doc", "doc"));
}

#[test]
fn note_strips_extension_and_dot() {
    let config = sample_config("v", "i");
    assert_eq!(
        note_for_file(&config, "1234.bugfix", "Fixed it"),
        Some((1, ("1234".to_string(), "Fixed it".to_string())))
    );
    assert_eq!(note_for_file(&config, "bugfix", "x"), None);
    assert_eq!(note_for_file(&config, "readme.txt", "x"), None);
    assert_eq!(
        note_for_file(&config, "a.b.misc", "y"),
        Some((2, ("a.b".to_string(), "y".to_string())))
    );
    assert_eq!(
        note_for_file(&config, ".feature", "z"),
        Some((0, (String::new(), "z".to_string())))
    );
}

#[test]
fn notes_grouped_by_variant_in_file_order() {
    let config = sample_config("v", "i");
    let files = vec![
        pair("2.bugfix", "second fix"),
        pair("1.feature", "a feature"),
        pair("notes.txt", "ignored"),
        pair("3bugfix", "no dot"),
        pair("1.bugfix", "first fix"),
    ];
    let groups = group_notes(&config, &files);
    assert_eq!(groups.len(), 3);
    assert_eq!(groups[0], vec![pair("1", "a feature")]);
    assert_eq!(groups[1], vec![pair("2", "second fix"), pair("1", "first fix")]);
    assert!(groups[2].is_empty());
    assert!(any_notes(&groups));
    assert!(!any_notes(&group_notes(&config, &vec![pair("x.txt", "")])));
}

#[test]
fn dialect_from_file_name() {
    assert_eq!(formatter_for_filename("CHANGES.md"), Some(NoteFormatter::Markdown));
    assert_eq!(formatter_for_filename("ReleaseNotes.rst"), Some(NoteFormatter::Text));
    assert_eq!(formatter_for_filename("notes.txt"), None);
}

#[test]
fn compiles_sections_in_variant_order() {
    let config = sample_config("v{version} - {project_date}", "<{issue}>");
    let groups = vec![
        vec![],
        vec![pair("12", "Fixed a crash"), pair("13", "Fixed a leak")],
        vec![pair("14", "hidden")],
    ];
    let mut writer = StringWriter::text();
    let notes = compile_release_notes(&mut writer, &config, "1.2.0", "2024-05-01", &groups);
    assert_eq!(
        notes,
        Ok("v1.2.0 - 2024-05-01\n===================\n\nBugfixes\n--------\n\n- 12: Fixed a crash <12>\n- 13: Fixed a leak <13>\n\nMiscellaneous\n-------------\n\n- 14: <14>\n".to_string())
    );
}

#[test]
fn compiles_markdown() {
    let config = sample_config("{version}", "#{issue}");
    let groups = vec![vec![pair("7", "New thing")]];
    let mut writer = StringWriter::markdown();
    let notes = compile_release_notes(&mut writer, &config, "2.0", "2024-05-01", &groups);
    assert_eq!(notes, Ok("# 2.0\n\n## Features\n\n- 7: New thing #7\n".to_string()));
}

#[test]
fn unknown_title_placeholder_is_an_error() {
    let config = sample_config("{release}", "#{issue}");
    let mut writer = StringWriter::text();
    let notes = compile_release_notes(&mut writer, &config, "1.0", "2024-05-01", &vec![]);
    assert_eq!(notes, Err(NoteError::InvalidTitleFormat));
    assert_eq!(NoteError::InvalidTitleFormat.message(), "invalid `title_format` given");
}

#[test]
fn malformed_issue_format_is_an_error() {
    let config = sample_config("{version}", "#{issue");
    let groups = vec![vec![pair("7", "New thing")]];
    let mut writer = StringWriter::text();
    let notes = compile_release_notes(&mut writer, &config, "1.0", "2024-05-01", &groups);
    assert_eq!(notes, Err(NoteError::InvalidIssueFormat));
}

#[test]
fn issue_format_unused_without_notes() {
    let config = sample_config("{version}", "#{unknown}");
    let mut writer = StringWriter::text();
    let notes = compile_release_notes(&mut writer, &config, "1.0", "d", &vec![vec![], vec![]]);
    assert_eq!(notes, Ok("1.0\n===\n".to_string()));
}

#[test]
fn prepends_to_existing_notes() {
    assert_eq!(prepend_notes("new\n", "old"), "new\n\nold");
}
