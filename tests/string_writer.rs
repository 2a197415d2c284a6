use noter::configs::NoteVariant;
use noter::{NoteFormatter, NoteWriter, StringWriter};

#[test]
fn lib_test_string_writer_text() {
    let mut writer = StringWriter::text();
    writer.spacing(2);
    assert_eq!(writer.write(), "\n\n");

    let mut writer = StringWriter::text();
    writer.title("Hello world");
    writer.spacing(1);
    assert_eq!(writer.write(), "Hello world\n===========\n\n");

    let mut writer = StringWriter::text();
    writer.title("TITLE");
    let variant = NoteVariant::new("basic", "Basic Notes", true);
    writer.variant_header(&variant);
    writer.release_note(&variant, "ticket", "description", "issue");
    writer.variant_footer();
    assert_eq!(
        writer.write(),
        "TITLE\n=====\n\nBasic Notes\n-----------\n\n- ticket: description issue\n"
    );
}

#[test]
fn lib_test_string_writer_markdown() {
    let mut writer = StringWriter::markdown();
    writer.spacing(2);
    assert_eq!(writer.write(), "\n\n");

    let mut writer = StringWriter::markdown();
    writer.title("Hello world");
    writer.spacing(2);
    assert_eq!(writer.write(), "# Hello world\n\n\n");

    let mut writer = StringWriter::markdown();
    writer.title("TITLE");
    let variant = NoteVariant::new("basic", "Basic Notes", true);
    writer.variant_header(&variant);
    writer.release_note(&variant, "ticket", "description", "issue");
    writer.variant_footer();
    assert_eq!(
        writer.write(),
        "# TITLE\n\n## Basic Notes\n\n- ticket: description issue\n"
    );
}

fn basic_writer_example(writer: &mut StringWriter) {
    writer.title("A title string");

    let variant = NoteVariant::new("basic", "Basic notes", true);

    writer.variant_header(&variant);
    writer.release_note(
        &variant,
        "TICKET0001",
        "Improve something or other",
        "<www.google.com>",
    );
    writer.release_note(
        &variant,
        "TICKET0002",
        "Improve something else too",
        "<www.google.com>",
    );
    writer.variant_footer();
}

#[test]
fn test_string_writer_text_2() {
    let mut writer = StringWriter::text();
    basic_writer_example(&mut writer);

    assert_eq!(
        writer.write(),
        r#"A title string
==============

Basic notes
-----------

- TICKET0001: Improve something or other <www.google.com>
- TICKET0002: Improve something else too <www.google.com>
"#
    );
}

#[test]
fn test_string_writer_markdown_2() {
    let mut writer = StringWriter::markdown();
    basic_writer_example(&mut writer);

    assert_eq!(
        writer.write(),
        r#"# A title string

## Basic notes

- TICKET0001: Improve something or other <www.google.com>
- TICKET0002: Improve something else too <www.google.com>
"#
    );
}

#[test]
fn text_underline_counts_bytes() {
    let lines = NoteFormatter::Text.title("Résumé");
    assert_eq!(lines, vec!["Résumé".to_string(), "========".to_string(), String::new()]);
    let lines = NoteFormatter::Text.title("");
    assert_eq!(lines, vec![String::new(), String::new(), String::new()]);
}

#[test]
fn markdown_title_has_no_underline() {
    let lines = NoteFormatter::Markdown.title("Release 1.0");
    assert_eq!(lines, vec!["# Release 1.0".to_string(), String::new()]);
}

#[test]
fn variant_headers_in_both_dialects() {
    let variant = NoteVariant::new("bugfix", "Bugfixes", true);
    assert_eq!(
        NoteFormatter::Text.variant_header(&variant),
        vec!["Bugfixes".to_string(), "--------".to_string(), String::new()]
    );
    assert_eq!(
        NoteFormatter::Markdown.variant_header(&variant),
        vec!["## Bugfixes".to_string(), String::new()]
    );
}

#[test]
fn hidden_content_leaves_out_description() {
    let variant = NoteVariant::new("misc", "Misc", false);
    let mut writer = StringWriter::text();
    writer.title("T");
    writer.release_note(&variant, "T1", "secret text", "<issue>");
    assert_eq!(writer.write(), "T\n=\n\n- T1: <issue>");
}

#[test]
fn second_write_is_empty() {
    let mut writer = StringWriter::markdown();
    basic_writer_example(&mut writer);
    assert!(!writer.write().is_empty());
    assert_eq!(writer.write(), "");
}

#[test]
fn footer_on_empty_writer_keeps_blank_line() {
    let mut writer = StringWriter::text();
    writer.variant_footer();
    assert_eq!(writer.write(), "\n");
}

#[test]
fn new_writer_writes_nothing() {
    let mut writer = StringWriter::new(NoteFormatter::Text);
    assert_eq!(writer.write(), "");
    writer.spacing(0);
    assert_eq!(writer.write(), "");
    writer.spacing(1);
    assert_eq!(writer.write(), "\n");
}
