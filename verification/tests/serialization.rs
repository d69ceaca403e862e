//! Tests for the configuration model: serialization of each value type, the
//! omission of unset fields, and the unstable-option queries.

use rustfmt_wrapper::config::Config;
use rustfmt_wrapper::config::Edition;
use rustfmt_wrapper::config::Heuristics;
use rustfmt_wrapper::config::NewlineStyle;
use rustfmt_wrapper::config::Version;
use rustfmt_wrapper::config::serialize;

fn occurrences(hay: &str, needle: &str) -> usize {
    hay.matches(needle).count()
}

#[test]
fn empty_config_serializes_to_nothing() {
    let config = Config::default();
    assert_eq!(serialize(&config), "");
}

#[test]
fn unset_fields_are_omitted() {
    let config = Config {
        max_width: Some(45),
        ..Default::default()
    };
    let text = serialize(&config);
    assert_eq!(text, "max_width = 45\n");
    assert_eq!(occurrences(&text, "hard_tabs"), 0);
    assert_eq!(occurrences(&text, "edition"), 0);
}

#[test]
fn numeric_fields_render_as_decimal_literals() {
    let config = Config {
        tab_spaces: Some(0),
        fn_call_width: Some(12345),
        chain_width: Some(usize::MAX),
        ..Default::default()
    };
    let text = serialize(&config);
    assert_eq!(
        text,
        "tab_spaces = 0\nfn_call_width = 12345\nchain_width = 18446744073709551615\n"
    );
}

#[test]
fn boolean_fields_render_literally() {
    let config = Config {
        hard_tabs: Some(false),
        wrap_comments: Some(true),
        ..Default::default()
    };
    assert_eq!(serialize(&config), "hard_tabs = false\nwrap_comments = true\n");
}

#[test]
fn enumeration_fields_render_as_quoted_tags() {
    let config = Config {
        newline_style: Some(NewlineStyle::Unix),
        use_small_heuristics: Some(Heuristics::Max),
        version: Some(Version::Two),
        ..Default::default()
    };
    assert_eq!(
        serialize(&config),
        "newline_style = \"Unix\"\nuse_small_heuristics = \"Max\"\nversion = \"Two\"\n"
    );
}

#[test]
fn edition_renders_as_quoted_year() {
    for (edition, expected) in [
        (Edition::Edition2015, "edition = \"2015\"\n"),
        (Edition::Edition2018, "edition = \"2018\"\n"),
        (Edition::Edition2021, "edition = \"2021\"\n"),
        (Edition::Edition2024, "edition = \"2024\"\n"),
    ] {
        let config = Config {
            edition: Some(edition),
            ..Default::default()
        };
        assert_eq!(serialize(&config), expected);
    }
}

#[test]
fn set_fields_appear_exactly_once() {
    let config = Config {
        max_width: Some(80),
        wrap_comments: Some(true),
        normalize_doc_attributes: Some(true),
        comment_width: Some(80),
        edition: Some(Edition::Edition2021),
        ..Default::default()
    };
    let text = serialize(&config);
    assert_eq!(occurrences(&text, "max_width = 80\n"), 1);
    assert_eq!(occurrences(&text, "wrap_comments = true\n"), 1);
    assert_eq!(occurrences(&text, "normalize_doc_attributes = true\n"), 1);
    assert_eq!(occurrences(&text, "comment_width = 80\n"), 1);
    assert_eq!(occurrences(&text, "edition = \"2021\"\n"), 1);
    assert_eq!(occurrences(&text, " = "), 5);
}

#[test]
fn fields_serialize_in_declaration_order() {
    let config = Config {
        max_width: Some(100),
        wrap_comments: Some(true),
        edition: Some(Edition::Edition2021),
        ..Default::default()
    };
    assert_eq!(
        serialize(&config),
        "max_width = 100\nwrap_comments = true\nedition = \"2021\"\n"
    );
}

#[test]
fn unstable_is_false_for_default_and_stable_fields() {
    let config = Config::default();
    assert!(!config.unstable());
    assert_eq!(config.list_unstable(), "");

    let stable_only = Config {
        max_width: Some(100),
        edition: Some(Edition::Edition2018),
        reorder_imports: Some(true),
        ..Default::default()
    };
    assert!(!stable_only.unstable());
    assert_eq!(stable_only.list_unstable(), "");
}

#[test]
fn unstable_reports_set_unstable_fields() {
    let config = Config {
        max_width: Some(100),
        wrap_comments: Some(true),
        ..Default::default()
    };
    assert!(config.unstable());
    assert_eq!(config.list_unstable(), "wrap_comments");

    let two = Config {
        wrap_comments: Some(true),
        normalize_doc_attributes: Some(true),
        ..Default::default()
    };
    assert!(two.unstable());
    assert_eq!(two.list_unstable(), "wrap_comments, normalize_doc_attributes");
}
