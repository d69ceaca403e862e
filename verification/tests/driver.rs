//! Tests for the invocation driver: request preparation, executable
//! resolution, and classification of a finished run.

use rustfmt_wrapper::Error;
use rustfmt_wrapper::classify_output;
use rustfmt_wrapper::config::Config;
use rustfmt_wrapper::config::Edition;
use rustfmt_wrapper::launch_failure;
use rustfmt_wrapper::resolve_rustfmt;
use rustfmt_wrapper::rustfmt;
use rustfmt_wrapper::rustfmt_config;
use rustfmt_wrapper::which_rustfmt;

#[test]
fn default_entry_point_uses_baseline_configuration() {
    let req = rustfmt("struct Foo { bar: String }".to_string());
    assert_eq!(req.source, "struct Foo { bar: String }");
    assert_eq!(req.config_text, "wrap_comments = true\nedition = \"2018\"\n");
}

#[test]
fn unset_edition_is_normalized_to_default() {
    let req = rustfmt_config(Config::default(), "fn f() {}".to_string());
    assert_eq!(req.config_text, "edition = \"2018\"\n");
    assert_eq!(req.source, "fn f() {}");
}

#[test]
fn set_edition_is_kept() {
    let config = Config {
        edition: Some(Edition::Edition2021),
        ..Default::default()
    };
    let req = rustfmt_config(config, "fn f() {}".to_string());
    assert_eq!(req.config_text, "edition = \"2021\"\n");
}

#[test]
fn narrow_width_request_carries_the_constraint() {
    let config = Config {
        max_width: Some(45),
        ..Default::default()
    };
    let input = "async fn go() { let _ = Client::new().operation_id().send().await?; }";
    let req = rustfmt_config(config, input.to_string());
    assert_eq!(req.config_text, "max_width = 45\nedition = \"2018\"\n");
    assert_eq!(req.source, input);
}

#[test]
fn doc_comment_request_carries_both_toggles() {
    let config = Config {
        normalize_doc_attributes: Some(true),
        wrap_comments: Some(true),
        ..Default::default()
    };
    let req = rustfmt_config(config, "struct Foo { bar: String }".to_string());
    assert_eq!(
        req.config_text,
        "wrap_comments = true\nnormalize_doc_attributes = true\nedition = \"2018\"\n"
    );
}

#[test]
fn override_wins_when_set_and_non_empty() {
    let r = which_rustfmt(Some("/custom/rustfmt".to_string()), Some("/found/rustfmt".to_string()));
    assert_eq!(r, Some("/custom/rustfmt".to_string()));
    let r = which_rustfmt(Some("/custom/rustfmt".to_string()), None);
    assert_eq!(r, Some("/custom/rustfmt".to_string()));
}

#[test]
fn empty_override_falls_through_to_discovery() {
    let empty = which_rustfmt(Some(String::new()), Some("/found/rustfmt".to_string()));
    let unset = which_rustfmt(None, Some("/found/rustfmt".to_string()));
    assert_eq!(empty, unset);
    assert_eq!(empty, Some("/found/rustfmt".to_string()));
    assert_eq!(which_rustfmt(Some(String::new()), None), None);
}

#[test]
fn missing_tool_is_reported_before_any_launch() {
    let r = resolve_rustfmt(None, None);
    assert!(matches!(r, Err(Error::NoRustfmt)));
    let r = resolve_rustfmt(Some(String::new()), None);
    assert!(matches!(r, Err(Error::NoRustfmt)));
}

#[test]
fn successful_run_returns_decoded_stdout() {
    let stdout = "fn main() {}\n".as_bytes().to_vec();
    let r = classify_output(true, stdout, Vec::new());
    match r {
        Ok(text) => assert_eq!(text, "fn main() {}\n"),
        Err(_) => panic!("expected the formatted text"),
    }
}

#[test]
fn failed_run_returns_stderr_verbatim() {
    let stderr = "error: this is not Rust\n".as_bytes().to_vec();
    let r = classify_output(false, Vec::new(), stderr);
    match r {
        Err(Error::Rustfmt(diag)) => assert_eq!(diag, "error: this is not Rust\n"),
        _ => panic!("expected the tool-runtime error"),
    }
}

#[test]
fn invalid_output_bytes_are_a_conversion_error() {
    let r = classify_output(true, vec![0xffu8, 0xfe], Vec::new());
    assert!(matches!(r, Err(Error::Conversion)));
    let r = classify_output(false, Vec::new(), vec![0xffu8, 0xfe]);
    assert!(matches!(r, Err(Error::Conversion)));
}

#[test]
fn launch_failure_classifies_missing_executable() {
    let e = launch_failure(true, "No such file or directory".to_string());
    assert!(matches!(e, Error::NoRustfmt));
    let e = launch_failure(false, "Permission denied".to_string());
    match e {
        Error::IO(message) => assert_eq!(message, "Permission denied"),
        _ => panic!("expected the transport error"),
    }
}
