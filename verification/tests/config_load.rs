//! Configuration loading: documented defaults, typed errors, and reading
//! through a source.

use rust_rider::config::{Config, StaticConfigSource};
use rust_rider::error::CoreError;

#[test]
fn empty_object_yields_every_default() {
    let config = Config::from_json_str("{}").unwrap();
    assert_eq!(config.window.title, "");
    assert_eq!(config.window.size.width, 1600);
    assert_eq!(config.window.size.height, 1000);
    assert_eq!(config.window.samples, 0);
    assert!(!config.window.fullscreen);
    assert!(!config.window.exit_on_esc);
    assert!(!config.window.vsync);
    assert!(!config.window.srgb);
    assert!(!config.window.resizable);
    assert!(!config.window.decorated);
    assert!(!config.window.controllers);
    assert_eq!(config.event.max_fps, 60);
    assert_eq!(config.event.ups, 120);
    assert_eq!(config.event.ups_reset, 2);
    assert!(config.event.swap_buffers);
    assert!(!config.event.bench_mode);
    assert!(!config.event.lazy);
}

#[test]
fn default_impl_matches_the_empty_source() {
    let parsed = Config::from_json_str("{}").unwrap();
    let built = Config::default();
    assert_eq!(parsed.window.title, built.window.title);
    assert_eq!(parsed.window.size, built.window.size);
    assert_eq!(parsed.window.samples, built.window.samples);
    assert_eq!(parsed.event, built.event);
}

#[test]
fn every_field_present_overrides_its_default() {
    let text = r#"{
        "window": {
            "title": "editor",
            "size": { "width": 800, "height": 600 },
            "samples": 4,
            "fullscreen": true,
            "exit_on_esc": true,
            "vsync": true,
            "srgb": true,
            "resizable": true,
            "decorated": true,
            "controllers": true
        },
        "event": {
            "max_fps": 30,
            "ups": 240,
            "ups_reset": 5,
            "swap_buffers": false,
            "bench_mode": true,
            "lazy": true
        }
    }"#;
    let config = Config::from_json_str(text).unwrap();
    assert_eq!(config.window.title, "editor");
    assert_eq!(config.window.size.width, 800);
    assert_eq!(config.window.size.height, 600);
    assert_eq!(config.window.samples, 4);
    assert!(config.window.fullscreen);
    assert!(config.window.exit_on_esc);
    assert!(config.window.vsync);
    assert!(config.window.srgb);
    assert!(config.window.resizable);
    assert!(config.window.decorated);
    assert!(config.window.controllers);
    assert_eq!(config.event.max_fps, 30);
    assert_eq!(config.event.ups, 240);
    assert_eq!(config.event.ups_reset, 5);
    assert!(!config.event.swap_buffers);
    assert!(config.event.bench_mode);
    assert!(config.event.lazy);
}

#[test]
fn absent_fields_of_a_present_object_keep_their_defaults() {
    let config = Config::from_json_str(r#"{"window": {"title": "partial"}}"#).unwrap();
    assert_eq!(config.window.title, "partial");
    assert_eq!(config.window.size.width, 1600);
    assert_eq!(config.window.size.height, 1000);
    assert_eq!(config.event.max_fps, 60);

    let config = Config::from_json_str(r#"{"window": {"size": {"width": 320}}}"#).unwrap();
    assert_eq!(config.window.size.width, 320);
    assert_eq!(config.window.size.height, 1000);
}

#[test]
fn unknown_members_are_ignored() {
    let config =
        Config::from_json_str(r#"{"extra": [1, 2.5, null], "window": {"unknown": "x"}}"#).unwrap();
    assert_eq!(config.window.size.width, 1600);
}

#[test]
fn malformed_json_is_a_format_error() {
    assert_eq!(Config::from_json_str("{"), Err(CoreError::ExternalFormat));
    assert_eq!(Config::from_json_str(""), Err(CoreError::ExternalFormat));
    assert_eq!(Config::from_json_str("{\"window\": }"), Err(CoreError::ExternalFormat));
}

#[test]
fn a_document_that_is_no_object_is_a_format_error() {
    assert_eq!(Config::from_json_str("[1, 2]"), Err(CoreError::ExternalFormat));
    assert_eq!(Config::from_json_str("42"), Err(CoreError::ExternalFormat));
    assert_eq!(Config::from_json_str("null"), Err(CoreError::ExternalFormat));
}

#[test]
fn an_ill_typed_field_is_a_format_error() {
    assert_eq!(
        Config::from_json_str(r#"{"window": {"title": 3}}"#),
        Err(CoreError::ExternalFormat)
    );
    assert_eq!(
        Config::from_json_str(r#"{"window": {"fullscreen": "yes"}}"#),
        Err(CoreError::ExternalFormat)
    );
    assert_eq!(
        Config::from_json_str(r#"{"window": 7}"#),
        Err(CoreError::ExternalFormat)
    );
    assert_eq!(
        Config::from_json_str(r#"{"event": {"max_fps": "fast"}}"#),
        Err(CoreError::ExternalFormat)
    );
    assert_eq!(
        Config::from_json_str(r#"{"event": {"max_fps": 1.5}}"#),
        Err(CoreError::ExternalFormat)
    );
    assert_eq!(
        Config::from_json_str(r#"{"event": {"max_fps": -1}}"#),
        Err(CoreError::ExternalFormat)
    );
}

#[test]
fn a_number_out_of_its_field_range_is_a_format_error() {
    assert_eq!(
        Config::from_json_str(r#"{"window": {"samples": 300}}"#),
        Err(CoreError::ExternalFormat)
    );
    assert_eq!(
        Config::from_json_str(r#"{"window": {"size": {"width": 4294967296}}}"#),
        Err(CoreError::ExternalFormat)
    );
    let config =
        Config::from_json_str(r#"{"window": {"size": {"width": 4294967295}}}"#).unwrap();
    assert_eq!(config.window.size.width, u32::MAX);
}

#[test]
fn from_path_str_reads_through_the_source() {
    let source = StaticConfigSource::new(vec![(
        String::from("config.json"),
        String::from(r#"{"event": {"max_fps": 144}}"#),
    )]);
    let config = Config::from_path_str("config.json", &source).unwrap();
    assert_eq!(config.event.max_fps, 144);
    assert_eq!(config.window.size.width, 1600);
}

#[test]
fn a_missing_path_is_an_io_error() {
    let source = StaticConfigSource::new(vec![]);
    assert_eq!(
        Config::from_path_str("config.json", &source),
        Err(CoreError::ExternalIo)
    );
}

#[test]
fn a_malformed_file_is_a_format_error() {
    let source = StaticConfigSource::new(vec![(
        String::from("config.json"),
        String::from("not json"),
    )]);
    assert_eq!(
        Config::from_path_str("config.json", &source),
        Err(CoreError::ExternalFormat)
    );
}

#[test]
fn the_first_entry_of_a_path_wins() {
    let source = StaticConfigSource::new(vec![
        (String::from("a"), String::from(r#"{"event": {"ups": 1}}"#)),
        (String::from("a"), String::from(r#"{"event": {"ups": 2}}"#)),
    ]);
    let config = Config::from_path_str("a", &source).unwrap();
    assert_eq!(config.event.ups, 1);
}

#[test]
fn escaped_strings_reach_the_title_unchanged() {
    let config = Config::from_json_str(r#"{"window": {"title": "a\"b\\c"}}"#).unwrap();
    assert_eq!(config.window.title, "a\"b\\c");
}
