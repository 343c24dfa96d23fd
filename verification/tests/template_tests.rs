//! Tests of the metadata model and the template engine.

use ytdl_operator::error::Error;
use ytdl_operator::metadata::{get_thumbnail_url, parse_entity, parse_id, Metadata};
use ytdl_operator::template::template_key;

fn chars(s: &str) -> Vec<char> {
    s.chars().collect()
}

fn string_of(v: &[char]) -> String {
    v.iter().collect()
}

#[test]
fn parse_id_reads_the_id_field() {
    let line = String::from("{\"id\":\"abc\",\"ext\":\"mp4\"}");
    assert_eq!(parse_id(&line), Some(String::from("abc")));
}

#[test]
fn parse_id_rejects_non_json() {
    let line = String::from("WARNING: video is age restricted");
    assert_eq!(parse_id(&line), None);
}

#[test]
fn parse_id_rejects_non_string_id() {
    let line = String::from("{\"id\":42}");
    assert_eq!(parse_id(&line), None);
}

#[test]
fn parse_id_rejects_non_object() {
    let line = String::from("[1,2,3]");
    assert_eq!(parse_id(&line), None);
}

#[test]
fn parse_entity_carries_the_line_verbatim() {
    let line = String::from("{\"id\":\"xyz\",\"title\":\"t\"}");
    let e = parse_entity(&line).unwrap();
    assert_eq!(e.id, "xyz");
    assert_eq!(e.metadata, line);
}

#[test]
fn template_expands_default_template() {
    let line = String::from("{\"ext\":\"mp4\",\"id\":\"abc\"}");
    let meta = Metadata::parse(&line).unwrap();
    let key = template_key(&meta, &chars("%(id)s.%(ext)s")).unwrap();
    assert_eq!(string_of(&key), "abc.mp4");
}

#[test]
fn template_without_tokens_is_unchanged() {
    let line = String::from("{\"id\":\"abc\"}");
    let meta = Metadata::parse(&line).unwrap();
    let key = template_key(&meta, &chars("plain.mp4")).unwrap();
    assert_eq!(string_of(&key), "plain.mp4");
}

#[test]
fn template_missing_variable_fails() {
    let line = String::from("{\"ext\":\"mp4\",\"id\":\"abc\"}");
    let meta = Metadata::parse(&line).unwrap();
    let r = template_key(&meta, &chars("videos/%(uploader)s/%(id)s.mp4"));
    assert!(matches!(r, Err(Error::UserInputError(_))));
}

#[test]
fn template_non_string_value_becomes_empty() {
    let line = String::from("{\"id\":\"abc\",\"width\":640}");
    let meta = Metadata::parse(&line).unwrap();
    let key = template_key(&meta, &chars("%(width)sthumb-%(id)s.jpg")).unwrap();
    assert_eq!(string_of(&key), "thumb-abc.jpg");
}

#[test]
fn template_replaces_every_occurrence_left_to_right() {
    let line = String::from("{\"id\":\"X\"}");
    let meta = Metadata::parse(&line).unwrap();
    let key = template_key(&meta, &chars("%(id)s-%(id)s")).unwrap();
    assert_eq!(string_of(&key), "X-X");
}

#[test]
fn thumbnail_url_is_read_from_metadata() {
    let line = String::from("{\"id\":\"a\",\"thumbnail\":\"https://example.com/t.jpg\"}");
    let meta = Metadata::parse(&line).unwrap();
    assert_eq!(
        get_thumbnail_url(&meta).unwrap(),
        "https://example.com/t.jpg"
    );
}

#[test]
fn missing_thumbnail_url_is_user_input_error() {
    let line = String::from("{\"id\":\"a\"}");
    let meta = Metadata::parse(&line).unwrap();
    assert!(matches!(
        get_thumbnail_url(&meta),
        Err(Error::UserInputError(_))
    ));
}

#[test]
fn template_with_many_tokens_expands_piecewise() {
    let line = String::from(
        "{\"ext\":\"mp4\",\"id\":\"abc\",\"uploader\":\"someone\"}",
    );
    let meta = Metadata::parse(&line).unwrap();
    let key = template_key(&meta, &chars("videos/%(uploader)s/%(id)s.%(ext)s")).unwrap();
    assert_eq!(string_of(&key), "videos/someone/abc.mp4");
}
