use twitchy::json::{FieldError, Json};
use twitchy::output::{pad_to_width, render_line};
use twitchy::record::{filter, to_record, FieldName, Record};
use twitchy::text::{contains_sub, str_eq};

fn s(x: &str) -> Json {
    Json::Str(x.to_string())
}

fn obj(fields: Vec<(&str, Json)>) -> Json {
    Json::Obj(fields.into_iter().map(|(k, v)| (k.to_string(), v)).collect())
}

fn raw(lang: &str, name: &str, title: &str, game: &str) -> Json {
    obj(vec![
        ("broadcaster_language", s(lang)),
        ("display_name", s(name)),
        ("title", s(title)),
        ("game_id", s(game)),
    ])
}

fn record(lang: &str, name: &str, title: &str, game: &str) -> Record {
    Record {
        language: lang.to_string(),
        display_name: name.to_string(),
        title: title.to_string(),
        category_id: game.to_string(),
    }
}

#[test]
fn mapper_copies_fields_verbatim() {
    let j = raw("en", "  Foo Bar ", "Learning Rust live", "509670");
    let rec = to_record(&j).unwrap();
    assert_eq!(rec.language, "en");
    assert_eq!(rec.display_name, "  Foo Bar ");
    assert_eq!(rec.title, "Learning Rust live");
    assert_eq!(rec.category_id, "509670");
}

#[test]
fn mapper_rejects_missing_field() {
    let j = obj(vec![
        ("broadcaster_language", s("en")),
        ("display_name", s("foo")),
        ("game_id", s("1")),
    ]);
    let err = to_record(&j).unwrap_err();
    assert_eq!(err.field, FieldName::Title);
    assert_eq!(err.kind, FieldError::Missing);
}

#[test]
fn mapper_rejects_non_string_field() {
    let j = obj(vec![
        ("broadcaster_language", s("en")),
        ("display_name", Json::Other),
        ("title", s("t")),
        ("game_id", s("1")),
    ]);
    let err = to_record(&j).unwrap_err();
    assert_eq!(err.field, FieldName::DisplayName);
    assert_eq!(err.kind, FieldError::NotAString);
}

#[test]
fn mapper_reports_first_failing_field() {
    let j = obj(vec![("display_name", s("foo")), ("game_id", s("1"))]);
    let err = to_record(&j).unwrap_err();
    assert_eq!(err.field, FieldName::Language);
    assert_eq!(err.kind, FieldError::Missing);
}

#[test]
fn mapper_rejects_non_object() {
    let err = to_record(&Json::Other).unwrap_err();
    assert_eq!(err.field, FieldName::Language);
    assert_eq!(err.kind, FieldError::Missing);
}

#[test]
fn mapper_takes_first_binding_of_duplicate_key() {
    let j = obj(vec![
        ("broadcaster_language", s("en")),
        ("broadcaster_language", s("de")),
        ("display_name", s("foo")),
        ("title", s("t")),
        ("game_id", s("1")),
    ]);
    let rec = to_record(&j).unwrap();
    assert_eq!(rec.language, "en");
}

#[test]
fn filter_matches_lowercase_keyword() {
    assert!(filter(&record("en", "foo", "I love rust streams", "1")));
}

#[test]
fn filter_matches_capitalized_keyword() {
    assert!(filter(&record("en", "foo", "Rust after hours", "1")));
}

#[test]
fn filter_matches_uppercase_keyword() {
    assert!(filter(&record("en", "foo", "100% RUST", "1")));
}

#[test]
fn filter_rejects_other_titles() {
    assert!(!filter(&record("en", "foo", "a ruby show", "1")));
}

#[test]
fn filter_rejects_empty_title() {
    assert!(!filter(&record("en", "foo", "", "1")));
}

#[test]
fn contains_sub_examples() {
    assert!(contains_sub("hello rust world", "rust"));
    assert!(contains_sub("rust", "rust"));
    assert!(contains_sub("anything", ""));
    assert!(contains_sub("", ""));
    assert!(!contains_sub("ruby", "rust"));
    assert!(!contains_sub("rus", "rust"));
    assert!(!contains_sub("", "rust"));
}

#[test]
fn str_eq_examples() {
    assert!(str_eq("abc", "abc"));
    assert!(str_eq("", ""));
    assert!(!str_eq("abc", "abd"));
    assert!(!str_eq("abc", "ab"));
}

#[test]
fn pad_extends_short_names() {
    assert_eq!(pad_to_width("foo", 20), format!("foo{}", " ".repeat(17)));
}

#[test]
fn pad_keeps_exact_width_names() {
    let exact = "abcdefghijklmnopqrst";
    assert_eq!(exact.len(), 20);
    assert_eq!(pad_to_width(exact, 20), exact);
}

#[test]
fn pad_never_truncates() {
    let long = "abcdefghijklmnopqrstuvwxyz";
    assert_eq!(pad_to_width(long, 20), long);
}

#[test]
fn render_line_exact_bytes() {
    let rec = record("en", "foo", "Learning Rust live", "509670");
    let line = render_line(&rec);
    assert_eq!(
        line,
        format!("en | https://twitch.tv/foo{} | Learning Rust live\n", " ".repeat(17))
    );
}
