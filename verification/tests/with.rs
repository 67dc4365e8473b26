use std::str;

use fromenv::env::Env;
use fromenv::error::FromEnvErrors;
use fromenv::parser::ParseResult;
use fromenv::parser::into;
use fromenv::resolve::FieldOutcome;
use fromenv::resolve::resolve_flat_reading;
use fromenv::schema::FieldDescriptor;

fn flat(
    name: &str,
    var: Option<&str>,
    default: Option<&str>,
    optional: bool,
) -> FieldDescriptor {
    FieldDescriptor::flat(
        name.to_owned(),
        var.map(|s| s.to_owned()),
        default.map(|s| s.to_owned()),
        optional,
    )
    .unwrap()
}

fn resolved<T>(out: FieldOutcome<T>) -> T {
    match out {
        FieldOutcome::Resolved(v) => v,
        _ => panic!("expected the field to resolve"),
    }
}

/// Reads a variable and runs a custom converter on it, as the engine's
/// standard composition does for the built-in one.
fn read_with<T, F: Fn(&str) -> ParseResult<T>>(
    env: &Env,
    var: &str,
    convert: F,
) -> Option<(String, ParseResult<T>)> {
    env.read(var).map(|raw| {
        let parsed = convert(&raw);
        (raw, parsed)
    })
}

#[test]
fn with_into_parser() {
    let env = Env::new();
    let mut errors = FromEnvErrors::new();
    let desc = flat(
        "database_url",
        Some("DATABASE_URL"),
        Some("postgres://postgres@postgres/postgres"),
        false,
    );
    let reading = read_with(&env, "DATABASE_URL", into);
    let out = resolve_flat_reading::<String>(
        &desc,
        None,
        reading,
        Some(into("postgres://postgres@postgres/postgres")),
        "Config",
        &mut errors,
    );
    assert!(!errors.has_errors());
    assert_eq!(resolved(out), "postgres://postgres@postgres/postgres");
}

/// A test-local stand-in for an opaque secret wrapper: constructible from
/// a string, but with no textual parser of its own.
struct Secret(String);

impl Secret {
    fn expose_secret(&self) -> &str {
        &self.0
    }
}

impl From<String> for Secret {
    fn from(value: String) -> Secret {
        Secret(value)
    }
}

fn into_secret(s: &str) -> ParseResult<Secret> {
    into(s).map(Secret::from)
}

#[test]
fn with_into_secret() {
    let mut env = Env::new();
    env.set("API_KEY", "definitely-not-an-api-key");
    let mut errors = FromEnvErrors::new();
    let desc = flat("api_key", Some("API_KEY"), None, false);
    let reading = read_with(&env, "API_KEY", into_secret);
    let out = resolve_flat_reading::<Secret>(&desc, None, reading, None, "Config", &mut errors);
    assert!(!errors.has_errors());

    let expected = Secret::from("definitely-not-an-api-key".to_owned());
    let actual = resolved(out);
    assert_eq!(expected.expose_secret(), actual.expose_secret());
}

fn frobnicate(s: &str) -> ParseResult<u16> {
    let mut v = s.as_bytes().to_vec();
    v.rotate_left(2);
    let s = str::from_utf8(&v).map_err(|e| e.to_string())?;
    s.strip_prefix("0o")
        .ok_or_else(|| "not an octal".to_owned())
        .and_then(|s| u16::from_str_radix(s, 8).map_err(|e| e.to_string()))
}

#[test]
fn with_custom_parser_function() {
    let mut env = Env::new();
    env.set("SERVER_PORT", "300o");
    let mut errors = FromEnvErrors::new();
    let desc = flat("port", Some("SERVER_PORT"), None, false);
    let reading = read_with(&env, "SERVER_PORT", frobnicate);
    let out = resolve_flat_reading::<u16>(&desc, None, reading, None, "Config", &mut errors);
    assert!(!errors.has_errors());
    assert_eq!(resolved(out), 24);
}

fn comma_separated(s: &str) -> ParseResult<Vec<String>> {
    Ok(s.split(',').map(ToOwned::to_owned).collect())
}

#[test]
fn collection_types() {
    let mut env = Env::new();
    env.set("KAFKA_TOPICS", "a,b,c");
    let mut errors = FromEnvErrors::new();
    let desc = flat("topics", Some("KAFKA_TOPICS"), None, false);
    let reading = read_with(&env, "KAFKA_TOPICS", comma_separated);
    let out = resolve_flat_reading::<Vec<String>>(&desc, None, reading, None, "Config", &mut errors);
    assert!(!errors.has_errors());

    let expected = vec!["a".to_owned(), "b".to_owned(), "c".to_owned()];
    assert_eq!(expected, resolved(out));
}
