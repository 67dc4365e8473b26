use fromenv::config::error::ConfigError;
use fromenv::config::error::ConfigErrors;
use fromenv::config::parser::ParserResult;
use fromenv::env::Env;
use fromenv::error::FromEnvErrors;
use fromenv::resolve::FieldOutcome;
use fromenv::resolve::dotted;
use fromenv::resolve::resolve_flat;
use fromenv::resolve::resolve_flat_reading;
use fromenv::resolve::resolve_nested;
use fromenv::resolve::resolve_nested_optional;
use fromenv::schema::FieldDescriptor;

fn flat(
    name: &str,
    var: Option<&str>,
    default: Option<&str>,
    optional: bool,
) -> FieldDescriptor {
    FieldDescriptor::flat(
        name.to_owned(),
        var.map(|s| s.to_owned()),
        default.map(|s| s.to_owned()),
        optional,
    )
    .unwrap()
}

fn resolved<T>(out: FieldOutcome<T>) -> T {
    match out {
        FieldOutcome::Resolved(v) => v,
        _ => panic!("expected the field to resolve"),
    }
}

#[test]
fn basic_env_variable_parsing() {
    let mut env = Env::new();
    env.set("DATABASE_URL", "postgres://postgres@postgres/postgres");
    let mut errors = FromEnvErrors::new();
    let out = resolve_flat::<String>(
        &flat("db_url", Some("DATABASE_URL"), None, false),
        None,
        &env,
        "Config",
        &mut errors,
    );
    assert!(!errors.has_errors());
    assert_eq!(resolved(out), "postgres://postgres@postgres/postgres");
}

#[test]
fn basic_default_value_fallback() {
    let env = Env::new();
    let mut errors = FromEnvErrors::new();
    let out = resolve_flat::<u16>(
        &flat("port", Some("APP_PORT"), Some("8080"), false),
        None,
        &env,
        "Config",
        &mut errors,
    );
    assert!(!errors.has_errors());
    assert_eq!(resolved(out), 8080);
}

#[test]
fn basic_invalid_value_returns_error_despite_default() {
    let mut env = Env::new();
    env.set("APP_PORT", "not a u16");
    let mut errors = FromEnvErrors::new();
    let out = resolve_flat::<u16>(
        &flat("port", Some("APP_PORT"), Some("8080"), false),
        None,
        &env,
        "Config",
        &mut errors,
    );
    assert!(matches!(out, FieldOutcome::Failed));
    assert!(errors.has_errors());
}

#[test]
fn basic_implicit_env_name_uses_uppercase_field() {
    let mut env = Env::new();
    env.set("PORT", "8080");
    let mut errors = FromEnvErrors::new();
    let out = resolve_flat::<u16>(
        &flat("port", None, None, false),
        None,
        &env,
        "Config",
        &mut errors,
    );
    assert!(!errors.has_errors());
    assert_eq!(resolved(out), 8080);
}

#[test]
fn basic_builder_overrides_env_values() {
    let mut env = Env::new();
    env.set("PORT", "8080");
    let mut errors = FromEnvErrors::new();
    let out = resolve_flat::<u16>(
        &flat("port", None, None, false),
        Some(56781),
        &env,
        "Config",
        &mut errors,
    );
    assert!(!errors.has_errors());
    assert_eq!(resolved(out), 56781);
}

#[test]
fn basic_builder_bypasses_invalid_env_values() {
    let mut env = Env::new();
    env.set("PORT", "not-a-u16");
    let mut errors = FromEnvErrors::new();
    let out = resolve_flat::<u16>(
        &flat("port", None, None, false),
        Some(56781),
        &env,
        "Config",
        &mut errors,
    );
    assert!(!errors.has_errors());
    assert_eq!(resolved(out), 56781);
}

#[test]
fn basic_optional_fields() {
    let env = Env::new();
    let mut errors = FromEnvErrors::new();
    let attrs = resolve_flat::<String>(
        &flat("resource_attributes", Some("OTEL_RESOURCE_ATTRIBUTES"), None, true),
        None,
        &env,
        "Config",
        &mut errors,
    );
    let level = resolve_flat::<String>(
        &flat("log_level", Some("OTEL_LOG_LEVEL"), Some("info"), false),
        None,
        &env,
        "Config",
        &mut errors,
    );
    assert!(!errors.has_errors());
    assert!(matches!(attrs, FieldOutcome::Absent));
    assert_eq!(resolved(level), "info");
}

#[derive(Debug, PartialEq)]
struct KafkaConfig {
    brokers: String,
}

#[derive(Debug, PartialEq)]
struct AppConfig {
    database_url: String,
    kafka: KafkaConfig,
}

fn finalize_kafka(
    staged_brokers: Option<String>,
    env: &Env,
    prefix: &str,
) -> Result<KafkaConfig, FromEnvErrors> {
    let mut errors = FromEnvErrors::new();
    let brokers = resolve_flat::<String>(
        &flat("brokers", Some("KAFKA_BROKERS"), None, false),
        staged_brokers,
        env,
        prefix,
        &mut errors,
    );
    if errors.has_errors() {
        return Err(errors);
    }
    match brokers {
        FieldOutcome::Resolved(brokers) => Ok(KafkaConfig { brokers }),
        _ => unreachable!(),
    }
}

fn finalize_app(
    staged_database_url: Option<String>,
    staged_brokers: Option<String>,
    env: &Env,
) -> Result<AppConfig, FromEnvErrors> {
    let mut errors = FromEnvErrors::new();
    let database_url = resolve_flat::<String>(
        &flat("database_url", None, None, false),
        staged_database_url,
        env,
        "AppConfig",
        &mut errors,
    );
    let kafka_prefix = dotted("AppConfig", "kafka");
    let kafka = resolve_nested(finalize_kafka(staged_brokers, env, &kafka_prefix), &mut errors);
    if errors.has_errors() {
        return Err(errors);
    }
    match (database_url, kafka) {
        (FieldOutcome::Resolved(database_url), FieldOutcome::Resolved(kafka)) => {
            Ok(AppConfig { database_url, kafka })
        },
        _ => unreachable!(),
    }
}

#[test]
fn nested_nested_config_structs() {
    let mut env = Env::new();
    env.set("DATABASE_URL", "postgres://postgres@postgres/postgres");
    env.set("KAFKA_BROKERS", "kafka:29092");

    let expected = AppConfig {
        database_url: "postgres://postgres@postgres/postgres".into(),
        kafka: KafkaConfig { brokers: "kafka:29092".into() },
    };
    let actual = finalize_app(None, None, &env).unwrap();
    assert_eq!(expected, actual);
}

#[test]
fn nested_nested_builder_methods() {
    let env = Env::new();

    let expected = AppConfig {
        database_url: "postgres://postgres@postgres/postgres".into(),
        kafka: KafkaConfig { brokers: "kafka:29092".into() },
    };
    let actual = finalize_app(
        Some("postgres://postgres@postgres/postgres".into()),
        Some("kafka:29092".into()),
        &env,
    )
    .unwrap();
    assert_eq!(expected, actual);
}

#[derive(Debug, PartialEq)]
struct WideKafkaConfig {
    brokers: String,
    topics: String,
}

#[derive(Debug, PartialEq)]
struct OptionalApp {
    database_url: String,
    kafka: Option<WideKafkaConfig>,
}

fn finalize_wide_kafka(env: &Env, prefix: &str) -> Result<WideKafkaConfig, FromEnvErrors> {
    let mut errors = FromEnvErrors::new();
    let brokers = resolve_flat::<String>(
        &flat("brokers", Some("KAFKA_BROKERS"), None, false),
        None,
        env,
        prefix,
        &mut errors,
    );
    let topics = resolve_flat::<String>(
        &flat("topics", Some("KAFKA_TOPICS"), None, false),
        None,
        env,
        prefix,
        &mut errors,
    );
    if errors.has_errors() {
        return Err(errors);
    }
    match (brokers, topics) {
        (FieldOutcome::Resolved(brokers), FieldOutcome::Resolved(topics)) => {
            Ok(WideKafkaConfig { brokers, topics })
        },
        _ => unreachable!(),
    }
}

#[test]
fn nested_optional_nested_structs() {
    let mut env = Env::new();
    env.set("DATABASE_URL", "postgres://postgres@postgres/postgres");
    env.set("KAFKA_BROKERS", "kafka:29092");
    // Leave KAFKA_TOPICS unset.

    let mut errors = FromEnvErrors::new();
    let database_url = resolve_flat::<String>(
        &flat("database_url", None, None, false),
        None,
        &env,
        "AppConfig",
        &mut errors,
    );
    let kafka_prefix = dotted("AppConfig", "kafka");
    let kafka = resolve_nested_optional(finalize_wide_kafka(&env, &kafka_prefix), &mut errors);
    assert!(!errors.has_errors());

    let expected = OptionalApp {
        database_url: "postgres://postgres@postgres/postgres".into(),
        kafka: None,
    };
    let actual = OptionalApp {
        database_url: resolved(database_url),
        kafka: match kafka {
            FieldOutcome::Resolved(k) => Some(k),
            FieldOutcome::Absent => None,
            FieldOutcome::Failed => unreachable!(),
        },
    };
    assert_eq!(expected, actual);
}

fn read_with<T, F: Fn(&str) -> ParserResult<T>>(
    env: &Env,
    var: &str,
    convert: F,
) -> Option<(String, ParserResult<T>)> {
    env.read(var).map(|raw| {
        let parsed = convert(&raw);
        (raw, parsed)
    })
}

#[test]
fn with_with_into_parser() {
    let env = Env::new();
    let mut errors = FromEnvErrors::new();
    let desc = flat(
        "database_url",
        Some("DATABASE_URL"),
        Some("postgres://postgres@postgres/postgres"),
        false,
    );
    let reading = read_with(&env, "DATABASE_URL", fromenv::config::parser::into);
    let out = resolve_flat_reading::<String>(
        &desc,
        None,
        reading,
        Some(fromenv::config::parser::into("postgres://postgres@postgres/postgres")),
        "Config",
        &mut errors,
    );
    assert!(!errors.has_errors());
    assert_eq!(resolved(out), "postgres://postgres@postgres/postgres");
}

struct Secret(String);

impl Secret {
    fn expose_secret(&self) -> &str {
        &self.0
    }
}

impl From<String> for Secret {
    fn from(value: String) -> Secret {
        Secret(value)
    }
}

fn into_secret(s: &str) -> ParserResult<Secret> {
    fromenv::config::converter::into(s).map(Secret::from)
}

#[test]
fn with_with_into_secret() {
    let mut env = Env::new();
    env.set("API_KEY", "definitely-not-an-api-key");
    let mut errors = FromEnvErrors::new();
    let desc = flat("api_key", Some("API_KEY"), None, false);
    let reading = read_with(&env, "API_KEY", into_secret);
    let out = resolve_flat_reading::<Secret>(&desc, None, reading, None, "Config", &mut errors);
    assert!(!errors.has_errors());

    let expected = Secret::from("definitely-not-an-api-key".to_owned());
    let actual = resolved(out);
    assert_eq!(expected.expose_secret(), actual.expose_secret());
}

fn frobnicate(s: &str) -> ParserResult<u16> {
    let mut v = s.as_bytes().to_vec();
    v.rotate_left(2);
    let s = std::str::from_utf8(&v).map_err(|e| e.to_string())?;
    s.parse::<u16>().map_err(|e| e.to_string())
}

#[test]
fn with_with_custom_parser_function() {
    let mut env = Env::new();
    env.set("SERVER_PORT", "3000");
    let mut errors = FromEnvErrors::new();
    let desc = flat("port", Some("SERVER_PORT"), None, false);
    let reading = read_with(&env, "SERVER_PORT", frobnicate);
    let out = resolve_flat_reading::<u16>(&desc, None, reading, None, "Config", &mut errors);
    assert!(!errors.has_errors());
    assert_eq!(resolved(out), 30);
}

fn comma_separated(s: &str) -> ParserResult<Vec<String>> {
    Ok(s.split(',').map(ToOwned::to_owned).collect())
}

#[test]
fn with_collection_types() {
    let mut env = Env::new();
    env.set("KAFKA_TOPICS", "a,b,c");
    let mut errors = FromEnvErrors::new();
    let desc = flat("topics", Some("KAFKA_TOPICS"), None, false);
    let reading = read_with(&env, "KAFKA_TOPICS", comma_separated);
    let out = resolve_flat_reading::<Vec<String>>(&desc, None, reading, None, "Config", &mut errors);
    assert!(!errors.has_errors());

    let expected = vec!["a".to_owned(), "b".to_owned(), "c".to_owned()];
    assert_eq!(expected, resolved(out));
}

#[test]
fn config_errors_report_format() {
    let mut errors = ConfigErrors::new();
    assert!(!errors.has_errors());
    assert!(errors.only_missing_errors());

    errors.add(ConfigError::MissingEnv { env_var: "DATABASE_URL".to_owned() });
    errors.add(ConfigError::ParseError {
        env_var: "PORT".to_owned(),
        value: "invalid".to_owned(),
        error: "invalid digit found in string".to_owned(),
    });
    assert!(errors.has_errors());
    assert!(!errors.only_missing_errors());

    let expected = r#"2 configuration errors:
  1. Missing required environment variable 'DATABASE_URL'
  2. Failed to parse 'invalid' from environment variable 'PORT': invalid digit found in string
"#;
    assert_eq!(expected, errors.message());
}

#[test]
fn config_errors_extend_keeps_order_and_kind() {
    let mut parent = ConfigErrors::new();
    parent.add(ConfigError::MissingEnv { env_var: "FIRST".to_owned() });

    let mut child = ConfigErrors::new();
    child.add(ConfigError::MissingValue { field: "second".to_owned() });
    assert!(child.only_missing_errors());

    parent.extend(child);
    assert!(parent.only_missing_errors());

    let expected = r#"2 configuration errors:
  1. Missing required environment variable 'FIRST'
  2. No value provided for 'second'
"#;
    assert_eq!(expected, parent.message());
}
