//! Worked configuration shapes, resolved end to end through the engine.
//!
//! This is the per-field glue a code generator would emit from a
//! descriptor list, written out once and verified: a builder holding one
//! staged slot per field, fluent setters, and a `finalize` that resolves
//! every field independently against the snapshot and reports either the
//! whole object or every failure.  [`SampleConfig`] is a flat shape with
//! a required field bound to `DATABASE_URL` and a defaulted field bound
//! to `PORT`; [`SampleApp`] composes an optional nested child,
//! [`SampleKafka`], showing how a parent's finalization prefixes the
//! child's paths and collapses the child to absence when its only
//! failures are missing values.

use vstd::prelude::*;
use vstd::string::StringExecFns;
use crate::env::Env;
use crate::error::ErrorView;
use crate::error::FromEnvErrors;
use crate::error::all_missing;
use crate::resolve::FieldOutcome;
use crate::resolve::dotted;
use crate::resolve::option_view;
use crate::resolve::resolve_flat;
use crate::resolve::resolve_nested_optional;
use crate::resolve::spec_dotted;
use crate::resolve::spec_default_reading;
use crate::resolve::spec_env_reading;
use crate::resolve::spec_resolve_flat;
use crate::text::upper_seq;
use crate::schema::FieldDescriptor;
use crate::schema::FieldKind;
use crate::schema::requirements;
use crate::schema::spec_requirements;

verus! {

/// The resolved object: constructed only when every field resolved, and
/// never re-validated after that.
#[derive(Debug)]
pub struct SampleConfig {
    pub database_url: String,
    pub port: u16,
}

/// The staging object of [`SampleConfig`]: holds one optional override
/// per field, is mutated only through the setters, and is consumed
/// exactly once by [`SampleConfigBuilder::finalize`].
pub struct SampleConfigBuilder {
    database_url: Option<String>,
    port: Option<u16>,
}

impl View for SampleConfigBuilder {
    type V = (Option<Seq<char>>, Option<u16>);

    closed spec fn view(&self) -> (Option<Seq<char>>, Option<u16>) {
        (option_view(self.database_url), self.port)
    }
}

/// The descriptor of the `database_url` field.
fn database_url_descriptor() -> (r: FieldDescriptor)
    ensures
        r.wf(),
        r.name@ == "database_url"@,
        r.kind matches FieldKind::Flat { .. },
        r.spec_env_name() == "DATABASE_URL"@,
        r.spec_default() == Option::<Seq<char>>::None,
        !r.spec_optional(),
{
    match FieldDescriptor::flat(
        "database_url".to_owned(),
        Some("DATABASE_URL".to_owned()),
        None,
        false,
    ) {
        Ok(d) => d,
        Err(_) => {
            proof {
                assert(false);
            }
            FieldDescriptor::passthrough("database_url".to_owned(), false)
        },
    }
}

/// The descriptor of the `port` field.
fn port_descriptor() -> (r: FieldDescriptor)
    ensures
        r.wf(),
        r.name@ == "port"@,
        r.kind matches FieldKind::Flat { .. },
        r.spec_env_name() == "PORT"@,
        r.spec_default() == Some("8080"@),
        !r.spec_optional(),
{
    match FieldDescriptor::flat(
        "port".to_owned(),
        Some("PORT".to_owned()),
        Some("8080".to_owned()),
        false,
    ) {
        Ok(d) => d,
        Err(_) => {
            proof {
                assert(false);
            }
            FieldDescriptor::passthrough("port".to_owned(), false)
        },
    }
}

/// What finalization of the whole object comes to, over the field
/// models: the two outcomes beside the failures they record, in field
/// declaration order.
pub open spec fn spec_sample_resolution(staged: (Option<Seq<char>>, Option<u16>), env: Seq<(Seq<char>, Seq<char>)>) -> (
    (FieldOutcome<Seq<char>>, FieldOutcome<u16>),
    Seq<ErrorView>,
) {
    let (d, de) = spec_resolve_flat::<Seq<char>>(
        staged.0,
        spec_env_reading::<String>(env, "DATABASE_URL"@),
        spec_default_reading::<String>(None),
        false,
        spec_dotted("SampleConfig"@, "database_url"@),
        "DATABASE_URL"@,
    );
    let (p, pe) = spec_resolve_flat::<u16>(
        staged.1,
        spec_env_reading::<u16>(env, "PORT"@),
        spec_default_reading::<u16>(Some("8080"@)),
        false,
        spec_dotted("SampleConfig"@, "port"@),
        "PORT"@,
    );
    ((d, p), de + pe)
}

impl SampleConfig {
    /// A fresh builder with every field unset.
    pub fn from_env() -> (r: SampleConfigBuilder)
        ensures
            r@ == (Option::<Seq<char>>::None, Option::<u16>::None),
    {
        SampleConfigBuilder { database_url: None, port: None }
    }

    /// The documentation of the shape's environment variables: one
    /// `NAME=default` line per flat field.
    pub fn requirements() -> (r: String)
        ensures
            r@ == "DATABASE_URL=\nPORT=8080\n"@,
    {
        let mut fields: Vec<FieldDescriptor> = Vec::new();
        fields.push(database_url_descriptor());
        fields.push(port_descriptor());
        let r = requirements(&fields);
        proof {
            reveal_strlit("DATABASE_URL");
            reveal_strlit("PORT");
            reveal_strlit("8080");
            reveal_strlit("=");
            reveal_strlit("\n");
            reveal_strlit("DATABASE_URL=\nPORT=8080\n");
            assert(spec_requirements(fields@, 1) =~= crate::schema::requirement_line(fields@[1])
                + spec_requirements(fields@, 2));
            assert(r@ =~= "DATABASE_URL=\nPORT=8080\n"@);
        }
        r
    }
}

impl SampleConfigBuilder {
    /// Stages an override for `database_url`; the environment will not be
    /// consulted for it.
    pub fn database_url(self, value: String) -> (r: SampleConfigBuilder)
        ensures
            r@ == (Some(value@), self@.1),
    {
        SampleConfigBuilder { database_url: Some(value), port: self.port }
    }

    /// Stages an override for `port`.
    pub fn port(self, value: u16) -> (r: SampleConfigBuilder)
        ensures
            r@ == (self@.0, Some(value)),
    {
        SampleConfigBuilder { database_url: self.database_url, port: Some(value) }
    }

    /// Consumes the builder, resolving both fields independently against
    /// `env`: the constructed object where nothing failed, else every
    /// failure, in field declaration order.
    pub fn finalize(self, env: &Env) -> (r: Result<SampleConfig, FromEnvErrors>)
        ensures
            ({
                let ((d, p), errs) = spec_sample_resolution(self@, env@);
                match r {
                    Ok(c) => d == FieldOutcome::<Seq<char>>::Resolved(c.database_url@) && p
                        == FieldOutcome::<u16>::Resolved(c.port) && errs
                        == Seq::<ErrorView>::empty(),
                    Err(es) => es@ == errs && errs.len() > 0,
                }
            }),
    {
        let mut errors = FromEnvErrors::new();
        let db = resolve_flat::<String>(
            &database_url_descriptor(),
            self.database_url,
            env,
            "SampleConfig",
            &mut errors,
        );
        let port = resolve_flat::<u16>(
            &port_descriptor(),
            self.port,
            env,
            "SampleConfig",
            &mut errors,
        );
        if errors.has_errors() {
            return Err(errors);
        }
        match (db, port) {
            (FieldOutcome::Resolved(database_url), FieldOutcome::Resolved(port)) => Ok(
                SampleConfig { database_url, port },
            ),
            _ => {
                proof {
                    assert(false);
                }
                Err(errors)
            },
        }
    }
}

/// The optional nested child of [`SampleApp`]: two required flat fields.
#[derive(Debug)]
pub struct SampleKafka {
    pub brokers: String,
    pub topics: String,
}

/// The staging object of [`SampleKafka`].
pub struct SampleKafkaBuilder {
    brokers: Option<String>,
    topics: Option<String>,
}

impl View for SampleKafkaBuilder {
    type V = (Option<Seq<char>>, Option<Seq<char>>);

    closed spec fn view(&self) -> (Option<Seq<char>>, Option<Seq<char>>) {
        (option_view(self.brokers), option_view(self.topics))
    }
}

/// The descriptor of the child's `brokers` field.
fn brokers_descriptor() -> (r: FieldDescriptor)
    ensures
        r.wf(),
        r.name@ == "brokers"@,
        r.kind matches FieldKind::Flat { .. },
        r.spec_env_name() == "KAFKA_BROKERS"@,
        r.spec_default() == Option::<Seq<char>>::None,
        !r.spec_optional(),
{
    match FieldDescriptor::flat("brokers".to_owned(), Some("KAFKA_BROKERS".to_owned()), None, false) {
        Ok(d) => d,
        Err(_) => {
            proof {
                assert(false);
            }
            FieldDescriptor::passthrough("brokers".to_owned(), false)
        },
    }
}

/// The descriptor of the child's `topics` field.
fn topics_descriptor() -> (r: FieldDescriptor)
    ensures
        r.wf(),
        r.name@ == "topics"@,
        r.kind matches FieldKind::Flat { .. },
        r.spec_env_name() == "KAFKA_TOPICS"@,
        r.spec_default() == Option::<Seq<char>>::None,
        !r.spec_optional(),
{
    match FieldDescriptor::flat("topics".to_owned(), Some("KAFKA_TOPICS".to_owned()), None, false) {
        Ok(d) => d,
        Err(_) => {
            proof {
                assert(false);
            }
            FieldDescriptor::passthrough("topics".to_owned(), false)
        },
    }
}

/// What finalization of the child comes to, over the field models, with
/// its paths rooted at `prefix`.
pub open spec fn spec_kafka_resolution(
    staged: (Option<Seq<char>>, Option<Seq<char>>),
    env: Seq<(Seq<char>, Seq<char>)>,
    prefix: Seq<char>,
) -> ((FieldOutcome<Seq<char>>, FieldOutcome<Seq<char>>), Seq<ErrorView>) {
    let (b, be) = spec_resolve_flat::<Seq<char>>(
        staged.0,
        spec_env_reading::<String>(env, "KAFKA_BROKERS"@),
        spec_default_reading::<String>(None),
        false,
        spec_dotted(prefix, "brokers"@),
        "KAFKA_BROKERS"@,
    );
    let (t, te) = spec_resolve_flat::<Seq<char>>(
        staged.1,
        spec_env_reading::<String>(env, "KAFKA_TOPICS"@),
        spec_default_reading::<String>(None),
        false,
        spec_dotted(prefix, "topics"@),
        "KAFKA_TOPICS"@,
    );
    ((b, t), be + te)
}

impl SampleKafka {
    /// A fresh builder with every field unset.
    pub fn from_env() -> (r: SampleKafkaBuilder)
        ensures
            r@ == (Option::<Seq<char>>::None, Option::<Seq<char>>::None),
    {
        SampleKafkaBuilder { brokers: None, topics: None }
    }
}

impl SampleKafkaBuilder {
    /// Stages an override for `brokers`.
    pub fn brokers(self, value: String) -> (r: SampleKafkaBuilder)
        ensures
            r@ == (Some(value@), self@.1),
    {
        SampleKafkaBuilder { brokers: Some(value), topics: self.topics }
    }

    /// Stages an override for `topics`.
    pub fn topics(self, value: String) -> (r: SampleKafkaBuilder)
        ensures
            r@ == (self@.0, Some(value@)),
    {
        SampleKafkaBuilder { brokers: self.brokers, topics: Some(value) }
    }

    /// Consumes the builder, resolving both fields against `env`, with
    /// the failures' paths rooted at `prefix` — the parent hands in its
    /// own path joined with the field name, so the child's failures are
    /// born fully qualified.
    pub fn finalize(self, env: &Env, prefix: &str) -> (r: Result<SampleKafka, FromEnvErrors>)
        ensures
            ({
                let ((b, t), errs) = spec_kafka_resolution(self@, env@, prefix@);
                match r {
                    Ok(c) => b == FieldOutcome::<Seq<char>>::Resolved(c.brokers@) && t
                        == FieldOutcome::<Seq<char>>::Resolved(c.topics@) && errs
                        == Seq::<ErrorView>::empty(),
                    Err(es) => es@ == errs && errs.len() > 0,
                }
            }),
    {
        let mut errors = FromEnvErrors::new();
        let brokers = resolve_flat::<String>(
            &brokers_descriptor(),
            self.brokers,
            env,
            prefix,
            &mut errors,
        );
        let topics = resolve_flat::<String>(
            &topics_descriptor(),
            self.topics,
            env,
            prefix,
            &mut errors,
        );
        if errors.has_errors() {
            return Err(errors);
        }
        match (brokers, topics) {
            (FieldOutcome::Resolved(brokers), FieldOutcome::Resolved(topics)) => Ok(
                SampleKafka { brokers, topics },
            ),
            _ => {
                proof {
                    assert(false);
                }
                Err(errors)
            },
        }
    }
}

/// The parent shape: a required flat field and an optional nested child.
#[derive(Debug)]
pub struct SampleApp {
    pub database_url: String,
    pub kafka: Option<SampleKafka>,
}

/// The staging object of [`SampleApp`]: the child builder is eagerly
/// staged, so it can be addressed before the parent is finalized.
pub struct SampleAppBuilder {
    database_url: Option<String>,
    kafka: SampleKafkaBuilder,
}

impl View for SampleAppBuilder {
    type V = (Option<Seq<char>>, (Option<Seq<char>>, Option<Seq<char>>));

    closed spec fn view(&self) -> (Option<Seq<char>>, (Option<Seq<char>>, Option<Seq<char>>)) {
        (option_view(self.database_url), self.kafka@)
    }
}

/// The descriptor of the parent's `database_url` field, bound to the
/// uppercased field name.
fn app_database_url_descriptor() -> (r: FieldDescriptor)
    ensures
        r.wf(),
        r.name@ == "database_url"@,
        r.kind matches FieldKind::Flat { .. },
        r.spec_env_name() == upper_seq("database_url"@),
        r.spec_default() == Option::<Seq<char>>::None,
        !r.spec_optional(),
{
    match FieldDescriptor::flat("database_url".to_owned(), None, None, false) {
        Ok(d) => d,
        Err(_) => {
            proof {
                assert(false);
            }
            FieldDescriptor::passthrough("database_url".to_owned(), false)
        },
    }
}

/// What finalization of the parent comes to, over the field models and
/// the optional-nested collapse rule: the flat outcome, the child's
/// outcomes and failures, and the failures the parent reports.
pub open spec fn spec_app_resolution(
    staged: (Option<Seq<char>>, (Option<Seq<char>>, Option<Seq<char>>)),
    env: Seq<(Seq<char>, Seq<char>)>,
) -> ((FieldOutcome<Seq<char>>, (FieldOutcome<Seq<char>>, FieldOutcome<Seq<char>>)), Seq<ErrorView>) {
    let (d, de) = spec_resolve_flat::<Seq<char>>(
        staged.0,
        spec_env_reading::<String>(env, upper_seq("database_url"@)),
        spec_default_reading::<String>(None),
        false,
        spec_dotted("SampleApp"@, "database_url"@),
        upper_seq("database_url"@),
    );
    let ((b, t), ke) = spec_kafka_resolution(staged.1, env, spec_dotted("SampleApp"@, "kafka"@));
    let kerrs = if ke.len() == 0 || all_missing(ke) {
        Seq::<ErrorView>::empty()
    } else {
        ke
    };
    ((d, (b, t)), de + kerrs)
}

impl SampleApp {
    /// A fresh builder with every field unset and the nested child
    /// eagerly staged.
    pub fn from_env() -> (r: SampleAppBuilder)
        ensures
            r@ == (
                Option::<Seq<char>>::None,
                (Option::<Seq<char>>::None, Option::<Seq<char>>::None),
            ),
    {
        SampleAppBuilder { database_url: None, kafka: SampleKafka::from_env() }
    }

    /// The documentation of the shape's environment variables, the
    /// child's descriptors spliced into the list in place of the nested
    /// field.
    pub fn requirements() -> (r: String)
        ensures
            r@ == "DATABASE_URL=\nKAFKA_BROKERS=\nKAFKA_TOPICS=\n"@,
    {
        let mut fields: Vec<FieldDescriptor> = Vec::new();
        fields.push(app_database_url_descriptor());
        fields.push(brokers_descriptor());
        fields.push(topics_descriptor());
        let r = requirements(&fields);
        proof {
            reveal_strlit("database_url");
            reveal_strlit("DATABASE_URL");
            reveal_strlit("KAFKA_BROKERS");
            reveal_strlit("KAFKA_TOPICS");
            reveal_strlit("=");
            reveal_strlit("\n");
            reveal_strlit("DATABASE_URL=\nKAFKA_BROKERS=\nKAFKA_TOPICS=\n");
            assert(upper_seq("database_url"@) =~= "DATABASE_URL"@);
            assert(spec_requirements(fields@, 2) =~= crate::schema::requirement_line(fields@[2])
                + spec_requirements(fields@, 3));
            assert(spec_requirements(fields@, 1) =~= crate::schema::requirement_line(fields@[1])
                + spec_requirements(fields@, 2));
            assert(r@ =~= "DATABASE_URL=\nKAFKA_BROKERS=\nKAFKA_TOPICS=\n"@);
        }
        r
    }
}

impl SampleAppBuilder {
    /// Stages an override for `database_url`.
    pub fn database_url(self, value: String) -> (r: SampleAppBuilder)
        ensures
            r@ == (Some(value@), self@.1),
    {
        SampleAppBuilder { database_url: Some(value), kafka: self.kafka }
    }

    /// Applies a transform to the staged child builder, so the child can
    /// be overridden fluently without naming its builder type.
    pub fn kafka<F: FnOnce(SampleKafkaBuilder) -> SampleKafkaBuilder>(self, f: F) -> (r:
        SampleAppBuilder)
        requires
            forall|b: SampleKafkaBuilder| #[trigger] call_requires(f, (b,)),
        ensures
            exists|b: SampleKafkaBuilder, k: SampleKafkaBuilder|
                b@ == self@.1 && #[trigger] call_ensures(f, (b,), k) && r@ == (self@.0, k@),
    {
        let SampleAppBuilder { database_url, kafka } = self;
        let kafka = f(kafka);
        SampleAppBuilder { database_url, kafka }
    }

    /// Consumes the builder.  The flat field resolves as ever; the child
    /// finalizes under the parent's prefix, collapses to absence when its
    /// only failures are missing values, and otherwise surfaces them all.
    pub fn finalize(self, env: &Env) -> (r: Result<SampleApp, FromEnvErrors>)
        ensures
            ({
                let ((d, (b, t)), errs) = spec_app_resolution(self@, env@);
                let ((_, _), ke) = spec_kafka_resolution(
                    self@.1,
                    env@,
                    spec_dotted("SampleApp"@, "kafka"@),
                );
                match r {
                    Ok(c) => errs == Seq::<ErrorView>::empty() && d
                        == FieldOutcome::<Seq<char>>::Resolved(c.database_url@) && (match c.kafka {
                        Some(k) => ke.len() == 0 && b == FieldOutcome::<Seq<char>>::Resolved(
                            k.brokers@,
                        ) && t == FieldOutcome::<Seq<char>>::Resolved(k.topics@),
                        None => ke.len() > 0 && all_missing(ke),
                    }),
                    Err(es) => es@ == errs && errs.len() > 0,
                }
            }),
    {
        let mut errors = FromEnvErrors::new();
        let database_url = resolve_flat::<String>(
            &app_database_url_descriptor(),
            self.database_url,
            env,
            "SampleApp",
            &mut errors,
        );
        let kafka_prefix = dotted("SampleApp", "kafka");
        let kafka = resolve_nested_optional(
            self.kafka.finalize(env, kafka_prefix.as_str()),
            &mut errors,
        );
        if errors.has_errors() {
            return Err(errors);
        }
        let kafka = match kafka {
            FieldOutcome::Resolved(k) => Some(k),
            FieldOutcome::Absent => None,
            FieldOutcome::Failed => {
                proof {
                    assert(false);
                }
                None
            },
        };
        match database_url {
            FieldOutcome::Resolved(database_url) => Ok(SampleApp { database_url, kafka }),
            _ => {
                proof {
                    assert(false);
                }
                Err(errors)
            },
        }
    }
}

impl crate::private::FromEnv for SampleConfig {
    type FromEnvBuilder = SampleConfigBuilder;

    fn from_env() -> Self::FromEnvBuilder {
        SampleConfig::from_env()
    }

    fn requirements(requirements: &mut String) {
        let text = SampleConfig::requirements();
        requirements.append(text.as_str());
    }
}

impl crate::private::FromEnvBuilder for SampleConfigBuilder {
    type Target = SampleConfig;

    fn finalize(self, env: &Env) -> Result<SampleConfig, FromEnvErrors> {
        SampleConfigBuilder::finalize(self, env)
    }
}

impl crate::private::FromEnv for SampleApp {
    type FromEnvBuilder = SampleAppBuilder;

    fn from_env() -> Self::FromEnvBuilder {
        SampleApp::from_env()
    }

    fn requirements(requirements: &mut String) {
        let text = SampleApp::requirements();
        requirements.append(text.as_str());
    }
}

impl crate::private::FromEnvBuilder for SampleAppBuilder {
    type Target = SampleApp;

    fn finalize(self, env: &Env) -> Result<SampleApp, FromEnvErrors> {
        SampleAppBuilder::finalize(self, env)
    }
}

} // verus!
