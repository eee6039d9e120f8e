//! Layered configuration of a platform service.
//!
//! A `Config` is read from merged settings: the base document, the document
//! of the deployment environment, and the environment variables of the
//! process, where each later source overrides the keys it defines. Every
//! field but the storage endpoint must be defined by some source; a `Config`
//! is complete or it does not exist.

use crate::error::PlatformError;
use crate::settings::{
    all_plain, first_refused, flag_at, lookup_flag, lookup_optional_text, lookup_text,
    optional_text_at, refuses, text_at, Lookup, Reading, Settings,
};
use crate::text::join;
use vstd::prelude::*;

verus! {

/// Where the message brokers and the schema registry are reached.
#[derive(Debug, Clone)]
pub struct KafkaConfig {
    pub bootstrap_servers: String,
    pub schema_registry_url: String,
    pub security_protocol: String,
}

/// Where the object store is reached, and the bucket of each data tier.
#[derive(Debug, Clone)]
pub struct S3Config {
    pub endpoint_url: Option<String>,
    pub bucket_bronze: String,
    pub bucket_silver: String,
    pub bucket_gold: String,
    pub region: String,
}

/// The configuration of a platform service.
#[derive(Debug, Clone)]
pub struct Config {
    pub environment: String,
    pub debug: bool,
    pub kafka: KafkaConfig,
    pub s3: S3Config,
}

/// A `KafkaConfig` with texts as character sequences.
pub struct KafkaConfigView {
    pub bootstrap_servers: Seq<char>,
    pub schema_registry_url: Seq<char>,
    pub security_protocol: Seq<char>,
}

/// An `S3Config` with texts as character sequences.
pub struct S3ConfigView {
    pub endpoint_url: Option<Seq<char>>,
    pub bucket_bronze: Seq<char>,
    pub bucket_silver: Seq<char>,
    pub bucket_gold: Seq<char>,
    pub region: Seq<char>,
}

/// A `Config` with texts as character sequences.
pub struct ConfigView {
    pub environment: Seq<char>,
    pub debug: bool,
    pub kafka: KafkaConfigView,
    pub s3: S3ConfigView,
}

impl View for KafkaConfig {
    type V = KafkaConfigView;

    open spec fn view(&self) -> KafkaConfigView {
        KafkaConfigView {
            bootstrap_servers: self.bootstrap_servers@,
            schema_registry_url: self.schema_registry_url@,
            security_protocol: self.security_protocol@,
        }
    }
}

impl View for S3Config {
    type V = S3ConfigView;

    open spec fn view(&self) -> S3ConfigView {
        S3ConfigView {
            endpoint_url: match self.endpoint_url {
                Some(url) => Some(url@),
                None => None,
            },
            bucket_bronze: self.bucket_bronze@,
            bucket_silver: self.bucket_silver@,
            bucket_gold: self.bucket_gold@,
            region: self.region@,
        }
    }
}

impl View for Config {
    type V = ConfigView;

    open spec fn view(&self) -> ConfigView {
        ConfigView {
            environment: self.environment@,
            debug: self.debug,
            kafka: self.kafka@,
            s3: self.s3@,
        }
    }
}

/// The value of a field that must be defined: only a found value will do,
/// and any failure is passed on.
pub open spec fn required<T>(reading: Reading<T>) -> Result<T, config::ConfigError> {
    match reading {
        Reading::Found(value) => Ok(value),
        Reading::Missing(cause) => Err(cause),
        Reading::Invalid(cause) => Err(cause),
    }
}

/// The value of a field that may be left out: a missing key stands for no
/// value, as an explicit null does. A value that does not convert is still
/// a failure.
pub open spec fn optional<T>(reading: Reading<Option<T>>) -> Result<
    Option<T>,
    config::ConfigError,
> {
    match reading {
        Reading::Found(value) => Ok(value),
        Reading::Missing(_) => Ok(None),
        Reading::Invalid(cause) => Err(cause),
    }
}

/// The value of a field that must be defined, or the configuration error that
/// says why it cannot be had.
pub fn require<T>(found: Lookup<T>) -> (value: Result<T, PlatformError>)
    ensures
        match found {
            Lookup::Found(held) => value == Ok::<T, PlatformError>(held),
            Lookup::Missing(cause) => value == Err::<T, PlatformError>(
                PlatformError::Config(cause),
            ),
            Lookup::Invalid(cause) => value == Err::<T, PlatformError>(
                PlatformError::Config(cause),
            ),
        },
{
    match found {
        Lookup::Found(held) => Ok(held),
        Lookup::Missing(cause) => Err(PlatformError::from(cause)),
        Lookup::Invalid(cause) => Err(PlatformError::from(cause)),
    }
}

/// The value of a field that may be left out: `None` where no source defines
/// it, or the configuration error that says why its value cannot be used.
pub fn allow_missing<T>(found: Lookup<Option<T>>) -> (value: Result<Option<T>, PlatformError>)
    ensures
        match found {
            Lookup::Found(held) => value == Ok::<Option<T>, PlatformError>(held),
            Lookup::Missing(_) => value == Ok::<Option<T>, PlatformError>(None),
            Lookup::Invalid(cause) => value == Err::<Option<T>, PlatformError>(
                PlatformError::Config(cause),
            ),
        },
{
    match found {
        Lookup::Found(held) => Ok(held),
        Lookup::Missing(_) => Ok(None),
        Lookup::Invalid(cause) => Err(PlatformError::from(cause)),
    }
}

/// A read has the given outcome: the same value on success, and on failure
/// the configuration error that wraps the cause.
pub open spec fn outcome_of<T: View>(
    read: Result<T::V, config::ConfigError>,
    outcome: Result<T, PlatformError>,
) -> bool {
    match read {
        Ok(view) => outcome matches Ok(held) && held@ == view,
        Err(cause) => outcome matches Err(error) && error == PlatformError::Config(cause),
    }
}

impl KafkaConfig {
    /// The Kafka section that the settings hold, or the failure of the first
    /// of its fields that cannot be had.
    pub open spec fn read(settings: &Settings) -> Result<KafkaConfigView, config::ConfigError> {
        match required(text_at(*settings, "kafka.bootstrap_servers"@)) {
            Err(cause) => Err(cause),
            Ok(bootstrap_servers) => match required(
                text_at(*settings, "kafka.schema_registry_url"@),
            ) {
                Err(cause) => Err(cause),
                Ok(schema_registry_url) => match required(
                    text_at(*settings, "kafka.security_protocol"@),
                ) {
                    Err(cause) => Err(cause),
                    Ok(security_protocol) => Ok(
                        KafkaConfigView {
                            bootstrap_servers,
                            schema_registry_url,
                            security_protocol,
                        },
                    ),
                },
            },
        }
    }

    /// Reads the Kafka section out of merged settings. Every field must be
    /// defined.
    pub fn from_settings(settings: &Settings) -> (section: Result<KafkaConfig, PlatformError>)
        ensures
            outcome_of(KafkaConfig::read(settings), section),
    {
        let bootstrap_servers = require(lookup_text(settings, "kafka.bootstrap_servers"))?;
        let schema_registry_url = require(lookup_text(settings, "kafka.schema_registry_url"))?;
        let security_protocol = require(lookup_text(settings, "kafka.security_protocol"))?;
        Ok(KafkaConfig { bootstrap_servers, schema_registry_url, security_protocol })
    }
}

impl S3Config {
    /// The storage section that the settings hold, or the failure of the
    /// first of its fields that cannot be had. The endpoint may be left out.
    pub open spec fn read(settings: &Settings) -> Result<S3ConfigView, config::ConfigError> {
        match optional(optional_text_at(*settings, "s3.endpoint_url"@)) {
            Err(cause) => Err(cause),
            Ok(endpoint_url) => match required(text_at(*settings, "s3.bucket_bronze"@)) {
                Err(cause) => Err(cause),
                Ok(bucket_bronze) => match required(text_at(*settings, "s3.bucket_silver"@)) {
                    Err(cause) => Err(cause),
                    Ok(bucket_silver) => match required(text_at(*settings, "s3.bucket_gold"@)) {
                        Err(cause) => Err(cause),
                        Ok(bucket_gold) => match required(text_at(*settings, "s3.region"@)) {
                            Err(cause) => Err(cause),
                            Ok(region) => Ok(
                                S3ConfigView {
                                    endpoint_url,
                                    bucket_bronze,
                                    bucket_silver,
                                    bucket_gold,
                                    region,
                                },
                            ),
                        },
                    },
                },
            },
        }
    }

    /// Reads the storage section out of merged settings. Every field but the
    /// endpoint must be defined.
    pub fn from_settings(settings: &Settings) -> (section: Result<S3Config, PlatformError>)
        ensures
            outcome_of(S3Config::read(settings), section),
    {
        let endpoint_url = allow_missing(lookup_optional_text(settings, "s3.endpoint_url"))?;
        let bucket_bronze = require(lookup_text(settings, "s3.bucket_bronze"))?;
        let bucket_silver = require(lookup_text(settings, "s3.bucket_silver"))?;
        let bucket_gold = require(lookup_text(settings, "s3.bucket_gold"))?;
        let region = require(lookup_text(settings, "s3.region"))?;
        Ok(S3Config { endpoint_url, bucket_bronze, bucket_silver, bucket_gold, region })
    }
}

impl Config {
    /// The configuration a service runs with when it loads none.
    pub open spec fn standard() -> ConfigView {
        ConfigView {
            environment: "local"@,
            debug: false,
            kafka: KafkaConfigView {
                bootstrap_servers: "localhost:29092"@,
                schema_registry_url: "http://localhost:8081"@,
                security_protocol: "PLAINTEXT"@,
            },
            s3: S3ConfigView {
                endpoint_url: Some("http://localhost:9000"@),
                bucket_bronze: "bronze"@,
                bucket_silver: "silver"@,
                bucket_gold: "gold"@,
                region: "us-east-1"@,
            },
        }
    }

    /// The configuration that the settings hold: every field read by its
    /// key, nested fields by the dotted path. Where fields cannot be had, the
    /// failure is that of the first of them in declaration order.
    pub open spec fn read(settings: &Settings) -> Result<ConfigView, config::ConfigError> {
        match required(text_at(*settings, "environment"@)) {
            Err(cause) => Err(cause),
            Ok(environment) => match required(flag_at(*settings, "debug"@)) {
                Err(cause) => Err(cause),
                Ok(debug) => match KafkaConfig::read(settings) {
                    Err(cause) => Err(cause),
                    Ok(kafka) => match S3Config::read(settings) {
                        Err(cause) => Err(cause),
                        Ok(s3) => Ok(ConfigView { environment, debug, kafka, s3 }),
                    },
                },
            },
        }
    }

    /// Reads the configuration out of merged settings.
    ///
    /// Succeeds exactly when every field that must be defined can be had,
    /// and then returns the configuration; fails otherwise, with the
    /// configuration error that wraps the failure of the first such field.
    pub fn from_settings(settings: &Settings) -> (config: Result<Config, PlatformError>)
        ensures
            outcome_of(Config::read(settings), config),
    {
        let environment = require(lookup_text(settings, "environment"))?;
        let debug = require(lookup_flag(settings, "debug"))?;
        let kafka = KafkaConfig::from_settings(settings)?;
        let s3 = S3Config::from_settings(settings)?;
        Ok(Config { environment, debug, kafka, s3 })
    }

    /// Loads the configuration of a service from its sources.
    ///
    /// `documents` are the texts of the configuration files that exist, lowest
    /// priority first; `variables` are the environment variables of the
    /// process, which outrank every document. Loading succeeds exactly when
    /// every document can be merged and the merged settings hold a
    /// configuration. Where a document cannot be merged, the error is the one
    /// `Settings::merge` gives; else it is the configuration error of the
    /// first field that cannot be had.
    pub fn load(documents: &Vec<String>, variables: &Vec<(String, String)>) -> (loaded: Result<
        Config,
        PlatformError,
    >)
        ensures
            all_plain(documents.deep_view()) ==> exists|settings: Settings| #[trigger]
                settings.merged_of(documents.deep_view(), variables.deep_view()) && outcome_of(
                    Config::read(&settings),
                    loaded,
                ),
            !all_plain(documents.deep_view()) ==> exists|at: int| #[trigger]
                first_refused(documents.deep_view(), at) && (loaded matches Err(error) && refuses(
                    error@,
                    documents.deep_view()[at],
                )),
    {
        match Settings::merge(documents, variables) {
            Ok(settings) => {
                let config = Config::from_settings(&settings);
                assert(settings.merged_of(documents.deep_view(), variables.deep_view()));
                config
            },
            Err(error) => Err(error),
        }
    }
}

/// A configuration is complete or absent: settings hold one exactly when
/// every field that must be defined is found, and the storage endpoint is
/// found, left out or null.
pub proof fn lemma_config_is_complete_or_absent(settings: Settings)
    ensures
        Config::read(&settings) is Ok <==> {
            &&& text_at(settings, "environment"@) is Found
            &&& flag_at(settings, "debug"@) is Found
            &&& text_at(settings, "kafka.bootstrap_servers"@) is Found
            &&& text_at(settings, "kafka.schema_registry_url"@) is Found
            &&& text_at(settings, "kafka.security_protocol"@) is Found
            &&& optional_text_at(settings, "s3.endpoint_url"@) !is Invalid
            &&& text_at(settings, "s3.bucket_bronze"@) is Found
            &&& text_at(settings, "s3.bucket_silver"@) is Found
            &&& text_at(settings, "s3.bucket_gold"@) is Found
            &&& text_at(settings, "s3.region"@) is Found
        },
{
}

impl Default for Config {
    /// The configuration of a local development setup.
    fn default() -> (config: Self)
        ensures
            config@ == Config::standard(),
    {
        Config {
            environment: "local".to_owned(),
            debug: false,
            kafka: KafkaConfig {
                bootstrap_servers: "localhost:29092".to_owned(),
                schema_registry_url: "http://localhost:8081".to_owned(),
                security_protocol: "PLAINTEXT".to_owned(),
            },
            s3: S3Config {
                endpoint_url: Some("http://localhost:9000".to_owned()),
                bucket_bronze: "bronze".to_owned(),
                bucket_silver: "silver".to_owned(),
                bucket_gold: "gold".to_owned(),
                region: "us-east-1".to_owned(),
            },
        }
    }
}

/// A configuration file, named relative to the configuration directory.
#[derive(Debug, Clone)]
pub struct SourceFile {
    /// The folder below the configuration directory.
    pub folder: String,
    /// The name of the file in that folder.
    pub name: String,
}

impl View for SourceFile {
    type V = (Seq<char>, Seq<char>);

    open spec fn view(&self) -> (Seq<char>, Seq<char>) {
        (self.folder@, self.name@)
    }
}

/// The name of the deployment environment: the configured one, or `local`
/// where none is configured.
pub open spec fn environment_or_local(configured: Option<&str>) -> Seq<char> {
    match configured {
        Some(name) => name@,
        None => "local"@,
    }
}

/// The files a service's configuration is read from, lowest priority first.
/// Without a configuration directory there are none; with one, the base
/// document and the document named after the deployment environment.
pub open spec fn candidates(has_directory: bool, environment: Seq<char>) -> Seq<
    (Seq<char>, Seq<char>),
> {
    if has_directory {
        seq![("base"@, "config.yaml"@), ("environments"@, environment + ".yaml"@)]
    } else {
        Seq::empty()
    }
}

/// The name of the deployment environment, given the value of the variable
/// that selects it, if that is set.
pub fn environment_name(configured: Option<&str>) -> (name: String)
    ensures
        name@ == environment_or_local(configured),
{
    match configured {
        Some(name) => name.to_owned(),
        None => "local".to_owned(),
    }
}

/// The files to look for, lowest priority first. A file that does not exist
/// is skipped by the caller; that is no error.
///
/// `has_directory` says whether a configuration directory was given, and
/// `configured` is the value of the variable that selects the deployment
/// environment, if that is set. The environment is settled here, once, so
/// that one load never looks at the files of two environments.
pub fn candidate_files(has_directory: bool, configured: Option<&str>) -> (files: Vec<SourceFile>)
    ensures
        files.len() == candidates(has_directory, environment_or_local(configured)).len(),
        forall|i: int|
            0 <= i < files.len() ==> (#[trigger] files[i])@ == candidates(
                has_directory,
                environment_or_local(configured),
            )[i],
{
    let mut files: Vec<SourceFile> = Vec::new();
    if has_directory {
        let environment = environment_name(configured);
        files.push(SourceFile { folder: "base".to_owned(), name: "config.yaml".to_owned() });
        files.push(
            SourceFile {
                folder: "environments".to_owned(),
                name: join(environment.as_str(), ".yaml"),
            },
        );
    }
    files
}

} // verus!
