//! The error type shared by every operation of the platform libraries.
//!
//! An error is one of a closed set of kinds. Three kinds wrap a failure of a
//! lower layer (configuration, serialization, I/O) and are reached by `From`;
//! the others are built by callers from a human-readable message. The kind
//! says what went wrong and nothing about severity or retries.

use crate::text::{join, lemma_occurs_in_the_middle, occurs_in};
use vstd::prelude::*;
use vstd::std_specs::convert::FromSpecImpl;
use vstd::string::to_string_from_display_ensures;

verus! {

/// `config::ConfigError`, carried through as an opaque value.
#[verifier::external_type_specification]
#[verifier::external_body]
pub struct ExConfigError(config::ConfigError);

/// `serde_json::Error`, carried through as an opaque value.
#[verifier::external_type_specification]
#[verifier::external_body]
pub struct ExJsonError(serde_json::Error);

/// `std::io::Error`, carried through as an opaque value.
#[verifier::external_type_specification]
#[verifier::external_body]
pub struct ExIoError(std::io::Error);

/// The common failure type of the platform services.
#[derive(Debug)]
pub enum PlatformError {
    /// The configuration could not be merged or read.
    Config(config::ConfigError),
    /// A failure reported by a Kafka call site.
    Kafka { message: String },
    /// A failure reported by an object-storage call site.
    S3 { message: String },
    /// A structured document could not be encoded or decoded.
    Serialization(serde_json::Error),
    /// An operating-system level read or write failed.
    Io(std::io::Error),
    /// A field holds a value that the service cannot accept.
    Validation { field: String, message: String },
    /// A condition that fits no other kind.
    Internal(String),
}

/// What an error is, with texts as character sequences.
pub enum ErrorView {
    Config(config::ConfigError),
    Kafka { message: Seq<char> },
    S3 { message: Seq<char> },
    Serialization(serde_json::Error),
    Io(std::io::Error),
    Validation { field: Seq<char>, message: Seq<char> },
    Internal { message: Seq<char> },
}

impl View for PlatformError {
    type V = ErrorView;

    open spec fn view(&self) -> ErrorView {
        match *self {
            PlatformError::Config(cause) => ErrorView::Config(cause),
            PlatformError::Kafka { message } => ErrorView::Kafka { message: message@ },
            PlatformError::S3 { message } => ErrorView::S3 { message: message@ },
            PlatformError::Serialization(cause) => ErrorView::Serialization(cause),
            PlatformError::Io(cause) => ErrorView::Io(cause),
            PlatformError::Validation { field, message } => ErrorView::Validation {
                field: field@,
                message: message@,
            },
            PlatformError::Internal(message) => ErrorView::Internal { message: message@ },
        }
    }
}

impl ErrorView {
    /// Whether the error wraps a failure of a lower layer, whose own text the
    /// message then ends with.
    pub open spec fn wraps_cause(self) -> bool {
        self is Config || self is Serialization || self is Io
    }

    /// `shown` is the text that the wrapped failure displays as.
    pub open spec fn cause_displays_as(self, shown: String) -> bool {
        match self {
            ErrorView::Config(cause) => to_string_from_display_ensures::<config::ConfigError>(
                &cause,
                shown,
            ),
            ErrorView::Serialization(cause) => to_string_from_display_ensures::<serde_json::Error>(
                &cause,
                shown,
            ),
            ErrorView::Io(cause) => to_string_from_display_ensures::<std::io::Error>(
                &cause,
                shown,
            ),
            _ => false,
        }
    }

    /// The message of the error, where `cause` is the text of the wrapped
    /// failure. Kinds that wrap nothing ignore `cause`.
    pub open spec fn rendering(self, cause: Seq<char>) -> Seq<char> {
        match self {
            ErrorView::Config(_) => "Configuration error: "@ + cause,
            ErrorView::Kafka { message } => "Kafka error: "@ + message,
            ErrorView::S3 { message } => "S3 error: "@ + message,
            ErrorView::Serialization(_) => "Serialization error: "@ + cause,
            ErrorView::Io(_) => "IO error: "@ + cause,
            ErrorView::Validation { field, message } => "Validation error: "@ + field + " - "@
                + message,
            ErrorView::Internal { message } => "Internal error: "@ + message,
        }
    }
}

impl PlatformError {
    /// A Kafka failure described by `message`.
    pub fn kafka(message: &str) -> (error: Self)
        ensures
            error@ == (ErrorView::Kafka { message: message@ }),
    {
        PlatformError::Kafka { message: message.to_owned() }
    }

    /// An object-storage failure described by `message`.
    pub fn s3(message: &str) -> (error: Self)
        ensures
            error@ == (ErrorView::S3 { message: message@ }),
    {
        PlatformError::S3 { message: message.to_owned() }
    }

    /// A rejected value of `field`, with the reason in `message`.
    pub fn validation(field: &str, message: &str) -> (error: Self)
        ensures
            error@ == (ErrorView::Validation { field: field@, message: message@ }),
    {
        PlatformError::Validation { field: field.to_owned(), message: message.to_owned() }
    }

    /// A failure that fits no other kind, described by `message`.
    pub fn internal(message: &str) -> (error: Self)
        ensures
            error@ == (ErrorView::Internal { message: message@ }),
    {
        PlatformError::Internal(message.to_owned())
    }

    /// The message of the error when the wrapped failure displays as `cause`.
    ///
    /// For the kinds built from a message, `cause` is not looked at.
    pub fn render(&self, cause: &str) -> (text: String)
        ensures
            text@ == self@.rendering(cause@),
    {
        match self {
            PlatformError::Config(_) => join("Configuration error: ", cause),
            PlatformError::Kafka { message } => join("Kafka error: ", message.as_str()),
            PlatformError::S3 { message } => join("S3 error: ", message.as_str()),
            PlatformError::Serialization(_) => join("Serialization error: ", cause),
            PlatformError::Io(_) => join("IO error: ", cause),
            PlatformError::Validation { field, message } => {
                let head = join("Validation error: ", field.as_str());
                let head = join(head.as_str(), " - ");
                join(head.as_str(), message.as_str())
            },
            PlatformError::Internal(message) => join("Internal error: ", message.as_str()),
        }
    }

    /// The human-readable message of the error: the label of its kind, then
    /// the attached text or the text of the wrapped failure.
    pub fn message(&self) -> (text: String)
        ensures
            !self@.wraps_cause() ==> text@ == self@.rendering(Seq::empty()),
            self@.wraps_cause() ==> exists|shown: String| #[trigger]
                self@.cause_displays_as(shown) && text@ == self@.rendering(shown@),
    {
        match self {
            PlatformError::Config(cause) => {
                let shown = cause.to_string();
                assert(self@.cause_displays_as(shown));
                self.render(shown.as_str())
            },
            PlatformError::Serialization(cause) => {
                let shown = cause.to_string();
                assert(self@.cause_displays_as(shown));
                self.render(shown.as_str())
            },
            PlatformError::Io(cause) => {
                let shown = cause.to_string();
                assert(self@.cause_displays_as(shown));
                self.render(shown.as_str())
            },
            _ => self.render(""),
        }
    }
}

impl From<config::ConfigError> for PlatformError {
    fn from(cause: config::ConfigError) -> (error: Self) {
        PlatformError::Config(cause)
    }
}

impl FromSpecImpl<config::ConfigError> for PlatformError {
    open spec fn obeys_from_spec() -> bool {
        true
    }

    open spec fn from_spec(cause: config::ConfigError) -> Self {
        PlatformError::Config(cause)
    }
}

impl From<serde_json::Error> for PlatformError {
    fn from(cause: serde_json::Error) -> (error: Self) {
        PlatformError::Serialization(cause)
    }
}

impl FromSpecImpl<serde_json::Error> for PlatformError {
    open spec fn obeys_from_spec() -> bool {
        true
    }

    open spec fn from_spec(cause: serde_json::Error) -> Self {
        PlatformError::Serialization(cause)
    }
}

impl From<std::io::Error> for PlatformError {
    fn from(cause: std::io::Error) -> (error: Self) {
        PlatformError::Io(cause)
    }
}

impl FromSpecImpl<std::io::Error> for PlatformError {
    open spec fn obeys_from_spec() -> bool {
        true
    }

    open spec fn from_spec(cause: std::io::Error) -> Self {
        PlatformError::Io(cause)
    }
}

/// Every message holds the text the error was made with: the attached message
/// (and, for a validation failure, the field), or the text of the wrapped
/// failure.
pub proof fn lemma_message_holds_its_text(error: ErrorView, cause: Seq<char>)
    ensures
        match error {
            ErrorView::Kafka { message } => occurs_in(message, error.rendering(cause)),
            ErrorView::S3 { message } => occurs_in(message, error.rendering(cause)),
            ErrorView::Internal { message } => occurs_in(message, error.rendering(cause)),
            ErrorView::Validation { field, message } => occurs_in(field, error.rendering(cause))
                && occurs_in(message, error.rendering(cause)),
            _ => occurs_in(cause, error.rendering(cause)),
        },
{
    let none = Seq::<char>::empty();
    match error {
        ErrorView::Config(_) => {
            lemma_occurs_in_the_middle("Configuration error: "@, cause, none);
            assert("Configuration error: "@ + cause + none =~= error.rendering(cause));
        },
        ErrorView::Kafka { message } => {
            lemma_occurs_in_the_middle("Kafka error: "@, message, none);
            assert("Kafka error: "@ + message + none =~= error.rendering(cause));
        },
        ErrorView::S3 { message } => {
            lemma_occurs_in_the_middle("S3 error: "@, message, none);
            assert("S3 error: "@ + message + none =~= error.rendering(cause));
        },
        ErrorView::Serialization(_) => {
            lemma_occurs_in_the_middle("Serialization error: "@, cause, none);
            assert("Serialization error: "@ + cause + none =~= error.rendering(cause));
        },
        ErrorView::Io(_) => {
            lemma_occurs_in_the_middle("IO error: "@, cause, none);
            assert("IO error: "@ + cause + none =~= error.rendering(cause));
        },
        ErrorView::Validation { field, message } => {
            lemma_occurs_in_the_middle("Validation error: "@, field, " - "@ + message);
            assert("Validation error: "@ + field + (" - "@ + message) =~= error.rendering(cause));
            lemma_occurs_in_the_middle("Validation error: "@ + field + " - "@, message, none);
            assert("Validation error: "@ + field + " - "@ + message + none =~= error.rendering(
                cause,
            ));
        },
        ErrorView::Internal { message } => {
            lemma_occurs_in_the_middle("Internal error: "@, message, none);
            assert("Internal error: "@ + message + none =~= error.rendering(cause));
        },
    }
}

} // verus!
