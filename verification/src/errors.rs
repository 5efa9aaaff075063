//! The application's error type: categories, codes and severities.
use vstd::prelude::*;
use crate::text::{chars_of, contains, contains_chars, append_chars, string_from_chars};
use crate::unicode::{lowercase, to_lowercase};

verus! {

/// Errors of the database layer (`sqlx`).
#[verifier::external_type_specification]
#[verifier::external_body]
pub struct ExSqlxError(sqlx::Error);

/// Errors carried with context (`anyhow`).
#[verifier::external_type_specification]
#[verifier::external_body]
pub struct ExAnyhowError(anyhow::Error);

/// Errors of HTTP requests (`reqwest`).
#[verifier::external_type_specification]
#[verifier::external_body]
pub struct ExReqwestError(reqwest::Error);

/// Errors of input and output.
#[verifier::external_type_specification]
#[verifier::external_body]
pub struct ExIoError(std::io::Error);

/// How serious an error is.
#[derive(Debug, Clone, Copy, PartialEq, Eq, Structural)]
pub enum ErrorSeverity {
    Critical,
    High,
    Medium,
    Low,
}

/// Centralized error type of the application.
#[derive(Debug)]
pub enum ATSError {
    Database { message: String, source: Option<sqlx::Error> },
    DocumentParsing { message: String, source: Option<anyhow::Error> },
    OllamaApi { message: String, source: Option<reqwest::Error> },
    Security { message: String },
    Configuration { message: String, source: Option<anyhow::Error> },
    FileOperation { message: String, source: Option<std::io::Error> },
    Memory { message: String },
    Validation { message: String },
    Plugin { message: String, source: Option<anyhow::Error> },
    Migration { message: String, source: Option<anyhow::Error> },
    ExternalService { message: String, source: Option<anyhow::Error> },
}

/// The category of an error, without its data.
#[derive(Debug, Clone, Copy, PartialEq, Eq, Structural)]
pub enum ErrorCategory {
    Database,
    DocumentParsing,
    OllamaApi,
    Security,
    Configuration,
    FileOperation,
    Memory,
    Validation,
    Plugin,
    Migration,
    ExternalService,
}

/// The category of `e`.
pub open spec fn category_of(e: ATSError) -> ErrorCategory {
    match e {
        ATSError::Database { .. } => ErrorCategory::Database,
        ATSError::DocumentParsing { .. } => ErrorCategory::DocumentParsing,
        ATSError::OllamaApi { .. } => ErrorCategory::OllamaApi,
        ATSError::Security { .. } => ErrorCategory::Security,
        ATSError::Configuration { .. } => ErrorCategory::Configuration,
        ATSError::FileOperation { .. } => ErrorCategory::FileOperation,
        ATSError::Memory { .. } => ErrorCategory::Memory,
        ATSError::Validation { .. } => ErrorCategory::Validation,
        ATSError::Plugin { .. } => ErrorCategory::Plugin,
        ATSError::Migration { .. } => ErrorCategory::Migration,
        ATSError::ExternalService { .. } => ErrorCategory::ExternalService,
    }
}

/// The text that introduces an error of category `c` when it is shown.
pub open spec fn display_prefix(c: ErrorCategory) -> Seq<char> {
    match c {
        ErrorCategory::Database => "Database operation failed: "@,
        ErrorCategory::DocumentParsing => "Document parsing failed: "@,
        ErrorCategory::OllamaApi => "Ollama API error: "@,
        ErrorCategory::Security => "Security violation: "@,
        ErrorCategory::Configuration => "Configuration error: "@,
        ErrorCategory::FileOperation => "File operation failed: "@,
        ErrorCategory::Memory => "Memory management error: "@,
        ErrorCategory::Validation => "Validation failed: "@,
        ErrorCategory::Plugin => "Plugin execution failed: "@,
        ErrorCategory::Migration => "Migration error: "@,
        ErrorCategory::ExternalService => "External service error: "@,
    }
}

/// The message of `e`.
pub open spec fn message_of(e: ATSError) -> Seq<char> {
    match e {
        ATSError::Database { message, .. } => message@,
        ATSError::DocumentParsing { message, .. } => message@,
        ATSError::OllamaApi { message, .. } => message@,
        ATSError::Security { message } => message@,
        ATSError::Configuration { message, .. } => message@,
        ATSError::FileOperation { message, .. } => message@,
        ATSError::Memory { message } => message@,
        ATSError::Validation { message } => message@,
        ATSError::Plugin { message, .. } => message@,
        ATSError::Migration { message, .. } => message@,
        ATSError::ExternalService { message, .. } => message@,
    }
}

/// Whether `e` carries a source error.
pub open spec fn has_source(e: ATSError) -> bool {
    match e {
        ATSError::Database { source, .. } => source is Some,
        ATSError::DocumentParsing { source, .. } => source is Some,
        ATSError::OllamaApi { source, .. } => source is Some,
        ATSError::Configuration { source, .. } => source is Some,
        ATSError::FileOperation { source, .. } => source is Some,
        ATSError::Plugin { source, .. } => source is Some,
        ATSError::Migration { source, .. } => source is Some,
        ATSError::ExternalService { source, .. } => source is Some,
        _ => false,
    }
}

/// The code of a category.
pub open spec fn code_of(c: ErrorCategory) -> Seq<char> {
    match c {
        ErrorCategory::Database => "DATABASE_ERROR"@,
        ErrorCategory::DocumentParsing => "DOCUMENT_ERROR"@,
        ErrorCategory::OllamaApi => "OLLAMA_ERROR"@,
        ErrorCategory::Security => "SECURITY_ERROR"@,
        ErrorCategory::Configuration => "CONFIG_ERROR"@,
        ErrorCategory::FileOperation => "FILE_ERROR"@,
        ErrorCategory::Memory => "MEMORY_ERROR"@,
        ErrorCategory::Validation => "VALIDATION_ERROR"@,
        ErrorCategory::Plugin => "PLUGIN_ERROR"@,
        ErrorCategory::Migration => "MIGRATION_ERROR"@,
        ErrorCategory::ExternalService => "EXTERNAL_SERVICE_ERROR"@,
    }
}

/// The severity of a category: security is critical; database,
/// configuration, migration and memory are high; validation is low; the
/// rest are medium.
pub open spec fn severity_of(c: ErrorCategory) -> ErrorSeverity {
    match c {
        ErrorCategory::Security => ErrorSeverity::Critical,
        ErrorCategory::Database => ErrorSeverity::High,
        ErrorCategory::Configuration => ErrorSeverity::High,
        ErrorCategory::Migration => ErrorSeverity::High,
        ErrorCategory::Memory => ErrorSeverity::High,
        ErrorCategory::Validation => ErrorSeverity::Low,
        _ => ErrorSeverity::Medium,
    }
}

/// The category of an error whose lowercased message is `t`; `None` when
/// no keyword applies.
pub open spec fn classify(t: Seq<char>) -> Option<ErrorCategory> {
    if contains(t, "database"@) || contains(t, "sql"@) {
        Some(ErrorCategory::Database)
    } else if contains(t, "file"@) || contains(t, "io"@) {
        Some(ErrorCategory::FileOperation)
    } else if contains(t, "security"@) || contains(t, "permission"@) {
        Some(ErrorCategory::Security)
    } else if contains(t, "config"@) {
        Some(ErrorCategory::Configuration)
    } else if contains(t, "memory"@) {
        Some(ErrorCategory::Memory)
    } else {
        None
    }
}

/// Calls `ToString::to_string` on an `anyhow::Error`; nothing is stated of
/// the text.
#[verifier::external_body]
fn anyhow_text(err: &anyhow::Error) -> String {
    err.to_string()
}

impl ATSError {
    /// The category of this error.
    pub fn category(&self) -> (res: ErrorCategory)
        ensures
            res == category_of(*self),
    {
        match self {
            ATSError::Database { .. } => ErrorCategory::Database,
            ATSError::DocumentParsing { .. } => ErrorCategory::DocumentParsing,
            ATSError::OllamaApi { .. } => ErrorCategory::OllamaApi,
            ATSError::Security { .. } => ErrorCategory::Security,
            ATSError::Configuration { .. } => ErrorCategory::Configuration,
            ATSError::FileOperation { .. } => ErrorCategory::FileOperation,
            ATSError::Memory { .. } => ErrorCategory::Memory,
            ATSError::Validation { .. } => ErrorCategory::Validation,
            ATSError::Plugin { .. } => ErrorCategory::Plugin,
            ATSError::Migration { .. } => ErrorCategory::Migration,
            ATSError::ExternalService { .. } => ErrorCategory::ExternalService,
        }
    }

    /// The error code of this error.
    pub fn error_code(&self) -> (res: &'static str)
        ensures
            res@ == code_of(category_of(*self)),
    {
        match self {
            ATSError::Database { .. } => "DATABASE_ERROR",
            ATSError::DocumentParsing { .. } => "DOCUMENT_ERROR",
            ATSError::OllamaApi { .. } => "OLLAMA_ERROR",
            ATSError::Security { .. } => "SECURITY_ERROR",
            ATSError::Configuration { .. } => "CONFIG_ERROR",
            ATSError::FileOperation { .. } => "FILE_ERROR",
            ATSError::Memory { .. } => "MEMORY_ERROR",
            ATSError::Validation { .. } => "VALIDATION_ERROR",
            ATSError::Plugin { .. } => "PLUGIN_ERROR",
            ATSError::Migration { .. } => "MIGRATION_ERROR",
            ATSError::ExternalService { .. } => "EXTERNAL_SERVICE_ERROR",
        }
    }

    /// The severity of this error.
    pub fn severity(&self) -> (res: ErrorSeverity)
        ensures
            res == severity_of(category_of(*self)),
    {
        match self {
            ATSError::Security { .. } => ErrorSeverity::Critical,
            ATSError::Database { .. } => ErrorSeverity::High,
            ATSError::Configuration { .. } => ErrorSeverity::High,
            ATSError::Migration { .. } => ErrorSeverity::High,
            ATSError::Memory { .. } => ErrorSeverity::High,
            ATSError::OllamaApi { .. } => ErrorSeverity::Medium,
            ATSError::DocumentParsing { .. } => ErrorSeverity::Medium,
            ATSError::FileOperation { .. } => ErrorSeverity::Medium,
            ATSError::Plugin { .. } => ErrorSeverity::Medium,
            ATSError::ExternalService { .. } => ErrorSeverity::Medium,
            ATSError::Validation { .. } => ErrorSeverity::Low,
        }
    }

    /// The text of this error as it is shown: its category's introduction,
    /// then its message.
    pub fn display_text(&self) -> (res: String)
        ensures
            res@ == display_prefix(category_of(*self)) + message_of(*self),
    {
        let prefix = match self.category() {
            ErrorCategory::Database => "Database operation failed: ",
            ErrorCategory::DocumentParsing => "Document parsing failed: ",
            ErrorCategory::OllamaApi => "Ollama API error: ",
            ErrorCategory::Security => "Security violation: ",
            ErrorCategory::Configuration => "Configuration error: ",
            ErrorCategory::FileOperation => "File operation failed: ",
            ErrorCategory::Memory => "Memory management error: ",
            ErrorCategory::Validation => "Validation failed: ",
            ErrorCategory::Plugin => "Plugin execution failed: ",
            ErrorCategory::Migration => "Migration error: ",
            ErrorCategory::ExternalService => "External service error: ",
        };
        let mut text = chars_of(prefix);
        append_chars(&mut text, &chars_of(self.message().as_str()));
        string_from_chars(&text)
    }

    /// The message of this error.
    pub fn message(&self) -> (res: &String)
        ensures
            res@ == message_of(*self),
    {
        match self {
            ATSError::Database { message, .. } => message,
            ATSError::DocumentParsing { message, .. } => message,
            ATSError::OllamaApi { message, .. } => message,
            ATSError::Security { message } => message,
            ATSError::Configuration { message, .. } => message,
            ATSError::FileOperation { message, .. } => message,
            ATSError::Memory { message } => message,
            ATSError::Validation { message } => message,
            ATSError::Plugin { message, .. } => message,
            ATSError::Migration { message, .. } => message,
            ATSError::ExternalService { message, .. } => message,
        }
    }

    /// A database error.
    pub fn database(message: &str) -> (res: Self)
        ensures
            category_of(res) == ErrorCategory::Database && message_of(res) == message@ && !has_source(res),
    {
        ATSError::Database { message: message.to_owned(), source: None }
    }

    /// A database error with its source.
    pub fn database_with_source(message: &str, source: sqlx::Error) -> (res: Self)
        ensures
            category_of(res) == ErrorCategory::Database && message_of(res) == message@ && has_source(res),
    {
        ATSError::Database { message: message.to_owned(), source: Some(source) }
    }

    /// A document parsing error.
    pub fn document_parsing(message: &str) -> (res: Self)
        ensures
            category_of(res) == ErrorCategory::DocumentParsing && message_of(res) == message@ && !has_source(res),
    {
        ATSError::DocumentParsing { message: message.to_owned(), source: None }
    }

    /// A document parsing error with its source.
    pub fn document_parsing_with_source(message: &str, source: anyhow::Error) -> (res: Self)
        ensures
            category_of(res) == ErrorCategory::DocumentParsing && message_of(res) == message@ && has_source(res),
    {
        ATSError::DocumentParsing { message: message.to_owned(), source: Some(source) }
    }

    /// An error of the model server's API.
    pub fn ollama_api(message: &str) -> (res: Self)
        ensures
            category_of(res) == ErrorCategory::OllamaApi && message_of(res) == message@ && !has_source(res),
    {
        ATSError::OllamaApi { message: message.to_owned(), source: None }
    }

    /// An error of the model server's API with its source.
    pub fn ollama_api_with_source(message: &str, source: reqwest::Error) -> (res: Self)
        ensures
            category_of(res) == ErrorCategory::OllamaApi && message_of(res) == message@ && has_source(res),
    {
        ATSError::OllamaApi { message: message.to_owned(), source: Some(source) }
    }

    /// A security violation.
    pub fn security(message: &str) -> (res: Self)
        ensures
            category_of(res) == ErrorCategory::Security && message_of(res) == message@ && !has_source(res),
    {
        ATSError::Security { message: message.to_owned() }
    }

    /// A configuration error.
    pub fn configuration(message: &str) -> (res: Self)
        ensures
            category_of(res) == ErrorCategory::Configuration && message_of(res) == message@ && !has_source(res),
    {
        ATSError::Configuration { message: message.to_owned(), source: None }
    }

    /// A file operation error.
    pub fn file_operation(message: &str) -> (res: Self)
        ensures
            category_of(res) == ErrorCategory::FileOperation && message_of(res) == message@ && !has_source(res),
    {
        ATSError::FileOperation { message: message.to_owned(), source: None }
    }

    /// A file operation error with its source.
    pub fn file_operation_with_source(message: &str, source: std::io::Error) -> (res: Self)
        ensures
            category_of(res) == ErrorCategory::FileOperation && message_of(res) == message@ && has_source(res),
    {
        ATSError::FileOperation { message: message.to_owned(), source: Some(source) }
    }

    /// A memory management error.
    pub fn memory(message: &str) -> (res: Self)
        ensures
            category_of(res) == ErrorCategory::Memory && message_of(res) == message@ && !has_source(res),
    {
        ATSError::Memory { message: message.to_owned() }
    }

    /// A validation error.
    pub fn validation(message: &str) -> (res: Self)
        ensures
            category_of(res) == ErrorCategory::Validation && message_of(res) == message@ && !has_source(res),
    {
        ATSError::Validation { message: message.to_owned() }
    }

    /// A plugin error.
    pub fn plugin(message: &str) -> (res: Self)
        ensures
            category_of(res) == ErrorCategory::Plugin && message_of(res) == message@ && !has_source(res),
    {
        ATSError::Plugin { message: message.to_owned(), source: None }
    }

    /// A migration error.
    pub fn migration(message: &str) -> (res: Self)
        ensures
            category_of(res) == ErrorCategory::Migration && message_of(res) == message@ && !has_source(res),
    {
        ATSError::Migration { message: message.to_owned(), source: None }
    }

    /// An error of an external service.
    pub fn external_service(message: &str) -> (res: Self)
        ensures
            category_of(res) == ErrorCategory::ExternalService && message_of(res) == message@ && !has_source(res),
    {
        ATSError::ExternalService { message: message.to_owned(), source: None }
    }

    /// The category that an error message names, by keywords of its
    /// lowercased text.
    pub fn classify_message(text: &str) -> (res: Option<ErrorCategory>)
        ensures
            res == classify(lowercase(text@)),
    {
        let lower = to_lowercase(text);
        let t = chars_of(lower.as_str());
        if contains_chars(&t, &chars_of("database")) || contains_chars(&t, &chars_of("sql")) {
            Some(ErrorCategory::Database)
        } else if contains_chars(&t, &chars_of("file")) || contains_chars(&t, &chars_of("io")) {
            Some(ErrorCategory::FileOperation)
        } else if contains_chars(&t, &chars_of("security")) || contains_chars(&t, &chars_of("permission")) {
            Some(ErrorCategory::Security)
        } else if contains_chars(&t, &chars_of("config")) {
            Some(ErrorCategory::Configuration)
        } else if contains_chars(&t, &chars_of("memory")) {
            Some(ErrorCategory::Memory)
        } else {
            None
        }
    }

    /// Converts an `anyhow` error by the keywords of its message: database,
    /// file, security, configuration or memory errors keep the message; any
    /// other becomes a document parsing error "Unknown error" with the error
    /// as its source.
    pub fn from_anyhow(err: anyhow::Error) -> (res: Self)
        ensures
            classify(lowercase(message_of(res))) == Some(category_of(res)) || (category_of(res)
                == ErrorCategory::DocumentParsing && message_of(res) == "Unknown error"@ && has_source(res)),
    {
        let text = anyhow_text(&err);
        match Self::classify_message(text.as_str()) {
            Some(ErrorCategory::Database) => Self::database(text.as_str()),
            Some(ErrorCategory::FileOperation) => Self::file_operation(text.as_str()),
            Some(ErrorCategory::Security) => Self::security(text.as_str()),
            Some(ErrorCategory::Configuration) => Self::configuration(text.as_str()),
            Some(ErrorCategory::Memory) => Self::memory(text.as_str()),
            _ => Self::document_parsing_with_source("Unknown error", err),
        }
    }
}


/// The result type of the application.
pub type ATSResult<T> = Result<T, ATSError>;

/// `message`, a colon and a space, then `detail`.
fn with_detail(message: &str, detail: &str) -> (res: String)
    ensures
        res@ == message@ + ": "@ + detail@,
{
    let mut v: Vec<char> = Vec::new();
    append_chars(&mut v, &chars_of(message));
    append_chars(&mut v, &chars_of(": "));
    append_chars(&mut v, &chars_of(detail));
    string_from_chars(&v)
}

/// Calls `ToString::to_string` (its `Display` text) on an `sqlx::Error`;
/// nothing is stated of the text.
#[verifier::external_body]
fn sqlx_text(err: &sqlx::Error) -> String {
    err.to_string()
}

/// Calls `ToString::to_string` (its `Display` text) on a `std::io::Error`;
/// nothing is stated of the text.
#[verifier::external_body]
fn io_text(err: &std::io::Error) -> String {
    err.to_string()
}

/// Calls `ToString::to_string` (its `Display` text) on a `reqwest::Error`;
/// nothing is stated of the text.
#[verifier::external_body]
fn reqwest_text(err: &reqwest::Error) -> String {
    err.to_string()
}

/// Conversion of results with an error of another library into results of
/// the application.
pub trait IntoATSError<T> {
    /// Into the error category that suits the source error.
    fn into_ats_error(self, message: &str) -> ATSResult<T>;

    /// Into a database-flavoured error.
    fn into_database_error(self, message: &str) -> ATSResult<T>;

    /// Into a file-flavoured error.
    fn into_file_error(self, message: &str) -> ATSResult<T>;

    /// Into a document-flavoured error.
    fn into_document_error(self, message: &str) -> ATSResult<T>;

    /// Into a model-server-flavoured error.
    fn into_ollama_error(self, message: &str) -> ATSResult<T>;
}

impl<T> IntoATSError<T> for Result<T, sqlx::Error> {
    /// A database error with the source.
    fn into_ats_error(self, message: &str) -> (res: ATSResult<T>)
        ensures
            self is Ok ==> res is Ok && res->Ok_0 == self->Ok_0,
            self is Err ==> (res matches Err(e) && category_of(e) == ErrorCategory::Database && message_of(e) == message@ && has_source(e)),
    {
        self.into_database_error(message)
    }

    /// A database error with the source.
    fn into_database_error(self, message: &str) -> (res: ATSResult<T>)
        ensures
            self is Ok ==> res is Ok && res->Ok_0 == self->Ok_0,
            self is Err ==> (res matches Err(e) && category_of(e) == ErrorCategory::Database && message_of(e) == message@ && has_source(e)),
    {
        match self {
            Ok(v) => Ok(v),
            Err(e) => Err(ATSError::database_with_source(message, e)),
        }
    }

    /// A database error whose message carries the error text.
    fn into_file_error(self, message: &str) -> (res: ATSResult<T>)
        ensures
            self is Ok ==> res is Ok && res->Ok_0 == self->Ok_0,
            self is Err ==> (res matches Err(e) && category_of(e) == ErrorCategory::Database && !has_source(e) && (exists|t: Seq<char>| message_of(e) == message@ + ": "@ + t)),
    {
        match self {
            Ok(v) => Ok(v),
            Err(e) => {
                let text = sqlx_text(&e);
                let full = with_detail(message, text.as_str());
                Err(ATSError::database(full.as_str()))
            },
        }
    }

    /// A database error whose message carries the error text.
    fn into_document_error(self, message: &str) -> (res: ATSResult<T>)
        ensures
            self is Ok ==> res is Ok && res->Ok_0 == self->Ok_0,
            self is Err ==> (res matches Err(e) && category_of(e) == ErrorCategory::Database && !has_source(e) && (exists|t: Seq<char>| message_of(e) == message@ + ": "@ + t)),
    {
        match self {
            Ok(v) => Ok(v),
            Err(e) => {
                let text = sqlx_text(&e);
                let full = with_detail(message, text.as_str());
                Err(ATSError::database(full.as_str()))
            },
        }
    }

    /// A database error whose message carries the error text.
    fn into_ollama_error(self, message: &str) -> (res: ATSResult<T>)
        ensures
            self is Ok ==> res is Ok && res->Ok_0 == self->Ok_0,
            self is Err ==> (res matches Err(e) && category_of(e) == ErrorCategory::Database && !has_source(e) && (exists|t: Seq<char>| message_of(e) == message@ + ": "@ + t)),
    {
        match self {
            Ok(v) => Ok(v),
            Err(e) => {
                let text = sqlx_text(&e);
                let full = with_detail(message, text.as_str());
                Err(ATSError::database(full.as_str()))
            },
        }
    }
}

impl<T> IntoATSError<T> for Result<T, std::io::Error> {
    /// A file error with the source.
    fn into_ats_error(self, message: &str) -> (res: ATSResult<T>)
        ensures
            self is Ok ==> res is Ok && res->Ok_0 == self->Ok_0,
            self is Err ==> (res matches Err(e) && category_of(e) == ErrorCategory::FileOperation && message_of(e) == message@ && has_source(e)),
    {
        self.into_file_error(message)
    }

    /// A file error whose message carries the error text.
    fn into_database_error(self, message: &str) -> (res: ATSResult<T>)
        ensures
            self is Ok ==> res is Ok && res->Ok_0 == self->Ok_0,
            self is Err ==> (res matches Err(e) && category_of(e) == ErrorCategory::FileOperation && !has_source(e) && (exists|t: Seq<char>| message_of(e) == message@ + ": "@ + t)),
    {
        match self {
            Ok(v) => Ok(v),
            Err(e) => {
                let text = io_text(&e);
                let full = with_detail(message, text.as_str());
                Err(ATSError::file_operation(full.as_str()))
            },
        }
    }

    /// A file error with the source.
    fn into_file_error(self, message: &str) -> (res: ATSResult<T>)
        ensures
            self is Ok ==> res is Ok && res->Ok_0 == self->Ok_0,
            self is Err ==> (res matches Err(e) && category_of(e) == ErrorCategory::FileOperation && message_of(e) == message@ && has_source(e)),
    {
        match self {
            Ok(v) => Ok(v),
            Err(e) => Err(ATSError::file_operation_with_source(message, e)),
        }
    }

    /// A document parsing error whose message carries the error text.
    fn into_document_error(self, message: &str) -> (res: ATSResult<T>)
        ensures
            self is Ok ==> res is Ok && res->Ok_0 == self->Ok_0,
            self is Err ==> (res matches Err(e) && category_of(e) == ErrorCategory::DocumentParsing && !has_source(e) && (exists|t: Seq<char>| message_of(e) == message@ + ": "@ + t)),
    {
        match self {
            Ok(v) => Ok(v),
            Err(e) => {
                let text = io_text(&e);
                let full = with_detail(message, text.as_str());
                Err(ATSError::document_parsing(full.as_str()))
            },
        }
    }

    /// A file error whose message carries the error text.
    fn into_ollama_error(self, message: &str) -> (res: ATSResult<T>)
        ensures
            self is Ok ==> res is Ok && res->Ok_0 == self->Ok_0,
            self is Err ==> (res matches Err(e) && category_of(e) == ErrorCategory::FileOperation && !has_source(e) && (exists|t: Seq<char>| message_of(e) == message@ + ": "@ + t)),
    {
        match self {
            Ok(v) => Ok(v),
            Err(e) => {
                let text = io_text(&e);
                let full = with_detail(message, text.as_str());
                Err(ATSError::file_operation(full.as_str()))
            },
        }
    }
}

impl<T> IntoATSError<T> for Result<T, reqwest::Error> {
    /// A model server error with the source.
    fn into_ats_error(self, message: &str) -> (res: ATSResult<T>)
        ensures
            self is Ok ==> res is Ok && res->Ok_0 == self->Ok_0,
            self is Err ==> (res matches Err(e) && category_of(e) == ErrorCategory::OllamaApi && message_of(e) == message@ && has_source(e)),
    {
        self.into_ollama_error(message)
    }

    /// A model server error whose message carries the error text.
    fn into_database_error(self, message: &str) -> (res: ATSResult<T>)
        ensures
            self is Ok ==> res is Ok && res->Ok_0 == self->Ok_0,
            self is Err ==> (res matches Err(e) && category_of(e) == ErrorCategory::OllamaApi && !has_source(e) && (exists|t: Seq<char>| message_of(e) == message@ + ": "@ + t)),
    {
        match self {
            Ok(v) => Ok(v),
            Err(e) => {
                let text = reqwest_text(&e);
                let full = with_detail(message, text.as_str());
                Err(ATSError::ollama_api(full.as_str()))
            },
        }
    }

    /// A model server error whose message carries the error text.
    fn into_file_error(self, message: &str) -> (res: ATSResult<T>)
        ensures
            self is Ok ==> res is Ok && res->Ok_0 == self->Ok_0,
            self is Err ==> (res matches Err(e) && category_of(e) == ErrorCategory::OllamaApi && !has_source(e) && (exists|t: Seq<char>| message_of(e) == message@ + ": "@ + t)),
    {
        match self {
            Ok(v) => Ok(v),
            Err(e) => {
                let text = reqwest_text(&e);
                let full = with_detail(message, text.as_str());
                Err(ATSError::ollama_api(full.as_str()))
            },
        }
    }

    /// A model server error whose message carries the error text.
    fn into_document_error(self, message: &str) -> (res: ATSResult<T>)
        ensures
            self is Ok ==> res is Ok && res->Ok_0 == self->Ok_0,
            self is Err ==> (res matches Err(e) && category_of(e) == ErrorCategory::OllamaApi && !has_source(e) && (exists|t: Seq<char>| message_of(e) == message@ + ": "@ + t)),
    {
        match self {
            Ok(v) => Ok(v),
            Err(e) => {
                let text = reqwest_text(&e);
                let full = with_detail(message, text.as_str());
                Err(ATSError::ollama_api(full.as_str()))
            },
        }
    }

    /// A model server error with the source.
    fn into_ollama_error(self, message: &str) -> (res: ATSResult<T>)
        ensures
            self is Ok ==> res is Ok && res->Ok_0 == self->Ok_0,
            self is Err ==> (res matches Err(e) && category_of(e) == ErrorCategory::OllamaApi && message_of(e) == message@ && has_source(e)),
    {
        match self {
            Ok(v) => Ok(v),
            Err(e) => Err(ATSError::ollama_api_with_source(message, e)),
        }
    }
}

impl<T> IntoATSError<T> for Result<T, anyhow::Error> {
    /// A document parsing error with the source.
    fn into_ats_error(self, message: &str) -> (res: ATSResult<T>)
        ensures
            self is Ok ==> res is Ok && res->Ok_0 == self->Ok_0,
            self is Err ==> (res matches Err(e) && category_of(e) == ErrorCategory::DocumentParsing && message_of(e) == message@ && has_source(e)),
    {
        self.into_document_error(message)
    }

    /// A database error whose message carries the error text.
    fn into_database_error(self, message: &str) -> (res: ATSResult<T>)
        ensures
            self is Ok ==> res is Ok && res->Ok_0 == self->Ok_0,
            self is Err ==> (res matches Err(e) && category_of(e) == ErrorCategory::Database && !has_source(e) && (exists|t: Seq<char>| message_of(e) == message@ + ": "@ + t)),
    {
        match self {
            Ok(v) => Ok(v),
            Err(e) => {
                let text = anyhow_text(&e);
                let full = with_detail(message, text.as_str());
                Err(ATSError::database(full.as_str()))
            },
        }
    }

    /// A file error whose message carries the error text.
    fn into_file_error(self, message: &str) -> (res: ATSResult<T>)
        ensures
            self is Ok ==> res is Ok && res->Ok_0 == self->Ok_0,
            self is Err ==> (res matches Err(e) && category_of(e) == ErrorCategory::FileOperation && !has_source(e) && (exists|t: Seq<char>| message_of(e) == message@ + ": "@ + t)),
    {
        match self {
            Ok(v) => Ok(v),
            Err(e) => {
                let text = anyhow_text(&e);
                let full = with_detail(message, text.as_str());
                Err(ATSError::file_operation(full.as_str()))
            },
        }
    }

    /// A document parsing error with the source.
    fn into_document_error(self, message: &str) -> (res: ATSResult<T>)
        ensures
            self is Ok ==> res is Ok && res->Ok_0 == self->Ok_0,
            self is Err ==> (res matches Err(e) && category_of(e) == ErrorCategory::DocumentParsing && message_of(e) == message@ && has_source(e)),
    {
        match self {
            Ok(v) => Ok(v),
            Err(e) => Err(ATSError::document_parsing_with_source(message, e)),
        }
    }

    /// A model server error whose message carries the error text.
    fn into_ollama_error(self, message: &str) -> (res: ATSResult<T>)
        ensures
            self is Ok ==> res is Ok && res->Ok_0 == self->Ok_0,
            self is Err ==> (res matches Err(e) && category_of(e) == ErrorCategory::OllamaApi && !has_source(e) && (exists|t: Seq<char>| message_of(e) == message@ + ": "@ + t)),
    {
        match self {
            Ok(v) => Ok(v),
            Err(e) => {
                let text = anyhow_text(&e);
                let full = with_detail(message, text.as_str());
                Err(ATSError::ollama_api(full.as_str()))
            },
        }
    }
}

} // verus!
