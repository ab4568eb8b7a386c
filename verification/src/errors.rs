//! Error values of the tool shell: one enum per concern, each carrying its
//! detail text, with a rendered message and a severity class.

use vstd::prelude::*;

verus! {

/// Configuration errors.
#[derive(Debug, Clone)]
pub enum ConfigError {
    /// The configuration could not be loaded.
    LoadError(String),
    /// The configuration was loaded but is not usable.
    InvalidConfig(String),
    /// A required setting is absent.
    MissingConfig(String),
}

impl ConfigError {
    /// The rendered message.
    pub fn message(&self) -> (r: String)
        ensures
            r@ == (match self {
                ConfigError::LoadError(m) => "Failed to load configuration: "@ + m@,
                ConfigError::InvalidConfig(m) => "Invalid configuration: "@ + m@,
                ConfigError::MissingConfig(m) => "Missing required configuration: "@ + m@,
            }),
    {
        let mut s = String::new();
        match self {
            ConfigError::LoadError(m) => {
                s.append("Failed to load configuration: ");
                s.append(m.as_str());
            },
            ConfigError::InvalidConfig(m) => {
                s.append("Invalid configuration: ");
                s.append(m.as_str());
            },
            ConfigError::MissingConfig(m) => {
                s.append("Missing required configuration: ");
                s.append(m.as_str());
            },
        }
        s
    }
}

/// Errors of the HTTP surface.
#[derive(Debug, Clone)]
pub enum ApiError {
    /// The request could not be made.
    RequestError(String),
    /// The response could not be handled.
    ResponseError(String),
    /// The caller could not be authenticated.
    AuthError(String),
}

impl ApiError {
    /// The rendered message.
    pub fn message(&self) -> (r: String)
        ensures
            r@ == (match self {
                ApiError::RequestError(m) => "Request error: "@ + m@,
                ApiError::ResponseError(m) => "Response error: "@ + m@,
                ApiError::AuthError(m) => "Authentication error: "@ + m@,
            }),
    {
        let mut s = String::new();
        match self {
            ApiError::RequestError(m) => {
                s.append("Request error: ");
                s.append(m.as_str());
            },
            ApiError::ResponseError(m) => {
                s.append("Response error: ");
                s.append(m.as_str());
            },
            ApiError::AuthError(m) => {
                s.append("Authentication error: ");
                s.append(m.as_str());
            },
        }
        s
    }
}

/// Errors of the command-line surface.
#[derive(Debug, Clone)]
pub enum CliError {
    /// An argument does not parse.
    InvalidArgument(String),
    /// The named command does not exist.
    CommandNotFound(String),
    /// Running the command failed.
    ExecutionError(String),
}

impl CliError {
    /// The rendered message.
    pub fn message(&self) -> (r: String)
        ensures
            r@ == (match self {
                CliError::InvalidArgument(m) => "Invalid argument: "@ + m@,
                CliError::CommandNotFound(m) => "Command not found: "@ + m@,
                CliError::ExecutionError(m) => "Execution error: "@ + m@,
            }),
    {
        let mut s = String::new();
        match self {
            CliError::InvalidArgument(m) => {
                s.append("Invalid argument: ");
                s.append(m.as_str());
            },
            CliError::CommandNotFound(m) => {
                s.append("Command not found: ");
                s.append(m.as_str());
            },
            CliError::ExecutionError(m) => {
                s.append("Execution error: ");
                s.append(m.as_str());
            },
        }
        s
    }
}

/// Errors of the data store.
#[derive(Debug, Clone)]
pub enum DatabaseError {
    /// The store could not be reached.
    ConnectionError(String),
    /// A query failed.
    QueryError(String),
    /// A transaction failed.
    TransactionError(String),
}

impl DatabaseError {
    /// The rendered message.
    pub fn message(&self) -> (r: String)
        ensures
            r@ == (match self {
                DatabaseError::ConnectionError(m) => "Connection error: "@ + m@,
                DatabaseError::QueryError(m) => "Query error: "@ + m@,
                DatabaseError::TransactionError(m) => "Transaction error: "@ + m@,
            }),
    {
        let mut s = String::new();
        match self {
            DatabaseError::ConnectionError(m) => {
                s.append("Connection error: ");
                s.append(m.as_str());
            },
            DatabaseError::QueryError(m) => {
                s.append("Query error: ");
                s.append(m.as_str());
            },
            DatabaseError::TransactionError(m) => {
                s.append("Transaction error: ");
                s.append(m.as_str());
            },
        }
        s
    }
}

/// Errors tied to the platform underneath.
#[derive(Debug, Clone)]
pub enum PlatformError {
    /// The platform is not supported.
    UnsupportedPlatform(String),
    /// A platform facility failed.
    PlatformSpecific(String),
}

impl PlatformError {
    /// The rendered message.
    pub fn message(&self) -> (r: String)
        ensures
            r@ == (match self {
                PlatformError::UnsupportedPlatform(m) => "Unsupported platform: "@ + m@,
                PlatformError::PlatformSpecific(m) => "Platform-specific error: "@ + m@,
            }),
    {
        let mut s = String::new();
        match self {
            PlatformError::UnsupportedPlatform(m) => {
                s.append("Unsupported platform: ");
                s.append(m.as_str());
            },
            PlatformError::PlatformSpecific(m) => {
                s.append("Platform-specific error: ");
                s.append(m.as_str());
            },
        }
        s
    }
}

/// How grave an error is.
#[derive(Debug, Clone, Copy, PartialEq, Eq, Structural)]
pub enum ErrorSeverity {
    /// The run can go on.
    Warning,
    /// The run cannot go on.
    Error,
}

} // verus!
