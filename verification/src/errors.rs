use vstd::prelude::*;

verus! {

/// The kind of an [`AppError`], without its message.
#[derive(PartialEq, Eq, Structural, Clone, Copy, Debug)]
pub enum ErrorKind {
    Database,
    IO,
    Parse,
    Configuration,
    Concurrency,
    Http,
    RequestInput,
    Authentication,
    System,
    Crypto,
}

/// The error type of the service. Each variant carries a human readable message.
#[derive(Clone, Debug)]
pub enum AppError {
    DatabaseError(String),
    IOError(String),
    ParseError(String),
    ConfigurationError(String),
    ConcurrencyError(String),
    HttpError(String),
    RequestInputError(String),
    AuthenticationError(String),
    SystemError(String),
    CryptoError(String),
}

/// An error as a mathematical value: its kind and its message.
pub type ErrorView = (ErrorKind, Seq<char>);

impl View for AppError {
    type V = ErrorView;

    open spec fn view(&self) -> ErrorView {
        match self {
            AppError::DatabaseError(m) => (ErrorKind::Database, m@),
            AppError::IOError(m) => (ErrorKind::IO, m@),
            AppError::ParseError(m) => (ErrorKind::Parse, m@),
            AppError::ConfigurationError(m) => (ErrorKind::Configuration, m@),
            AppError::ConcurrencyError(m) => (ErrorKind::Concurrency, m@),
            AppError::HttpError(m) => (ErrorKind::Http, m@),
            AppError::RequestInputError(m) => (ErrorKind::RequestInput, m@),
            AppError::AuthenticationError(m) => (ErrorKind::Authentication, m@),
            AppError::SystemError(m) => (ErrorKind::System, m@),
            AppError::CryptoError(m) => (ErrorKind::Crypto, m@),
        }
    }
}

/// The text that the display form of an error puts before its message.
pub open spec fn kind_label(kind: ErrorKind) -> Seq<char> {
    match kind {
        ErrorKind::Database => "Database error: "@,
        ErrorKind::IO => "IO error: "@,
        ErrorKind::Parse => "Parse error: "@,
        ErrorKind::Configuration => "Configuration error: "@,
        ErrorKind::Concurrency => "Concurrency error: "@,
        ErrorKind::Http => "Http error: "@,
        ErrorKind::RequestInput => "Request input error: "@,
        ErrorKind::Authentication => "Authentication error: "@,
        ErrorKind::System => "System error: "@,
        ErrorKind::Crypto => "Crypto error: "@,
    }
}

/// The display form of an error: its label followed by its message.
pub open spec fn display_text(e: ErrorView) -> Seq<char> {
    kind_label(e.0) + e.1
}

/// The HTTP status with which an error is answered.
pub open spec fn status_for(kind: ErrorKind) -> u16 {
    if kind == ErrorKind::RequestInput { 400 } else { 500 }
}

/// The body with which an error is answered: the bare message for bad input,
/// the display form otherwise.
pub open spec fn response_text_for(e: ErrorView) -> Seq<char> {
    if e.0 == ErrorKind::RequestInput { e.1 } else { display_text(e) }
}

/// Builds the error of the given kind with the given message.
pub open spec fn error_of(kind: ErrorKind, message: Seq<char>) -> ErrorView {
    (kind, message)
}

impl AppError {
    /// The kind of this error.
    pub fn kind(&self) -> (k: ErrorKind)
        ensures
            k == self@.0,
    {
        match self {
            AppError::DatabaseError(_) => ErrorKind::Database,
            AppError::IOError(_) => ErrorKind::IO,
            AppError::ParseError(_) => ErrorKind::Parse,
            AppError::ConfigurationError(_) => ErrorKind::Configuration,
            AppError::ConcurrencyError(_) => ErrorKind::Concurrency,
            AppError::HttpError(_) => ErrorKind::Http,
            AppError::RequestInputError(_) => ErrorKind::RequestInput,
            AppError::AuthenticationError(_) => ErrorKind::Authentication,
            AppError::SystemError(_) => ErrorKind::System,
            AppError::CryptoError(_) => ErrorKind::Crypto,
        }
    }

    /// The message this error carries.
    pub fn message(&self) -> (m: &String)
        ensures
            m@ == self@.1,
    {
        match self {
            AppError::DatabaseError(m) => m,
            AppError::IOError(m) => m,
            AppError::ParseError(m) => m,
            AppError::ConfigurationError(m) => m,
            AppError::ConcurrencyError(m) => m,
            AppError::HttpError(m) => m,
            AppError::RequestInputError(m) => m,
            AppError::AuthenticationError(m) => m,
            AppError::SystemError(m) => m,
            AppError::CryptoError(m) => m,
        }
    }

    /// Builds an error of the given kind.
    pub fn new(kind: ErrorKind, message: String) -> (e: AppError)
        ensures
            e@ == error_of(kind, message@),
    {
        match kind {
            ErrorKind::Database => AppError::DatabaseError(message),
            ErrorKind::IO => AppError::IOError(message),
            ErrorKind::Parse => AppError::ParseError(message),
            ErrorKind::Configuration => AppError::ConfigurationError(message),
            ErrorKind::Concurrency => AppError::ConcurrencyError(message),
            ErrorKind::Http => AppError::HttpError(message),
            ErrorKind::RequestInput => AppError::RequestInputError(message),
            ErrorKind::Authentication => AppError::AuthenticationError(message),
            ErrorKind::System => AppError::SystemError(message),
            ErrorKind::Crypto => AppError::CryptoError(message),
        }
    }

    /// The display form of this error, such as `Database error: timeout`.
    pub fn to_string(&self) -> (s: String)
        ensures
            s@ == display_text(self@),
    {
        let label = match self {
            AppError::DatabaseError(_) => "Database error: ",
            AppError::IOError(_) => "IO error: ",
            AppError::ParseError(_) => "Parse error: ",
            AppError::ConfigurationError(_) => "Configuration error: ",
            AppError::ConcurrencyError(_) => "Concurrency error: ",
            AppError::HttpError(_) => "Http error: ",
            AppError::RequestInputError(_) => "Request input error: ",
            AppError::AuthenticationError(_) => "Authentication error: ",
            AppError::SystemError(_) => "System error: ",
            AppError::CryptoError(_) => "Crypto error: ",
        };
        let mut s = String::from_str(label);
        s.append(self.message().as_str());
        s
    }

    /// The HTTP status code of the response that reports this error.
    pub fn status_code(&self) -> (code: u16)
        ensures
            code == status_for(self@.0),
            (code == 400) <==> (self@.0 == ErrorKind::RequestInput),
            code == 400 || code == 500,
    {
        match self {
            AppError::RequestInputError(_) => 400,
            _ => 500,
        }
    }

    /// The body of the response that reports this error.
    pub fn response_text(&self) -> (s: String)
        ensures
            s@ == response_text_for(self@),
    {
        match self {
            AppError::RequestInputError(msg) => msg.clone(),
            _ => self.to_string(),
        }
    }
}

/// Only bad request input is answered with 400; every other kind of error
/// is answered with 500.
pub proof fn lemma_only_bad_input_is_400(kind: ErrorKind)
    ensures
        (status_for(kind) == 400) <==> (kind == ErrorKind::RequestInput),
        kind != ErrorKind::RequestInput ==> status_for(kind) == 500,
{
}

/// Result type of the service.
pub type AppResult<T> = Result<T, AppError>;

} // verus!
