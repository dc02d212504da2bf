use vstd::prelude::*;

verus! {

/// The kinds of I/O failure that the library reports.
#[derive(Clone, Copy, Debug, PartialEq, Eq, Structural)]
pub enum IoErrorKind {
    NotFound,
    PermissionDenied,
    AlreadyExists,
    InvalidInput,
    InvalidData,
    Other,
}

/// Failures of the assistant, each with the text that describes it.
#[derive(Debug)]
pub enum AppError {
    /// A network or HTTP failure.
    NetworkError(String),
    /// A JSON text that could not be read or written.
    SerializationError(String),
    /// An I/O failure of the given kind.
    IoError(IoErrorKind, String),
    /// A failure of the line editor.
    CliError(String),
    /// A failure reported by, or about, the language model.
    LlmProviderError(String),
    /// A session that could not be saved or loaded.
    SessionRepositoryError(String),
    /// Anything else.
    Unknown(String),
}

/// The model of an error.
pub enum AppErrorV {
    Network(Seq<char>),
    Serialization(Seq<char>),
    Io(IoErrorKind, Seq<char>),
    Cli(Seq<char>),
    LlmProvider(Seq<char>),
    SessionRepository(Seq<char>),
    Unknown(Seq<char>),
}

impl View for AppError {
    type V = AppErrorV;

    open spec fn view(&self) -> AppErrorV {
        match self {
            AppError::NetworkError(s) => AppErrorV::Network(s@),
            AppError::SerializationError(s) => AppErrorV::Serialization(s@),
            AppError::IoError(k, s) => AppErrorV::Io(*k, s@),
            AppError::CliError(s) => AppErrorV::Cli(s@),
            AppError::LlmProviderError(s) => AppErrorV::LlmProvider(s@),
            AppError::SessionRepositoryError(s) => AppErrorV::SessionRepository(s@),
            AppError::Unknown(s) => AppErrorV::Unknown(s@),
        }
    }
}

/// An I/O error of the given kind with a fixed message.
pub fn io_error(kind: IoErrorKind, message: &str) -> (r: AppError)
    ensures
        r@ == AppErrorV::Io(kind, message@),
{
    AppError::IoError(kind, message.to_owned())
}

/// A language-model error with a fixed message.
pub fn llm_error(message: String) -> (r: AppError)
    ensures
        r@ == AppErrorV::LlmProvider(message@),
{
    AppError::LlmProviderError(message)
}

} // verus!
