//! What can go wrong, by the collaborator that failed.

use vstd::prelude::*;

verus! {

/// Why a call of the analysis provider gave no text.
#[derive(Debug, PartialEq, Eq, Structural, Clone, Copy)]
pub enum ProviderError {
    /// The request could not be sent or the response could not be received.
    Transport,
    /// The provider answered with a status outside `200..=299`.
    Status(u16),
    /// The body of the response is not a JSON document.
    Unparseable,
}

/// The failures of the pipeline. None of them leaves a half-written record
/// behind: an ingest is rolled back, and a failed analysis is not cached.
#[derive(Debug, PartialEq, Eq, Structural, Clone, Copy)]
pub enum AppError {
    /// The archive cannot be opened, or one of its entries cannot be read.
    Archive,
    /// A statement or the connection to storage failed.
    Storage,
    /// The analysis provider failed.
    Provider(ProviderError),
    /// No credential for the analysis provider is configured.
    Configuration,
}

/// The line that tells an operator which collaborator failed.
pub open spec fn message_of(e: AppError) -> Seq<char> {
    match e {
        AppError::Archive => "archive: cannot be opened or read"@,
        AppError::Storage => "storage: statement or connection failed"@,
        AppError::Provider(ProviderError::Transport) => "provider: request failed"@,
        AppError::Provider(ProviderError::Status(_)) => "provider: request refused"@,
        AppError::Provider(ProviderError::Unparseable) => "provider: reply is not JSON"@,
        AppError::Configuration => "configuration: OPENAI_API_KEY is empty"@,
    }
}

impl AppError {
    /// A line that tells an operator which collaborator failed.
    pub fn message(&self) -> (s: String)
        ensures
            s@ == message_of(*self),
    {
        match self {
            AppError::Archive => "archive: cannot be opened or read".to_owned(),
            AppError::Storage => "storage: statement or connection failed".to_owned(),
            AppError::Provider(ProviderError::Transport) => "provider: request failed".to_owned(),
            AppError::Provider(ProviderError::Status(_)) => "provider: request refused".to_owned(),
            AppError::Provider(ProviderError::Unparseable) => "provider: reply is not JSON".to_owned(),
            AppError::Configuration => "configuration: OPENAI_API_KEY is empty".to_owned(),
        }
    }
}

} // verus!
