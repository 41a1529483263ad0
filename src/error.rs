use vstd::prelude::*;

verus! {

/// Every way a download or upload can fail.
///
/// Failures that originate in the HTTP client or the remote service are
/// carried as the message they reported.
#[derive(Debug)]
pub enum Error {
    TokenNotPresent,
    TokenNotUnicode,
    InvalidUrl(String),
    InvalidContentUrl(String),
    InvalidDownloadUrl(String),
    InvalidTopLevelFile(String),
    NoContent,
    NotImplementedForSubdir,
    HttpRequestError(String),
    GoFileApiError(String),
    FileCouldntBeCreated(String),
    FileCouldntBeWritten(String),
    CouldntReadMetadata(String),
    NotAFile(String),
    Md5DigestMismatched(String),
}

} // verus!
