//! The failures of the resolution pipeline and of the running service.

use vstd::prelude::*;

verus! {

/// Why the platform, the version or the image target could not be resolved.
#[derive(Debug, Clone, Copy, PartialEq, Eq, Structural, Hash)]
pub enum ImageConfigError {
    /// The image target does not name a `.zip` or `.tar.gz` archive.
    InvalidImageError,
    /// The local image target is missing or is not a regular file.
    ImageNotFoundError,
    /// The host's family, system and architecture are not a supported platform.
    UnsupportedArchError,
    /// The explicit version tag does not match the version pattern.
    InvalidVersionError,
    /// The newest release tag could not be obtained from the registry.
    FetchVersionError,
    /// The version pattern itself was not accepted by the pattern engine.
    CompilationError,
}

/// Why a configuration could not be frozen.
#[derive(Debug, Clone, Copy, PartialEq, Eq, Structural, Hash)]
pub enum DatabaseConfigError {
    /// Platform, version or image resolution failed.
    Image(ImageConfigError),
    /// A home-relative default directory could not be expanded.
    DefaultPathError,
    /// The binary or the data directory could not be created.
    DirectoryError,
    /// The outcome handed back does not answer the request that was pending.
    Generic,
}

/// Why a socket could not be negotiated or the service did not come up.
#[derive(Debug, Clone, Copy, PartialEq, Eq, Structural, Hash)]
pub enum DatabaseError {
    /// The operating system refused the socket for a reason other than a
    /// refused connection.
    TcpError,
    /// The installed binary could not be spawned.
    StartError,
    /// The service did not accept connections within the allowed time.
    TimeoutError,
}

/// A failure together with the value that could not be resolved.
#[derive(Debug, Clone, PartialEq, Eq, Hash)]
pub struct Failure<E> {
    /// What went wrong, and thereby at which stage.
    pub error: E,
    /// The offending value: the host's system and architecture, the tag, the
    /// image target, the default or the directory. Empty where there is none.
    pub subject: String,
}

/// What a `Failure` stands for.
pub struct FailureModel<E> {
    pub error: E,
    pub subject: Seq<char>,
}

impl<E> View for Failure<E> {
    type V = FailureModel<E>;

    open spec fn view(&self) -> FailureModel<E> {
        FailureModel { error: self.error, subject: self.subject@ }
    }
}

/// A result, with its value and its failure seen as what they stand for.
pub open spec fn seen<T: View, E>(r: Result<T, Failure<E>>) -> Result<T::V, FailureModel<E>> {
    match r {
        Ok(value) => Ok(value@),
        Err(failure) => Err(failure@),
    }
}

/// A result, with its failure seen as what it stands for.
pub open spec fn plain<T, E>(r: Result<T, Failure<E>>) -> Result<T, FailureModel<E>> {
    match r {
        Ok(value) => Ok(value),
        Err(failure) => Err(failure@),
    }
}

/// A failure of platform, version or image resolution as a failure of the
/// build.
pub open spec fn lifted(failure: FailureModel<ImageConfigError>) -> FailureModel<
    DatabaseConfigError,
> {
    FailureModel { error: DatabaseConfigError::Image(failure.error), subject: failure.subject }
}

impl<E> Failure<E> {
    /// A failure about a value.
    pub fn about(error: E, subject: &str) -> (failure: Failure<E>)
        ensures
            failure@ == (FailureModel { error, subject: subject@ }),
    {
        Failure { error, subject: String::from_str(subject) }
    }
}

impl Failure<ImageConfigError> {
    /// This failure as a failure of the build.
    pub fn lift(self) -> (failure: Failure<DatabaseConfigError>)
        ensures
            failure@ == lifted(self@),
    {
        Failure { error: DatabaseConfigError::Image(self.error), subject: self.subject }
    }
}

impl ImageConfigError {
    /// The text shown for any failure of this kind.
    pub fn message(&self) -> (text: String)
        ensures
            text@ == "Failed to parse parameters in Image Configuration"@,
    {
        String::from_str("Failed to parse parameters in Image Configuration")
    }
}

impl DatabaseConfigError {
    /// The text shown for any failure of this kind.
    pub fn message(&self) -> (text: String)
        ensures
            text@ == "Failed to parse parameters in Database Configuration"@,
    {
        String::from_str("Failed to parse parameters in Database Configuration")
    }
}

impl DatabaseError {
    /// The text shown for any failure of this kind.
    pub fn message(&self) -> (text: String)
        ensures
            text@ == "Database Unexpected Error"@,
    {
        String::from_str("Database Unexpected Error")
    }
}

} // verus!
