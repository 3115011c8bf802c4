use vstd::prelude::*;

verus! {

/// `std::io::Error`, carried through as an opaque value.
#[verifier::external_type_specification]
#[verifier::external_body]
pub struct ExIoError(std::io::Error);

/// Why a key is reported without an exit status.
#[derive(Debug)]
pub enum Error {
    /// The command under this key could not be started.
    UnableToSpawnProcess(std::io::Error),
    /// Asking the operating system about the process under this key failed.
    WaitFailed(std::io::Error),
}

impl Error {
    /// Whether the command never started.
    pub fn is_spawn_failure(&self) -> (yes: bool)
        ensures
            yes == (*self is UnableToSpawnProcess),
    {
        match self {
            Error::UnableToSpawnProcess(_) => true,
            Error::WaitFailed(_) => false,
        }
    }

    /// The operating system's error behind this one.
    pub fn into_io_error(self) -> (inner: std::io::Error)
        ensures
            inner == self.io_error(),
    {
        match self {
            Error::UnableToSpawnProcess(e) => e,
            Error::WaitFailed(e) => e,
        }
    }

    pub open spec fn io_error(self) -> std::io::Error {
        match self {
            Error::UnableToSpawnProcess(e) => e,
            Error::WaitFailed(e) => e,
        }
    }
}

} // verus!
