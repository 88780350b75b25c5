//! The decisions of persisting and reading back a whole payload at a resolved
//! location. The filesystem work itself (creating a directory, writing and
//! reading a file) is done by the caller, which reports each outcome back.
use crate::location::ResolvedPaths;
use vstd::prelude::*;

verus! {

/// Why a store or a load failed.
#[derive(Debug, Clone)]
pub enum PersistError {
    /// Creating the directory, writing or reading the file failed; holds the
    /// system's description of the failure.
    Io(String),
}

/// What became of a request to create a directory and its missing parents.
#[derive(Debug, Clone)]
pub enum DirectoryOutcome {
    Created,
    AlreadyExists,
    Failed(String),
}

/// The next thing a store does.
#[derive(Debug)]
pub enum StoreStep {
    /// Create this directory and all its missing parents.
    CreateDirectory(String),
    /// Write the whole payload to this file, replacing what it held.
    WriteFile(String),
    /// The store is over, with this result.
    Finish(Result<(), PersistError>),
}

/// The failure that carries the system's description `detail`.
fn io_error(detail: String) -> (r: PersistError)
    ensures
        r matches PersistError::Io(d) && d@ == detail@,
{
    PersistError::Io(detail)
}

impl<'a> ResolvedPaths<'a> {
    /// A store starts by making sure the location's directory exists.
    pub fn store_begin(&self) -> (r: StoreStep)
        ensures
            r matches StoreStep::CreateDirectory(p) && p@ == self.directory_path@,
    {
        StoreStep::CreateDirectory(self.directory_path.clone())
    }

    /// After the directory was requested: a directory that already exists is
    /// no failure, and the payload is written to the location's file; any other
    /// failure ends the store, and no write is attempted.
    pub fn after_directory(&self, outcome: DirectoryOutcome) -> (r: StoreStep)
        ensures
            match outcome {
                DirectoryOutcome::Failed(d) => r matches StoreStep::Finish(Err(PersistError::Io(e)))
                    && e@ == d@,
                _ => r matches StoreStep::WriteFile(p) && p@ == self.constructed_path@,
            },
    {
        match outcome {
            DirectoryOutcome::Failed(detail) => StoreStep::Finish(Err(io_error(detail))),
            _ => StoreStep::WriteFile(self.constructed_path.clone()),
        }
    }

    /// After the write: the store succeeds exactly when the write did.
    pub fn after_write(outcome: Result<(), String>) -> (r: StoreStep)
        ensures
            match outcome {
                Ok(()) => r matches StoreStep::Finish(Ok(())),
                Err(d) => r matches StoreStep::Finish(Err(PersistError::Io(e))) && e@ == d@,
            },
    {
        match outcome {
            Ok(()) => StoreStep::Finish(Ok(())),
            Err(detail) => StoreStep::Finish(Err(io_error(detail))),
        }
    }

    /// The result of a load, from what reading the location's file gave: its
    /// bytes, unchanged, or the failure. A file that is missing is a failure,
    /// never an empty payload.
    pub fn after_read(outcome: Result<Vec<u8>, String>) -> (r: Result<Vec<u8>, PersistError>)
        ensures
            match outcome {
                Ok(bytes) => r matches Ok(b) && b@ == bytes@,
                Err(d) => r matches Err(PersistError::Io(e)) && e@ == d@,
            },
    {
        match outcome {
            Ok(bytes) => Ok(bytes),
            Err(detail) => Err(io_error(detail)),
        }
    }
}

} // verus!
