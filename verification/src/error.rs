//! The ways in which reading or writing the task file can fail.

use vstd::prelude::*;
use vstd::string::*;

verus! {

/// Why a load or a save did not succeed.
#[derive(Debug, PartialEq, Eq)]
pub enum StorageError {
    /// The system offers no directory in which the task file could live.
    NoStorageLocation,
    /// The task file exists but could not be read.
    ReadFailure,
    /// The task file does not hold a JSON array.
    MalformedDocument,
    /// Before a save, every attempt to read the stored tasks failed; the
    /// error of the last attempt is inside.
    PersistentReadFailure(Box<StorageError>),
    /// The new file could not be written or put in place.
    WriteFailure,
}

impl StorageError {
    /// The sentence that describes the error.
    pub open spec fn description(self) -> Seq<char>
        decreases self,
    {
        match self {
            StorageError::NoStorageLocation => "no storage location is available"@,
            StorageError::ReadFailure => "the task file could not be read"@,
            StorageError::MalformedDocument => "the task file does not hold a JSON array"@,
            StorageError::PersistentReadFailure(cause) => "the stored tasks could not be read: "@
                + cause.description(),
            StorageError::WriteFailure => "the task file could not be written"@,
        }
    }

    /// Describes the error in words, for a person to read.
    pub fn to_string(&self) -> (text: String)
        ensures
            text@ == self.description(),
        decreases self,
    {
        match self {
            StorageError::NoStorageLocation => String::from_str("no storage location is available"),
            StorageError::ReadFailure => String::from_str("the task file could not be read"),
            StorageError::MalformedDocument => String::from_str(
                "the task file does not hold a JSON array",
            ),
            StorageError::PersistentReadFailure(cause) => {
                let mut text = String::from_str("the stored tasks could not be read: ");
                let inner = cause.to_string();
                text.append(inner.as_str());
                text
            },
            StorageError::WriteFailure => String::from_str("the task file could not be written"),
        }
    }
}

impl Clone for StorageError {
    fn clone(&self) -> (copy: StorageError)
        ensures
            copy == *self,
        decreases self,
    {
        match self {
            StorageError::NoStorageLocation => StorageError::NoStorageLocation,
            StorageError::ReadFailure => StorageError::ReadFailure,
            StorageError::MalformedDocument => StorageError::MalformedDocument,
            StorageError::PersistentReadFailure(cause) => StorageError::PersistentReadFailure(
                Box::new((**cause).clone()),
            ),
            StorageError::WriteFailure => StorageError::WriteFailure,
        }
    }
}

} // verus!
