use vstd::prelude::*;

verus! {

/// Why a load, a save or the resolution of the storage location failed. Each
/// kind carries a diagnostic text, the system's own where there is one.
#[derive(Debug)]
pub enum StorageError {
    /// The storage directory could not be created or reached.
    DirectoryUnavailable(String),
    /// Reading, writing or renaming failed in an accessible directory.
    IoFailure(String),
    /// The file exists but does not hold a todo list.
    CorruptData(String),
    /// The list could not be turned into text.
    EncodeFailure(String),
}

/// The words that open the message of each kind.
pub open spec fn kind_label(e: StorageError) -> Seq<char> {
    match e {
        StorageError::DirectoryUnavailable(_) => "directory unavailable: "@,
        StorageError::IoFailure(_) => "i/o failure: "@,
        StorageError::CorruptData(_) => "corrupt data: "@,
        StorageError::EncodeFailure(_) => "encode failure: "@,
    }
}

pub open spec fn diagnostic_of(e: StorageError) -> Seq<char> {
    match e {
        StorageError::DirectoryUnavailable(d) => d@,
        StorageError::IoFailure(d) => d@,
        StorageError::CorruptData(d) => d@,
        StorageError::EncodeFailure(d) => d@,
    }
}

impl StorageError {
    /// The single line shown to the user: the kind, then the diagnostic.
    pub fn message(&self) -> (r: String)
        ensures
            r@ == kind_label(*self) + diagnostic_of(*self),
    {
        let (label, diag) = match self {
            StorageError::DirectoryUnavailable(d) => ("directory unavailable: ", d),
            StorageError::IoFailure(d) => ("i/o failure: ", d),
            StorageError::CorruptData(d) => ("corrupt data: ", d),
            StorageError::EncodeFailure(d) => ("encode failure: ", d),
        };
        let mut r = label.to_owned();
        r.append(diag.as_str());
        r
    }
}

} // verus!
