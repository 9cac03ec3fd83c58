use vstd::prelude::*;
use crate::codec::{decode_list, decode_todos, encode_todos, encodes_list};
use crate::error::StorageError;
use crate::json::JsonValue;
use crate::todo::{Todo, list_view};

verus! {

/// The fixed name of the file that holds the list, inside the data directory.
pub const TODOS_FILE_NAME: &'static str = "todos.json";

/// What the caller found at the file's path when it went to read it.
pub enum FileRead {
    /// No file is there: nothing was ever saved.
    Missing,
    /// A file is there but could not be read; the system's diagnostic.
    Unreadable(String),
    /// The file's text is not well-formed JSON; the parser's diagnostic.
    Malformed(String),
    /// The file's text, parsed into a tree.
    Parsed(JsonValue),
}

/// What the creation of the data directory came to: `Err` names the
/// system's diagnostic.
pub fn resolve(created: Result<(), String>) -> (r: Result<(), StorageError>)
    ensures
        match created {
            Ok(()) => r is Ok,
            Err(d) => r == Err::<(), StorageError>(StorageError::DirectoryUnavailable(d)),
        },
{
    match created {
        Ok(()) => Ok(()),
        Err(d) => Err(StorageError::DirectoryUnavailable(d)),
    }
}

/// The list that a load returns, from what was found at the path. A missing
/// file is the empty list, not an error; a file that cannot be read is an
/// I/O failure; text that is not JSON, or JSON that is not a list of
/// records, is corrupt data.
pub fn load(found: FileRead) -> (r: Result<Vec<Todo>, StorageError>)
    ensures
        match found {
            FileRead::Missing => r is Ok && r->Ok_0@.len() == 0,
            FileRead::Unreadable(d) => r == Err::<Vec<Todo>, StorageError>(
                StorageError::IoFailure(d),
            ),
            FileRead::Malformed(d) => r == Err::<Vec<Todo>, StorageError>(
                StorageError::CorruptData(d),
            ),
            FileRead::Parsed(v) => match decode_list(v) {
                Some(l) => r is Ok && list_view(r->Ok_0@) == l,
                None => r is Err && r->Err_0 is CorruptData,
            },
        },
{
    match found {
        FileRead::Missing => Ok(Vec::new()),
        FileRead::Unreadable(d) => Err(StorageError::IoFailure(d)),
        FileRead::Malformed(d) => Err(StorageError::CorruptData(d)),
        FileRead::Parsed(v) => decode_todos(&v),
    }
}

/// The name of the sibling file that a save writes in full before it
/// replaces the real one.
pub fn temp_name_for(file_name: &str) -> (r: String)
    ensures
        r@ == file_name@ + ".tmp"@,
        r@ != file_name@,
{
    let mut r = file_name.to_owned();
    r.append(".tmp");
    proof {
        reveal_strlit(".tmp");
        assert(r@.len() == file_name@.len() + 4);
    }
    r
}

/// The document that a save writes: the list as a JSON array.
pub fn save_document(todos: &Vec<Todo>) -> (r: JsonValue)
    ensures
        encodes_list(list_view(todos@), r),
{
    encode_todos(todos)
}

/// Where a save stands. The real file is touched by one step only: the
/// replacement of it by the temporary file, which is taken only once the
/// temporary file has been written in full.
#[derive(Debug)]
pub enum SaveStage {
    /// The document's text is being written to the temporary file.
    WritingTemp,
    /// The temporary file is complete and is being renamed over the real one.
    Replacing,
    /// The real file now holds the new list.
    Saved,
    /// The save stopped; the real file is as it was before.
    Failed(StorageError),
}

/// The stage that follows `stage` once its step has come to `outcome` (`Err`
/// names the system's diagnostic). A failed step ends the save with an I/O
/// failure; a finished save stays finished.
pub fn next_stage(stage: SaveStage, outcome: Result<(), String>) -> (r: SaveStage)
    ensures
        r == next_stage_spec(stage, outcome),
{
    match stage {
        SaveStage::WritingTemp => match outcome {
            Ok(()) => SaveStage::Replacing,
            Err(d) => SaveStage::Failed(StorageError::IoFailure(d)),
        },
        SaveStage::Replacing => match outcome {
            Ok(()) => SaveStage::Saved,
            Err(d) => SaveStage::Failed(StorageError::IoFailure(d)),
        },
        SaveStage::Saved => SaveStage::Saved,
        SaveStage::Failed(e) => SaveStage::Failed(e),
    }
}

pub open spec fn next_stage_spec(stage: SaveStage, outcome: Result<(), String>) -> SaveStage {
    match stage {
        SaveStage::WritingTemp => match outcome {
            Ok(()) => SaveStage::Replacing,
            Err(d) => SaveStage::Failed(StorageError::IoFailure(d)),
        },
        SaveStage::Replacing => match outcome {
            Ok(()) => SaveStage::Saved,
            Err(d) => SaveStage::Failed(StorageError::IoFailure(d)),
        },
        SaveStage::Saved => SaveStage::Saved,
        SaveStage::Failed(e) => SaveStage::Failed(e),
    }
}

/// Whether, starting at `stage` and meeting `outcomes` one step after the
/// other, the save ever comes to replace the real file.
pub open spec fn ever_replaces(stage: SaveStage, outcomes: Seq<Result<(), String>>) -> bool
    decreases outcomes.len(),
{
    if stage is Replacing {
        true
    } else if outcomes.len() == 0 {
        false
    } else {
        ever_replaces(next_stage_spec(stage, outcomes[0]), outcomes.drop_first())
    }
}

/// A save whose write of the temporary file fails, whatever comes after,
/// never replaces the real file, which keeps its earlier contents or stays
/// absent; the save ends in an I/O failure.
pub proof fn lemma_failed_write_keeps_file(diag: String, rest: Seq<Result<(), String>>)
    ensures
        !ever_replaces(SaveStage::WritingTemp, seq![Err::<(), String>(diag)] + rest),
    decreases rest.len(),
{
    let failed = SaveStage::Failed(StorageError::IoFailure(diag));
    assert((seq![Err::<(), String>(diag)] + rest).drop_first() =~= rest);
    lemma_failed_stays(failed, rest);
}

proof fn lemma_failed_stays(stage: SaveStage, outcomes: Seq<Result<(), String>>)
    requires
        stage is Failed,
    ensures
        !ever_replaces(stage, outcomes),
    decreases outcomes.len(),
{
    if outcomes.len() > 0 {
        lemma_failed_stays(next_stage_spec(stage, outcomes[0]), outcomes.drop_first());
    }
}

/// What a save reports once it has ended: `Ok` only where the real file was
/// replaced.
pub fn save_result(stage: SaveStage) -> (r: Result<(), StorageError>)
    requires
        stage is Saved || stage is Failed,
    ensures
        match stage {
            SaveStage::Failed(e) => r == Err::<(), StorageError>(e),
            _ => r is Ok,
        },
{
    match stage {
        SaveStage::Failed(e) => Err(e),
        _ => Ok(()),
    }
}

} // verus!
