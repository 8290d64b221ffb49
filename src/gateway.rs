use vstd::prelude::*;
use crate::error::{Error, IoKind};

verus! {

/// Outcome of reading the file at `path`: the path with its text, or the failure.
pub fn loaded(path: String, read: Result<String, IoKind>) -> (r: Result<(String, String), Error>)
    ensures
        read is Ok ==> r == Ok::<(String, String), Error>((path, read->Ok_0)),
        read is Err ==> r == Err::<(String, String), Error>(Error::IO(read->Err_0)),
{
    match read {
        Ok(text) => Ok((path, text)),
        Err(kind) => Err(Error::IO(kind)),
    }
}

/// The path picked in a file dialog; a dialog closed without a choice is an error.
pub fn chosen(choice: Option<String>) -> (r: Result<String, Error>)
    ensures
        choice is Some ==> r == Ok::<String, Error>(choice->Some_0),
        choice is None ==> r == Err::<String, Error>(Error::DialogClosed),
{
    match choice {
        Some(path) => Ok(path),
        None => Err(Error::DialogClosed),
    }
}

/// Outcome of writing the buffer to `path`: the path written, or the failure.
pub fn written(path: String, write: Result<(), IoKind>) -> (r: Result<String, Error>)
    ensures
        write is Ok ==> r == Ok::<String, Error>(path),
        write is Err ==> r == Err::<String, Error>(Error::IO(write->Err_0)),
{
    match write {
        Ok(()) => Ok(path),
        Err(kind) => Err(Error::IO(kind)),
    }
}

} // verus!
