use vstd::prelude::*;

verus! {

/// Errors of the versioned settings store.
#[derive(Debug)]
pub enum StoreError {
    /// The settings file could not be written.
    PersistError { reason: String },
    /// Cloning, staging or committing failed.
    VcsError { reason: String },
}

/// The step of a save that follows writing the settings file.
#[derive(Debug)]
pub enum SaveStep {
    /// Commit the working tree.
    Commit,
    /// The save fails with nothing committed.
    Fail(StoreError),
}

pub open spec fn after_write(written: Result<(), String>) -> SaveStep {
    match written {
        Ok(()) => SaveStep::Commit,
        Err(reason) => SaveStep::Fail(StoreError::PersistError { reason }),
    }
}

pub open spec fn after_commit(committed: Result<(), String>) -> Result<(), StoreError> {
    match committed {
        Ok(()) => Ok(()),
        Err(reason) => Err(StoreError::VcsError { reason }),
    }
}

/// A written file is committed next; a failed write ends the save.
pub fn on_write(written: Result<(), String>) -> (r: SaveStep)
    ensures
        r == after_write(written),
{
    match written {
        Ok(()) => SaveStep::Commit,
        Err(reason) => SaveStep::Fail(StoreError::PersistError { reason }),
    }
}

/// A failed commit is reported; the file that was written stays as it is.
pub fn on_commit(committed: Result<(), String>) -> (r: Result<(), StoreError>)
    ensures
        r == after_commit(committed),
{
    match committed {
        Ok(()) => Ok(()),
        Err(reason) => Err(StoreError::VcsError { reason }),
    }
}

/// A commit: the message and the content of the settings file that it records.
pub type CommitRecord = (Seq<char>, Seq<char>);

/// One save run by the steps above on a settings file holding `file` with
/// commit history `log`, where the write ends with `written` and the commit
/// with `committed`: the result, the file afterwards, and the history afterwards.
pub open spec fn save_run(
    file: Seq<char>,
    log: Seq<CommitRecord>,
    text: Seq<char>,
    message: Seq<char>,
    written: Result<(), String>,
    committed: Result<(), String>,
) -> (Result<(), StoreError>, Seq<char>, Seq<CommitRecord>) {
    match after_write(written) {
        SaveStep::Fail(e) => (Err(e), file, log),
        SaveStep::Commit => match after_commit(committed) {
            Ok(()) => (Ok(()), text, log.push((message, text))),
            Err(e) => (Err(e), text, log),
        },
    }
}

/// Two saves in sequence, each of which writes and commits, leave two new
/// commits, each recording the content that its save wrote, and the file holds
/// the second content; when the contents differ, so do the two commits.
pub proof fn law_two_saves_two_commits(
    file: Seq<char>,
    log: Seq<CommitRecord>,
    first: Seq<char>,
    first_message: Seq<char>,
    second: Seq<char>,
    second_message: Seq<char>,
)
    requires
        first != second,
    ensures
        ({
            let (r1, f1, l1) = save_run(file, log, first, first_message, Ok(()), Ok(()));
            let (r2, f2, l2) = save_run(f1, l1, second, second_message, Ok(()), Ok(()));
            &&& r1 is Ok && r2 is Ok
            &&& f1 == first && f2 == second
            &&& l2.len() == log.len() + 2
            &&& l2.take(log.len() as int) == log
            &&& l2[log.len() as int].1 == first
            &&& l2[log.len() + 1int].1 == second
            &&& l2[log.len() as int] != l2[log.len() + 1int]
        }),
{
    let l2 = log.push((first_message, first)).push((second_message, second));
    assert(l2.take(log.len() as int) =~= log);
}

/// A save whose commit fails leaves the written file ahead of the history.
pub proof fn law_failed_commit_keeps_file(
    file: Seq<char>,
    log: Seq<CommitRecord>,
    text: Seq<char>,
    message: Seq<char>,
    reason: String,
)
    ensures
        save_run(file, log, text, message, Ok(()), Err(reason)) == (
            Err::<(), StoreError>(StoreError::VcsError { reason }),
            text,
            log,
        ),
{
}

} // verus!
