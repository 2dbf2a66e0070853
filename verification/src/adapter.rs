//! The requests that Turso makes of the adapter as a whole.

use vstd::prelude::*;

use crate::bridge::{Caller, Endpoint};
use crate::driver::Status;
use crate::error::Rejection;
use crate::filesystem::{FileId, FileState};

verus! {

#[verifier::external_type_specification]
#[verifier::external_body]
pub struct ExOpenFlags(turso::core::OpenFlags);

/// The flags ask for a file that is only read.
pub uninterp spec fn read_only_requested(flags: turso::core::OpenFlags) -> bool;

/// Tests Turso's open flags for `OpenFlags::ReadOnly`, with
/// `OpenFlags::contains`. Claimed of it: the result is a function of the flags.
#[verifier::external_body]
fn contains_read_only(flags: turso::core::OpenFlags) -> (read_only: bool)
    ensures
        read_only == read_only_requested(flags),
{
    flags.contains(turso::core::OpenFlags::ReadOnly)
}

/// Why a synchronous wait does not succeed. `E` is a completion's own error.
#[derive(Debug, PartialEq, Eq)]
pub enum WaitError<E> {
    /// The completion failed.
    Completion(E),
    /// The wait is refused.
    Rejected(Rejection),
}

/// The adapter of one connection.
pub struct CompioIo {
    /// The connection's identity.
    pub endpoint: Endpoint,
}

/// Which of the two files has a path: the database is looked at first.
pub open spec fn position(
    database: FileState,
    wal: FileState,
    path: Seq<char>,
) -> Option<usize> {
    if database.path@ == path {
        Some(0)
    } else if wal.path@ == path {
        Some(1)
    } else {
        None
    }
}

/// The result carries the refusal of a file that was not opened in advance.
pub open spec fn refuses_unknown<T>(result: Result<T, Rejection>, path: Seq<char>) -> bool {
    result matches Err(Rejection::UnknownFile { path: refused }) && refused@ == path
}

/// Every completion has a result or has failed.
pub open spec fn all_settled(statuses: Seq<Status>) -> bool {
    forall|i: int| 0 <= i < statuses.len() ==> (#[trigger] statuses[i]).settled()
}

impl CompioIo {
    /// Finds the file that was opened in advance under a path.
    pub fn file(
        &self,
        caller: &Caller,
        database: &FileState,
        wal: &FileState,
        path: &str,
    ) -> (result: Result<usize, Rejection>)
        ensures
            !self.endpoint.accepts(*caller) ==> result == Err::<usize, Rejection>(
                Rejection::ForeignContext,
            ),
            self.endpoint.accepts(*caller) ==> match position(*database, *wal, path@) {
                Some(index) => result == Ok::<usize, Rejection>(index),
                None => refuses_unknown(result, path@),
            },
    {
        match self.endpoint.check(caller) {
            Ok(()) => {},
            Err(rejection) => {
                return Err(rejection);
            },
        }
        let wanted = path.to_owned();
        if database.path == wanted {
            Ok(0)
        } else if wal.path == wanted {
            Ok(1)
        } else {
            Err(Rejection::UnknownFile { path: wanted })
        }
    }

    /// Opens a file, given whether it is only to be read: hands out one that
    /// was opened in advance for reading and writing.
    pub fn open_preopened(
        &self,
        caller: &Caller,
        database: &FileState,
        wal: &FileState,
        path: &str,
        read_only: bool,
    ) -> (result: Result<usize, Rejection>)
        ensures
            read_only ==> result == Err::<usize, Rejection>(Rejection::ReadOnlyOpen),
            !read_only && !self.endpoint.accepts(*caller) ==> result == Err::<usize, Rejection>(
                Rejection::ForeignContext,
            ),
            !read_only && self.endpoint.accepts(*caller) ==> match position(
                *database,
                *wal,
                path@,
            ) {
                Some(index) => result == Ok::<usize, Rejection>(index),
                None => refuses_unknown(result, path@),
            },
    {
        if read_only {
            return Err(Rejection::ReadOnlyOpen);
        }
        self.file(caller, database, wal, path)
    }

    /// Opens a file with Turso's flags: hands out one that was opened in
    /// advance for reading and writing.
    pub fn open_file(
        &self,
        caller: &Caller,
        database: &FileState,
        wal: &FileState,
        path: &str,
        flags: turso::core::OpenFlags,
    ) -> (result: Result<usize, Rejection>)
        ensures
            read_only_requested(flags) ==> result == Err::<usize, Rejection>(
                Rejection::ReadOnlyOpen,
            ),
            !read_only_requested(flags) && !self.endpoint.accepts(*caller) ==> result == Err::<
                usize,
                Rejection,
            >(Rejection::ForeignContext),
            !read_only_requested(flags) && self.endpoint.accepts(*caller) ==> match position(
                *database,
                *wal,
                path@,
            ) {
                Some(index) => result == Ok::<usize, Rejection>(index),
                None => refuses_unknown(result, path@),
            },
    {
        let read_only = contains_read_only(flags);
        self.open_preopened(caller, database, wal, path, read_only)
    }

    /// Which file a path leads to, among those opened in advance.
    pub fn file_id(
        &self,
        caller: &Caller,
        database: &FileState,
        wal: &FileState,
        path: &str,
    ) -> (result: Result<FileId, Rejection>)
        ensures
            !self.endpoint.accepts(*caller) ==> result == Err::<FileId, Rejection>(
                Rejection::ForeignContext,
            ),
            self.endpoint.accepts(*caller) ==> match position(*database, *wal, path@) {
                Some(index) => result == Ok::<FileId, Rejection>(
                    if index == 0 {
                        database.id
                    } else {
                        wal.id
                    },
                ),
                None => refuses_unknown(result, path@),
            },
    {
        match self.file(caller, database, wal, path) {
            Ok(index) => if index == 0 {
                Ok(database.id)
            } else {
                Ok(wal.id)
            },
            Err(rejection) => Err(rejection),
        }
    }

    /// Refuses to open the WAL for shared coordination.
    pub fn open_shared_wal_file(&self, caller: &Caller) -> (result: Result<usize, Rejection>)
        ensures
            result == if self.endpoint.accepts(*caller) {
                Err::<usize, Rejection>(Rejection::SharedWal)
            } else {
                Err(Rejection::ForeignContext)
            },
    {
        match self.endpoint.check(caller) {
            Ok(()) => Err(Rejection::SharedWal),
            Err(rejection) => Err(rejection),
        }
    }

    /// Whether the WAL can be coordinated between processes: it cannot.
    pub fn supports_shared_wal_coordination(&self) -> (supported: bool)
        ensures
            supported == false,
    {
        false
    }

    /// Refuses to remove a file.
    pub fn remove_file(&self, caller: &Caller) -> (result: Result<(), Rejection>)
        ensures
            result == if self.endpoint.accepts(*caller) {
                Err::<(), Rejection>(Rejection::RemoveFile)
            } else {
                Err(Rejection::ForeignContext)
            },
    {
        match self.endpoint.check(caller) {
            Ok(()) => Err(Rejection::RemoveFile),
            Err(rejection) => Err(rejection),
        }
    }

    /// Does nothing for an accepted caller: the runtime drives the operations.
    pub fn step(&self, caller: &Caller) -> (result: Result<(), Rejection>)
        ensures
            self.endpoint.accepts(*caller) ==> result == Ok::<(), Rejection>(()),
            !self.endpoint.accepts(*caller) ==> result == Err::<(), Rejection>(
                Rejection::ForeignContext,
            ),
    {
        self.endpoint.check(caller)
    }

    /// Says which completions a cancellation aborts: those that have no result
    /// yet, in the order in which they were given.
    pub fn cancel(&self, caller: &Caller, statuses: &Vec<Status>) -> (result: Result<
        Vec<usize>,
        Rejection,
    >)
        ensures
            !self.endpoint.accepts(*caller) ==> result == Err::<Vec<usize>, Rejection>(
                Rejection::ForeignContext,
            ),
            self.endpoint.accepts(*caller) ==> {
                &&& result matches Ok(aborted)
                &&& forall|i: int, j: int|
                    0 <= i < j < aborted@.len() ==> aborted@[i] < aborted@[j]
                &&& forall|i: usize| #[trigger]
                    aborted@.contains(i) <==> i < statuses@.len() && !statuses@[i as int].finished
            },
    {
        match self.endpoint.check(caller) {
            Ok(()) => {},
            Err(rejection) => {
                return Err(rejection);
            },
        }
        let mut aborted: Vec<usize> = Vec::new();
        let mut index: usize = 0;
        while index < statuses.len()
            invariant
                index <= statuses@.len(),
                self.endpoint.accepts(*caller),
                forall|i: int, j: int| 0 <= i < j < aborted@.len() ==> aborted@[i] < aborted@[j],
                forall|i: int| 0 <= i < aborted@.len() ==> aborted@[i] < index,
                forall|i: usize| #[trigger]
                    aborted@.contains(i) <==> i < index && !statuses@[i as int].finished,
            decreases statuses@.len() - index,
        {
            if statuses[index].needs_abort() {
                let ghost before = aborted@;
                aborted.push(index);
                assert forall|i: usize| #[trigger] aborted@.contains(i) <==> i < index + 1
                    && !statuses@[i as int].finished by {
                    if before.contains(i) {
                        let k = choose|k: int| 0 <= k < before.len() && before[k] == i;
                        assert(aborted@[k] == i);
                    }
                    if i == index {
                        assert(aborted@[before.len() as int] == i);
                    }
                    if aborted@.contains(i) && i != index {
                        let k = choose|k: int| 0 <= k < aborted@.len() && aborted@[k] == i;
                        assert(before[k] == i);
                    }
                }
            }
            index = index + 1;
        }
        Ok(aborted)
    }

    /// Accepts that every completion is settled, and refuses to wait for one
    /// that is not.
    pub fn drain_completions(&self, caller: &Caller, statuses: &Vec<Status>) -> (result: Result<
        (),
        Rejection,
    >)
        ensures
            !self.endpoint.accepts(*caller) ==> result == Err::<(), Rejection>(
                Rejection::ForeignContext,
            ),
            self.endpoint.accepts(*caller) ==> result == if forall|i: int|
                0 <= i < statuses@.len() ==> (#[trigger] statuses@[i]).settled() {
                Ok::<(), Rejection>(())
            } else {
                Err(Rejection::SynchronousDrain)
            },
            self.endpoint.accepts(*caller) ==> (result is Ok <==> all_settled(statuses@)),
    {
        match self.endpoint.check(caller) {
            Ok(()) => {},
            Err(rejection) => {
                return Err(rejection);
            },
        }
        let mut index: usize = 0;
        while index < statuses.len()
            invariant
                index <= statuses@.len(),
                self.endpoint.accepts(*caller),
                forall|i: int| 0 <= i < index ==> (#[trigger] statuses@[i]).settled(),
            decreases statuses@.len() - index,
        {
            if !statuses[index].is_settled() {
                assert(!statuses@[index as int].settled());
                return Err(Rejection::SynchronousDrain);
            }
            index = index + 1;
        }
        Ok(())
    }

    /// Reports the outcome of a completion, and refuses to wait for one that
    /// is pending.
    pub fn wait_for_completion<E>(
        &self,
        caller: &Caller,
        error: Option<E>,
        finished: bool,
    ) -> (result: Result<(), WaitError<E>>)
        ensures
            result == if !self.endpoint.accepts(*caller) {
                Err::<(), WaitError<E>>(WaitError::Rejected(Rejection::ForeignContext))
            } else {
                match error {
                    Some(error) => Err(WaitError::Completion(error)),
                    None => if finished {
                        Ok(())
                    } else {
                        Err(WaitError::Rejected(Rejection::SynchronousWait))
                    },
                }
            },
    {
        match self.endpoint.check(caller) {
            Ok(()) => {},
            Err(rejection) => {
                return Err(WaitError::Rejected(rejection));
            },
        }
        match error {
            Some(error) => Err(WaitError::Completion(error)),
            None => if finished {
                Ok(())
            } else {
                Err(WaitError::Rejected(Rejection::SynchronousWait))
            },
        }
    }
}

/// A path leads to the database where it is the database's, else to the WAL
/// where it is the WAL's, else nowhere.
pub proof fn law_path_leads_to_its_file(database: FileState, wal: FileState, path: Seq<char>)
    ensures
        position(database, wal, path) == Some(0usize) <==> path == database.path@,
        position(database, wal, path) == Some(1usize) <==> path == wal.path@ && path
            != database.path@,
        position(database, wal, path) is None <==> path != database.path@ && path != wal.path@,
{
}

/// The refusal of an unknown file is a refusal, for that reason, and carries the
/// path that was asked for.
pub proof fn law_unknown_file_is_named<T>(result: Result<T, Rejection>, path: Seq<char>)
    ensures
        refuses_unknown(result, path) <==> match result {
            Err(Rejection::UnknownFile { path: named }) => named@ == path,
            _ => false,
        },
{
}

} // verus!
