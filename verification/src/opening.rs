//! How the two files of a database are opened.
//!
//! Nothing is touched before the request is known to be sound. The database is
//! locked before its WAL is opened, so a second opener can change neither. The
//! files and their directory entries are durable before Turso sees them.

use vstd::prelude::*;

use crate::error::OpenError;
use crate::filesystem::{FileId, FileState};
use crate::native::Platform;
use crate::options::Options;

verus! {

/// The last component of a path, where it is a normal one.
pub uninterp spec fn path_file_name(path: Seq<char>) -> Option<Seq<char>>;

/// A path without its last component.
pub uninterp spec fn path_parent(path: Seq<char>) -> Option<Seq<char>>;

/// An optional text by its characters.
pub open spec fn characters(text: Option<String>) -> Option<Seq<char>> {
    match text {
        Some(text) => Some(text@),
        None => None,
    }
}

/// The last component of a path, by `std::path::Path::file_name`. Claimed of
/// it: the result is a function of the path's characters.
#[verifier::external_body]
fn file_name(path: &str) -> (name: Option<String>)
    ensures
        characters(name) == path_file_name(path@),
{
    std::path::Path::new(path).file_name().and_then(|name| name.to_str()).map(|name| name.to_owned())
}

/// A path without its last component, by `std::path::Path::parent`. Claimed of
/// it: the result is a function of the path's characters.
#[verifier::external_body]
fn parent(path: &str) -> (directory: Option<String>)
    ensures
        characters(directory) == path_parent(path@),
{
    std::path::Path::new(path).parent().and_then(|path| path.to_str()).map(|path| path.to_owned())
}

/// The paths that opening a database involves.
pub struct OpenPlan {
    /// The database.
    pub database: String,
    /// Its WAL.
    pub wal: String,
    /// The directory that holds both.
    pub parent: String,
}

/// The directory to open, given what is left of the path without its last
/// component.
pub open spec fn directory(parent: Option<Seq<char>>) -> Seq<char> {
    match parent {
        Some(parent) => if parent.len() == 0 {
            "."@
        } else {
            parent
        },
        None => "."@,
    }
}

/// Plans how to open a path, given its last component and what is left without
/// it. A path without a normal last component does not lead to a file.
pub fn plan_open(path: &str, file_name: Option<String>, parent: Option<String>) -> (result: Result<
    OpenPlan,
    OpenError,
>)
    ensures
        path@.len() == 0 || file_name is None ==> result == Err::<OpenPlan, OpenError>(
            OpenError::NoFileName,
        ),
        path@.len() > 0 && file_name is Some ==> {
            &&& result matches Ok(plan)
            &&& plan.database@ == path@
            &&& plan.wal@ == path@ + "-wal"@
            &&& plan.parent@ == directory(characters(parent))
        },
{
    if path.is_empty() || file_name.is_none() {
        return Err(OpenError::NoFileName);
    }
    let mut wal = path.to_owned();
    wal.append("-wal");
    let parent = match parent {
        Some(parent) => if parent.as_str().is_empty() {
            ".".to_owned()
        } else {
            parent
        },
        None => ".".to_owned(),
    };
    Ok(OpenPlan { database: path.to_owned(), wal, parent })
}

/// What is to be done next. `Attach` comes last: the files are handed to Turso.
#[derive(Clone, Copy, Debug, PartialEq, Eq, Structural)]
pub enum OpenStep {
    /// Open the directory that holds the files.
    OpenParent,
    /// Open or create the database, not following a symbolic link.
    OpenDatabase,
    /// Lock the database exclusively.
    LockDatabase,
    /// Read the metadata of the database.
    StatDatabase,
    /// Open or create the WAL, not following a symbolic link.
    OpenWal,
    /// Lock the WAL exclusively.
    LockWal,
    /// Read the metadata of the WAL.
    StatWal,
    /// Make the database durable.
    SyncDatabase,
    /// Make the WAL durable.
    SyncWal,
    /// Make the directory entries durable.
    SyncParent,
    /// Close the directory.
    CloseParent,
    /// Start the driver, hand both files to Turso and connect to the database.
    Attach,
}

impl OpenStep {
    /// How many steps come before this one.
    pub open spec fn rank(self) -> int {
        match self {
            OpenStep::OpenParent => 0,
            OpenStep::OpenDatabase => 1,
            OpenStep::LockDatabase => 2,
            OpenStep::StatDatabase => 3,
            OpenStep::OpenWal => 4,
            OpenStep::LockWal => 5,
            OpenStep::StatWal => 6,
            OpenStep::SyncDatabase => 7,
            OpenStep::SyncWal => 8,
            OpenStep::SyncParent => 9,
            OpenStep::CloseParent => 10,
            OpenStep::Attach => 11,
        }
    }
}

/// What the metadata of an open file says.
#[derive(Clone, Copy, Debug, PartialEq, Eq, Structural)]
pub struct Metadata {
    /// It is a regular file.
    pub is_file: bool,
    /// The file itself.
    pub id: FileId,
    /// Its length.
    pub size: u64,
}

/// A database that is being opened.
pub struct Opening {
    /// The paths involved.
    pub plan: OpenPlan,
    /// The limits of the connection.
    pub options: Options,
    /// The descriptor of the runtime around the call.
    pub runtime_fd: i32,
    /// What is to be done next.
    pub step: OpenStep,
    /// What is known of the database.
    pub database: Option<FileState>,
    /// What is known of the WAL.
    pub wal: Option<FileState>,
}

/// Why a request to open a database is refused before anything is touched, if
/// it is.
pub open spec fn open_refusal(
    platform: Platform,
    options: Options,
    runtime_fd: Option<i32>,
    path: Option<&str>,
) -> Option<OpenError> {
    if !options.nonzero() {
        Some(OpenError::ZeroLimit)
    } else if platform == Platform::Other {
        Some(OpenError::UnsupportedPlatform)
    } else if runtime_fd is None {
        Some(OpenError::NoRuntime)
    } else {
        match path {
            None => Some(OpenError::NotUtf8),
            Some(path) => if path@.len() == 0 || path_file_name(path@) is None {
                Some(OpenError::NoFileName)
            } else {
                None
            },
        }
    }
}

/// The result answers a request to open a database: it says why the request is
/// refused, or hands out an opening of which nothing is done yet.
pub open spec fn answers_request(
    result: Result<Opening, OpenError>,
    platform: Platform,
    options: Options,
    runtime_fd: Option<i32>,
    path: Option<&str>,
) -> bool {
    match open_refusal(platform, options, runtime_fd, path) {
        Some(error) => result == Err::<Opening, OpenError>(error),
        None => {
            &&& result matches Ok(opening)
            &&& opening.valid()
            &&& opening.step == OpenStep::OpenParent
            &&& opening.options == options
            &&& Some(opening.runtime_fd) == runtime_fd
            &&& opening.plan.database@ == path->0@
            &&& opening.plan.wal@ == path->0@ + "-wal"@
            &&& opening.plan.parent@ == directory(path_parent(path->0@))
        },
    }
}

/// A file is known to be a regular one under this path.
pub open spec fn known(state: Option<FileState>, path: String) -> bool {
    &&& state matches Some(state)
    &&& state.path@ == path@
}

impl Opening {
    /// What has been found out is what the steps so far reveal.
    pub open spec fn valid(self) -> bool {
        &&& self.step.rank() <= OpenStep::StatDatabase.rank() ==> self.database is None
        &&& self.step.rank() > OpenStep::StatDatabase.rank() ==> known(
            self.database,
            self.plan.database,
        )
        &&& self.step.rank() <= OpenStep::StatWal.rank() ==> self.wal is None
        &&& self.step.rank() > OpenStep::StatWal.rank() ==> {
            &&& known(self.wal, self.plan.wal)
            &&& self.database->0.id != self.wal->0.id
        }
    }

    /// The path whose metadata the current step reads.
    pub open spec fn inspected(self) -> Option<Seq<char>> {
        match self.step {
            OpenStep::StatDatabase => Some(self.plan.database@),
            OpenStep::StatWal => Some(self.plan.wal@),
            _ => None,
        }
    }

    /// The metadata that the current step read shows something other than a
    /// regular file.
    pub open spec fn irregular(self, metadata: Metadata) -> bool {
        self.inspected() is Some && !metadata.is_file
    }

    /// The metadata shows the database and the WAL to be one file.
    pub open spec fn collides(self, metadata: Metadata) -> bool {
        &&& self.step == OpenStep::StatWal
        &&& self.database matches Some(database)
        &&& database.id == metadata.id
    }

    /// What the database is known to be after the current step.
    pub open spec fn database_known(self, metadata: Metadata, next: Opening) -> bool {
        if self.step == OpenStep::StatDatabase {
            &&& known(next.database, self.plan.database)
            &&& next.database->0.id == metadata.id
            &&& next.database->0.size == metadata.size
        } else {
            next.database == self.database
        }
    }

    /// What the WAL is known to be after the current step.
    pub open spec fn wal_known(self, metadata: Metadata, next: Opening) -> bool {
        if self.step == OpenStep::StatWal {
            &&& known(next.wal, self.plan.wal)
            &&& next.wal->0.id == metadata.id
            &&& next.wal->0.size == metadata.size
        } else {
            next.wal == self.wal
        }
    }

    /// Success of the current step leads there: to the next step, unless the
    /// metadata that it read is not acceptable.
    pub open spec fn leads_to(self, metadata: Metadata, next: Opening) -> bool {
        if self.irregular(metadata) || self.collides(metadata) {
            next == self
        } else {
            &&& next.valid()
            &&& next.plan == self.plan
            &&& next.options == self.options
            &&& next.runtime_fd == self.runtime_fd
            &&& next.step.rank() == self.step.rank() + 1
            &&& self.database_known(metadata, next)
            &&& self.wal_known(metadata, next)
        }
    }

    /// Accepts a request to open a database, or says why not. `path` is `None`
    /// where the path is not UTF-8, `runtime_fd` where there is no runtime.
    pub fn request(
        platform: Platform,
        options: Options,
        runtime_fd: Option<i32>,
        path: Option<&str>,
    ) -> (result: Result<Opening, OpenError>)
        ensures
            answers_request(result, platform, options, runtime_fd, path),
    {
        match options.validate() {
            Ok(()) => {},
            Err(error) => {
                return Err(error);
            },
        }
        if platform == Platform::Other {
            return Err(OpenError::UnsupportedPlatform);
        }
        let runtime_fd: i32 = match runtime_fd {
            Some(runtime_fd) => runtime_fd,
            None => {
                return Err(OpenError::NoRuntime);
            },
        };
        let path = match path {
            Some(path) => path,
            None => {
                return Err(OpenError::NotUtf8);
            },
        };
        match plan_open(path, file_name(path), parent(path)) {
            Ok(plan) => Ok(
                Opening {
                    plan,
                    options,
                    runtime_fd,
                    step: OpenStep::OpenParent,
                    database: None,
                    wal: None,
                },
            ),
            Err(error) => Err(error),
        }
    }

    /// Accepts a request to open a database without worker threads, given what
    /// the check for native operations came to. Where the check failed, its
    /// error is the answer, whatever else is wrong with the request, and there
    /// is no opening whose steps could touch a file.
    pub fn request_strict(
        native: Result<(), OpenError>,
        platform: Platform,
        options: Options,
        runtime_fd: Option<i32>,
        path: Option<&str>,
    ) -> (result: Result<Opening, OpenError>)
        ensures
            native matches Err(error) ==> result == Err::<Opening, OpenError>(error),
            native is Ok ==> answers_request(result, platform, options, runtime_fd, path),
    {
        match native {
            Ok(()) => Opening::request(platform, options, runtime_fd, path),
            Err(error) => Err(error),
        }
    }

    /// Takes in that the current step succeeded, and goes on to the next one.
    /// The metadata counts where the step reads it: both files have to be
    /// regular and distinct.
    pub fn advance(&mut self, metadata: Metadata) -> (result: Result<OpenStep, OpenError>)
        requires
            old(self).valid(),
            old(self).step != OpenStep::Attach,
        ensures
            final(self).valid(),
            old(self).leads_to(metadata, *final(self)),
            old(self).irregular(metadata) ==> {
                &&& result matches Err(OpenError::NotRegular { path })
                &&& Some(path@) == old(self).inspected()
            },
            !old(self).irregular(metadata) && old(self).collides(metadata) ==> result == Err::<
                OpenStep,
                OpenError,
            >(OpenError::SameFile),
            !old(self).irregular(metadata) && !old(self).collides(metadata) ==> result == Ok::<
                OpenStep,
                OpenError,
            >(final(self).step),
    {
        let next = match self.step {
            OpenStep::OpenParent => OpenStep::OpenDatabase,
            OpenStep::OpenDatabase => OpenStep::LockDatabase,
            OpenStep::LockDatabase => OpenStep::StatDatabase,
            OpenStep::StatDatabase => {
                if !metadata.is_file {
                    return Err(OpenError::NotRegular { path: self.plan.database.clone() });
                }
                self.database = Some(
                    FileState {
                        path: self.plan.database.clone(),
                        id: metadata.id,
                        size: metadata.size,
                    },
                );
                OpenStep::OpenWal
            },
            OpenStep::OpenWal => OpenStep::LockWal,
            OpenStep::LockWal => OpenStep::StatWal,
            OpenStep::StatWal => {
                if !metadata.is_file {
                    return Err(OpenError::NotRegular { path: self.plan.wal.clone() });
                }
                let same = match &self.database {
                    Some(database) => database.id == metadata.id,
                    None => false,
                };
                if same {
                    return Err(OpenError::SameFile);
                }
                self.wal = Some(
                    FileState {
                        path: self.plan.wal.clone(),
                        id: metadata.id,
                        size: metadata.size,
                    },
                );
                OpenStep::SyncDatabase
            },
            OpenStep::SyncDatabase => OpenStep::SyncWal,
            OpenStep::SyncWal => OpenStep::SyncParent,
            OpenStep::SyncParent => OpenStep::CloseParent,
            OpenStep::CloseParent => OpenStep::Attach,
            OpenStep::Attach => OpenStep::Attach,
        };
        self.step = next;
        Ok(next)
    }

    /// What a failure of the current step is reported as, where it is not left
    /// to speak for itself. Of attaching, the text belongs to connecting alone:
    /// a database that Turso fails to build speaks for itself.
    pub open spec fn context_text(self) -> Option<Seq<char>> {
        match self.step {
            OpenStep::OpenParent => Some("opening existing Turso parent directory"@),
            OpenStep::OpenDatabase => Some("opening Turso file "@ + self.plan.database@),
            OpenStep::LockDatabase => Some("acquiring exclusive Turso file lock"@),
            OpenStep::StatDatabase => None,
            OpenStep::OpenWal => Some("opening Turso file "@ + self.plan.wal@),
            OpenStep::LockWal => Some("acquiring exclusive Turso file lock"@),
            OpenStep::StatWal => None,
            OpenStep::SyncDatabase => Some("syncing Turso database creation"@),
            OpenStep::SyncWal => Some("syncing Turso WAL creation"@),
            OpenStep::SyncParent => Some("syncing Turso directory entries"@),
            OpenStep::CloseParent => None,
            OpenStep::Attach => Some("connecting to the Turso database"@),
        }
    }

    /// What a failure of the current step is reported as, where it is not left
    /// to speak for itself. Of attaching, the text belongs to connecting alone:
    /// a database that Turso fails to build speaks for itself.
    pub fn context(&self) -> (context: Option<String>)
        ensures
            characters(context) == self.context_text(),
    {
        match self.step {
            OpenStep::OpenParent => Some("opening existing Turso parent directory".to_owned()),
            OpenStep::OpenDatabase => {
                let mut context = "opening Turso file ".to_owned();
                context.append(self.plan.database.as_str());
                Some(context)
            },
            OpenStep::LockDatabase => Some("acquiring exclusive Turso file lock".to_owned()),
            OpenStep::StatDatabase => None,
            OpenStep::OpenWal => {
                let mut context = "opening Turso file ".to_owned();
                context.append(self.plan.wal.as_str());
                Some(context)
            },
            OpenStep::LockWal => Some("acquiring exclusive Turso file lock".to_owned()),
            OpenStep::StatWal => None,
            OpenStep::SyncDatabase => Some("syncing Turso database creation".to_owned()),
            OpenStep::SyncWal => Some("syncing Turso WAL creation".to_owned()),
            OpenStep::SyncParent => Some("syncing Turso directory entries".to_owned()),
            OpenStep::CloseParent => None,
            OpenStep::Attach => Some("connecting to the Turso database".to_owned()),
        }
    }

    /// Hands out what is known of the database and of the WAL.
    pub fn finish(self) -> (files: (FileState, FileState))
        requires
            self.valid(),
            self.step == OpenStep::Attach,
        ensures
            Some(files.0) == self.database,
            Some(files.1) == self.wal,
            files.0.path@ == self.plan.database@,
            files.1.path@ == self.plan.wal@,
            files.0.id != files.1.id,
    {
        (self.database.unwrap(), self.wal.unwrap())
    }
}

/// A database that was opened up to some point: each opening but the last was
/// at a step that succeeded, with the metadata that goes with it.
pub open spec fn opened(openings: Seq<Opening>, metadata: Seq<Metadata>) -> bool {
    &&& openings.len() == metadata.len() + 1
    &&& openings[0].valid()
    &&& openings[0].step == OpenStep::OpenParent
    &&& forall|i: int| #![trigger metadata[i]]
        0 <= i < metadata.len() ==> {
            &&& openings[i].step != OpenStep::Attach
            &&& !openings[i].irregular(metadata[i])
            &&& !openings[i].collides(metadata[i])
            &&& openings[i].leads_to(metadata[i], openings[i + 1])
        }
}

/// The steps are taken one after the other, each of them once and none left
/// out: the step at each point is the one with that many steps before it.
pub proof fn law_steps_in_order(openings: Seq<Opening>, metadata: Seq<Metadata>, index: int)
    requires
        opened(openings, metadata),
        0 <= index < openings.len(),
    ensures
        openings[index].valid(),
        openings[index].step.rank() == index,
        openings[index].plan == openings[0].plan,
    decreases index,
{
    if index > 0 {
        law_steps_in_order(openings, metadata, index - 1);
        assert(openings[index - 1].leads_to(metadata[index - 1], openings[index]));
    }
}

/// The WAL is not touched before the database is locked, and Turso is given
/// neither file before both are locked and known to be distinct regular files,
/// and they and their directory entries are durable.
pub proof fn law_locked_and_durable_before_use(openings: Seq<Opening>, metadata: Seq<Metadata>)
    requires
        opened(openings, metadata),
    ensures
        openings.last().step.rank() >= OpenStep::OpenWal.rank() ==> openings[2].step
            == OpenStep::LockDatabase && openings.len() > 3,
        openings.last().step == OpenStep::Attach ==> {
            &&& openings.len() == 12
            &&& openings[2].step == OpenStep::LockDatabase
            &&& openings[3].step == OpenStep::StatDatabase && metadata[3].is_file
            &&& openings[5].step == OpenStep::LockWal
            &&& openings[6].step == OpenStep::StatWal && metadata[6].is_file
            &&& metadata[3].id != metadata[6].id
            &&& openings[7].step == OpenStep::SyncDatabase
            &&& openings[8].step == OpenStep::SyncWal
            &&& openings[9].step == OpenStep::SyncParent
        },
{
    let last = openings.len() - 1;
    law_steps_in_order(openings, metadata, last);
    if last >= 2 {
        law_steps_in_order(openings, metadata, 2);
    }
    if openings[last].step == OpenStep::Attach {
        assert forall|i: int| 0 <= i < 12 implies (#[trigger] openings[i]).step.rank() == i by {
            law_steps_in_order(openings, metadata, i);
        }
        assert(openings[3].leads_to(metadata[3], openings[4]));
        assert(openings[4].leads_to(metadata[4], openings[5]));
        assert(openings[5].leads_to(metadata[5], openings[6]));
        assert(!openings[6].collides(metadata[6]));
    }
}

/// Every opening ends: no more steps can succeed than there are.
pub proof fn law_opening_ends(openings: Seq<Opening>, metadata: Seq<Metadata>)
    requires
        opened(openings, metadata),
    ensures
        metadata.len() <= OpenStep::Attach.rank(),
{
    law_steps_in_order(openings, metadata, openings.len() - 1);
}

/// When a request to open a database is refused, and why, in the order in which
/// the reasons are looked at.
pub proof fn law_when_requests_are_refused(
    platform: Platform,
    options: Options,
    runtime_fd: Option<i32>,
    path: Option<&str>,
)
    ensures
        ({
            let refusal = open_refusal(platform, options, runtime_fd, path);
            let limited = options.max_outstanding_operations != Some(0usize)
                && options.max_retained_bytes != Some(0usize);
            let known_platform = platform is Linux || platform is MacOs;
            let named = path matches Some(path) && path@.len() > 0 && path_file_name(path@) is Some;
            &&& refusal is None <==> limited && known_platform && runtime_fd is Some && named
            &&& refusal == Some(OpenError::ZeroLimit) <==> !limited
            &&& refusal == Some(OpenError::UnsupportedPlatform) <==> limited && !known_platform
            &&& refusal == Some(OpenError::NoRuntime) <==> limited && known_platform
                && runtime_fd is None
            &&& refusal == Some(OpenError::NotUtf8) <==> limited && known_platform
                && runtime_fd is Some && path is None
            &&& refusal == Some(OpenError::NoFileName) <==> limited && known_platform
                && runtime_fd is Some && path is Some && !named
        }),
{
}

/// What a request that is not refused leads to: an opening of the path that was
/// given, whose WAL has the same path with `-wal` behind it, with the limits and
/// the runtime of the request, of which nothing is done yet.
pub proof fn law_accepted_request_is_planned(
    result: Result<Opening, OpenError>,
    platform: Platform,
    options: Options,
    runtime_fd: Option<i32>,
    path: Option<&str>,
)
    requires
        answers_request(result, platform, options, runtime_fd, path),
    ensures
        result matches Err(error) ==> open_refusal(platform, options, runtime_fd, path) == Some(
            error,
        ),
        result is Ok <==> open_refusal(platform, options, runtime_fd, path) is None,
        result matches Ok(opening) ==> {
            &&& path matches Some(path)
            &&& opening.plan.database@ == path@
            &&& opening.plan.wal@.len() == path@.len() + 4
            &&& opening.plan.wal@.take(path@.len() as int) == path@
            &&& opening.plan.wal@.skip(path@.len() as int) == seq!['-', 'w', 'a', 'l']
            &&& opening.options == options
            &&& runtime_fd == Some(opening.runtime_fd)
            &&& opening.step is OpenParent
            &&& opening.database is None
            &&& opening.wal is None
            &&& match path_parent(path@) {
                Some(parent) => if parent.len() > 0 {
                    opening.plan.parent@ == parent
                } else {
                    opening.plan.parent@ == seq!['.']
                },
                None => opening.plan.parent@ == seq!['.'],
            }
        },
{
    reveal_strlit("-wal");
    reveal_strlit(".");
    match result {
        Ok(opening) => {
            let path = path->0;
            assert(opening.plan.wal@.take(path@.len() as int) =~= path@);
            assert(opening.plan.wal@.skip(path@.len() as int) =~= seq!['-', 'w', 'a', 'l']);
            assert("."@ =~= seq!['.']);
        },
        Err(_) => {},
    }
}

/// The step that comes after a step.
pub open spec fn step_after(step: OpenStep) -> OpenStep {
    match step {
        OpenStep::OpenParent => OpenStep::OpenDatabase,
        OpenStep::OpenDatabase => OpenStep::LockDatabase,
        OpenStep::LockDatabase => OpenStep::StatDatabase,
        OpenStep::StatDatabase => OpenStep::OpenWal,
        OpenStep::OpenWal => OpenStep::LockWal,
        OpenStep::LockWal => OpenStep::StatWal,
        OpenStep::StatWal => OpenStep::SyncDatabase,
        OpenStep::SyncDatabase => OpenStep::SyncWal,
        OpenStep::SyncWal => OpenStep::SyncParent,
        OpenStep::SyncParent => OpenStep::CloseParent,
        OpenStep::CloseParent => OpenStep::Attach,
        OpenStep::Attach => OpenStep::Attach,
    }
}

/// What success of a step leads to. The metadata counts at the two steps that
/// read it: something other than a regular file stops the opening where it is,
/// and so does a WAL that is the database. Otherwise the next step is taken, and
/// what was read is kept under the path of the file.
pub proof fn law_success_of_a_step(opening: Opening, metadata: Metadata, next: Opening)
    requires
        opening.valid(),
        !(opening.step is Attach),
        opening.leads_to(metadata, next),
    ensures
        opening.irregular(metadata) <==> (opening.step is StatDatabase || opening.step is StatWal)
            && !metadata.is_file,
        opening.collides(metadata) <==> opening.step is StatWal && opening.database->0.id
            == metadata.id,
        ({
            let reads = opening.step is StatDatabase || opening.step is StatWal;
            let stopped = (reads && !metadata.is_file) || (opening.step is StatWal
                && opening.database->0.id == metadata.id);
            if stopped {
                next == opening
            } else {
                &&& next.step == step_after(opening.step)
                &&& next.plan == opening.plan
                &&& next.options == opening.options
                &&& next.runtime_fd == opening.runtime_fd
                &&& opening.step is StatDatabase ==> {
                    &&& next.database matches Some(database)
                    &&& database.path@ == opening.plan.database@
                    &&& database.id == metadata.id
                    &&& database.size == metadata.size
                }
                &&& !(opening.step is StatDatabase) ==> next.database == opening.database
                &&& opening.step is StatWal ==> {
                    &&& next.wal matches Some(wal)
                    &&& wal.path@ == opening.plan.wal@
                    &&& wal.id == metadata.id
                    &&& wal.size == metadata.size
                }
                &&& !(opening.step is StatWal) ==> next.wal == opening.wal
            }
        }),
        opening.step is StatDatabase ==> opening.inspected() == Some(opening.plan.database@),
        opening.step is StatWal ==> opening.inspected() == Some(opening.plan.wal@),
{
}

/// A failure to open one of the files is reported with its whole path, behind
/// the same words for both. No other report depends on the paths.
pub proof fn law_failures_name_the_file(one: Opening, other: Opening)
    requires
        one.step is OpenDatabase || one.step is OpenWal,
        other.step is OpenDatabase || other.step is OpenWal,
    ensures
        ({
            let path = if one.step is OpenDatabase {
                one.plan.database@
            } else {
                one.plan.wal@
            };
            let other_path = if other.step is OpenDatabase {
                other.plan.database@
            } else {
                other.plan.wal@
            };
            &&& one.context_text() matches Some(text)
            &&& other.context_text() matches Some(other_text)
            &&& text.len() >= path.len()
            &&& text.skip(text.len() - path.len()) == path
            &&& text.take(text.len() - path.len()) == other_text.take(
                other_text.len() - other_path.len(),
            )
        }),
{
    let path = if one.step is OpenDatabase {
        one.plan.database@
    } else {
        one.plan.wal@
    };
    let other_path = if other.step is OpenDatabase {
        other.plan.database@
    } else {
        other.plan.wal@
    };
    let text = one.context_text()->0;
    let other_text = other.context_text()->0;
    assert(text.skip(text.len() - path.len()) =~= path);
    assert(text.take(text.len() - path.len()) =~= other_text.take(
        other_text.len() - other_path.len(),
    ));
}

/// Apart from opening one of the files, what a failure is reported as depends on
/// the step alone.
pub proof fn law_other_failures_depend_on_the_step(one: Opening, other: Opening)
    requires
        one.step == other.step,
        !(one.step is OpenDatabase),
        !(one.step is OpenWal),
    ensures
        one.context_text() == other.context_text(),
{
}

} // verus!
