//! How a database is opened.
//!
//! A database is a directory with a lock file in it. Opening it means
//! opening that file and taking a lock on it: a shared lock for reading,
//! an exclusive one for writing. This module decides what is to be done;
//! the file system is not touched here.

use crate::data::error::join;
use crate::data::error::Error;
use crate::data::error::IOError;
use std::io;
use vstd::prelude::*;
use vstd::string::*;

verus! {

/// Opening flags for a database.
///
/// The default is to create the database if it does not exist and to open
/// it for writing.
pub struct OpenFlags {
    /// If true, the database is created if it does not exist.
    pub create: bool,
    /// Opens the database in read-only mode, which allows several readers
    /// as long as there is no writer.
    pub read_only: bool,
}

impl Default for OpenFlags {
    /// The default flags: create, and open for writing.
    fn default() -> (flags: Self)
        ensures
            flags.create,
            !flags.read_only,
    {
        OpenFlags { create: true, read_only: false }
    }
}

/// The lock that is taken on the lock file.
#[derive(Clone, Copy, Debug, PartialEq, Eq, Structural)]
pub enum LockKind {
    /// A lock that readers share.
    Shared,
    /// The lock of the one writer.
    Exclusive,
}

/// What opening a database does, step by step.
#[derive(Clone, Copy, Debug, PartialEq, Eq, Structural)]
pub struct OpenPlan {
    /// Whether the database directory is created first, parents included.
    pub create_dir: bool,
    /// Whether the lock file is opened for reading. It always is.
    pub read: bool,
    /// Whether the lock file is opened for writing.
    pub write: bool,
    /// Whether the lock file is created if it is missing.
    pub create: bool,
    /// The lock that is then taken, without waiting.
    pub lock: LockKind,
}

/// The plan that `flags` ask for: the directory and the lock file are
/// created exactly when `create` is set, and the lock is shared exactly
/// when `read_only` is set.
pub open spec fn plan_of(flags: OpenFlags) -> OpenPlan {
    OpenPlan {
        create_dir: flags.create,
        read: true,
        write: flags.create,
        create: flags.create,
        lock: if flags.read_only {
            LockKind::Shared
        } else {
            LockKind::Exclusive
        },
    }
}

/// The steps of opening a database that can fail.
#[derive(Clone, Copy, Debug, PartialEq, Eq, Structural)]
pub enum OpenStep {
    /// Creating the database directory.
    CreateDir,
    /// Opening the lock file, or creating it.
    OpenLockFile,
    /// Taking the lock on the lock file.
    TakeLock,
}

/// The name of the lock file inside the database directory.
pub fn lock_file_name() -> (name: &'static str)
    ensures
        name@ == "db.lock"@,
{
    "db.lock"
}

/// What was being done at `step`, up to the path that it was done to.
pub open spec fn doing_text(step: OpenStep, flags: OpenFlags) -> Seq<char> {
    match step {
        OpenStep::CreateDir => "creating database directory at `"@,
        OpenStep::OpenLockFile => if flags.create {
            "opening or creating lock file `"@
        } else {
            "opening lock file `"@
        },
        OpenStep::TakeLock => if flags.read_only {
            "acquiring shared lock on `"@
        } else {
            "acquiring exclusive lock on `"@
        },
    }
}

/// The message of the error for a failure at `step` on `path`.
pub open spec fn failure_message(step: OpenStep, flags: OpenFlags, path: Seq<char>) -> Seq<char> {
    doing_text(step, flags) + path + "`"@
}

/// Turns flags into those for reading only.
fn only_read(flags: &mut OpenFlags)
    ensures
        final(flags).read_only,
        !final(flags).create,
{
    flags.read_only = true;
    flags.create = false;
}

impl OpenFlags {
    /// The default flags: create, and open for writing.
    pub fn default() -> (flags: Self)
        ensures
            flags.create,
            !flags.read_only,
    {
        OpenFlags { create: true, read_only: false }
    }

    /// The default flags after `callback` has changed them.
    pub fn config<T: FnOnce(&mut Self)>(callback: T) -> (flags: Self)
        requires
            forall|start: &mut OpenFlags| callback.requires((start,)),
        ensures
            exists|borrowed: &mut OpenFlags|
                {
                    &&& (*borrowed).create && !(*borrowed).read_only
                    &&& #[trigger] callback.ensures((borrowed,), ())
                    &&& *final(borrowed) == flags
                },
    {
        let mut flags = Self::default();
        callback(&mut flags);
        flags
    }

    /// What opening a database with these flags does.
    pub fn plan(&self) -> (plan: OpenPlan)
        ensures
            plan == plan_of(*self),
    {
        OpenPlan {
            create_dir: self.create,
            read: true,
            write: self.create,
            create: self.create,
            lock: if self.read_only {
                LockKind::Shared
            } else {
                LockKind::Exclusive
            },
        }
    }

    /// The error for the I/O error `cause` at `step` on `path`: a failure
    /// before the lock is an error of opening; a failure of the lock is
    /// an error of the lock that was asked for.
    pub fn failure(&self, step: OpenStep, cause: io::Error, path: &str) -> (error: Error)
        ensures
            error.source().cause() == cause,
            error.source().message()@ == failure_message(step, *self, path@),
            match step {
                OpenStep::CreateDir => error is Open,
                OpenStep::OpenLockFile => error is Open,
                OpenStep::TakeLock => if self.read_only {
                    error is ReadLock
                } else {
                    error is WriteLock
                },
            },
    {
        let doing = match step {
            OpenStep::CreateDir => "creating database directory at `",
            OpenStep::OpenLockFile => if self.create {
                "opening or creating lock file `"
            } else {
                "opening lock file `"
            },
            OpenStep::TakeLock => if self.read_only {
                "acquiring shared lock on `"
            } else {
                "acquiring exclusive lock on `"
            },
        };
        let inner = IOError::with_message(cause, join(doing, path, "`"));
        match step {
            OpenStep::CreateDir => Error::Open(inner),
            OpenStep::OpenLockFile => Error::Open(inner),
            OpenStep::TakeLock => if self.read_only {
                Error::ReadLock(inner)
            } else {
                Error::WriteLock(inner)
            },
        }
    }

    /// The flags for reading only: nothing is created.
    pub fn read_only() -> (flags: Self)
        ensures
            flags.read_only,
            !flags.create,
    {
        Self::config(only_read)
    }
}

} // verus!
