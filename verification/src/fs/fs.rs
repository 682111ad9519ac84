//! The interface that every back-end offers, and the plain values that cross
//! it: failures, navigation signals, and what a caller has to act on.

use vstd::prelude::*;
use vstd::string::*;
use crate::fs::model::FsView;
use crate::fs::policy::{
    benchmark_text, create_file_step, lines_of, read_step, remove_dir_step, remove_file_step,
    speedtest2_benchmark, speedtest2_step, speedtest_benchmark, speedtest_step, text_of,
    write_step, Readings, WriteOutcome,
};
use crate::fs::text::push_decimal;

verus! {

/// Why an operation did not go through. No failure changes any state.
#[derive(Clone, Copy, Debug, PartialEq, Eq, Structural)]
pub enum FsError {
    /// The current directory already lists a directory of that name.
    DirectoryExists,
    /// The current directory already lists a file of that name.
    FileExists,
    /// A write came without a payload.
    WriteUsage,
    /// The current directory lists no file of that name.
    FileNotInDirectory,
    /// The file table has no entry for the file that was looked for.
    FileNotInTable,
    /// The directory table has no entry for the current directory.
    DirectoryNotInTable,
    /// The current directory lists no directory of that name to remove.
    NoSuchDirectory,
    /// The current directory lists no file of that name to remove.
    NoSuchFile,
    /// The current directory lists no directory of that name to enter.
    DirectoryNotFound,
    /// The registry has no active filesystem.
    NoFilesystem,
    /// The back-end keeps its files read-only.
    ReadOnly,
    /// The back-end takes no new files.
    CreationRefused,
    /// The back-end gives up no directories.
    DirectoryRemovalRefused,
    /// The back-end gives up no files.
    FileRemovalRefused,
    /// The back-end protects this one file from removal.
    ProtectedFile,
    /// The instance has handed out every identifier it can count.
    InodesExhausted,
}

/// The three families of failure.
#[derive(Clone, Copy, Debug, PartialEq, Eq, Structural)]
pub enum FailureKind {
    /// The request itself is at fault: a duplicate name, a malformed write.
    Validation,
    /// Something named in the request is not there.
    Lookup,
    /// The back-end refuses the operation outright.
    Policy,
}

impl FsError {
    /// The family a failure belongs to.
    pub open spec fn kind_of(self) -> FailureKind {
        match self {
            FsError::DirectoryExists | FsError::FileExists | FsError::WriteUsage => {
                FailureKind::Validation
            },
            FsError::FileNotInDirectory
            | FsError::FileNotInTable
            | FsError::DirectoryNotInTable
            | FsError::NoSuchDirectory
            | FsError::NoSuchFile
            | FsError::DirectoryNotFound
            | FsError::NoFilesystem => FailureKind::Lookup,
            FsError::ReadOnly
            | FsError::CreationRefused
            | FsError::DirectoryRemovalRefused
            | FsError::FileRemovalRefused
            | FsError::ProtectedFile
            | FsError::InodesExhausted => FailureKind::Policy,
        }
    }

    /// The diagnostic line for a failure that concerns `name`.
    pub open spec fn message_text(self, name: Seq<char>) -> Seq<char> {
        match self {
            FsError::DirectoryExists => {
                "This directory already exists. Please choose a different name."@
            },
            FsError::FileExists => "This file already exists. Please choose a different name."@,
            FsError::WriteUsage => "Usage: write <filename> <message>"@,
            FsError::FileNotInDirectory => "Cannot find "@ + name + " inside the current dir."@,
            FsError::FileNotInTable => "Cannot find "@ + name + " in the global FileMap."@,
            FsError::DirectoryNotInTable => "Cannot find the current dir in the global DirMap."@,
            FsError::NoSuchDirectory => "Cannot find a dir with that name"@,
            FsError::NoSuchFile => "Cannot find a file with that name"@,
            FsError::DirectoryNotFound => "Couldn't find "@ + name + " in the current dir."@,
            FsError::NoFilesystem => "Could not get current filesystem!"@,
            FsError::ReadOnly => "This file is read-only!"@,
            FsError::CreationRefused => "Cannot add files in this filesystem!"@,
            FsError::DirectoryRemovalRefused => "Cannot remove directories in this filesystem!"@,
            FsError::FileRemovalRefused => "Cannot remove files in this filesystem!"@,
            FsError::ProtectedFile => "Cannot remove "@ + name + " file!"@,
            FsError::InodesExhausted => "No inode numbers are left in this filesystem!"@,
        }
    }

    /// The family a failure belongs to.
    pub fn kind(&self) -> (r: FailureKind)
        ensures
            r == self.kind_of(),
    {
        match self {
            FsError::DirectoryExists | FsError::FileExists | FsError::WriteUsage => {
                FailureKind::Validation
            },
            FsError::FileNotInDirectory
            | FsError::FileNotInTable
            | FsError::DirectoryNotInTable
            | FsError::NoSuchDirectory
            | FsError::NoSuchFile
            | FsError::DirectoryNotFound
            | FsError::NoFilesystem => FailureKind::Lookup,
            FsError::ReadOnly
            | FsError::CreationRefused
            | FsError::DirectoryRemovalRefused
            | FsError::FileRemovalRefused
            | FsError::ProtectedFile
            | FsError::InodesExhausted => FailureKind::Policy,
        }
    }

    /// The diagnostic line for a failure that concerns `name`.
    pub fn message(&self, name: &str) -> (r: String)
        ensures
            r@ == self.message_text(name@),
    {
        match self {
            FsError::DirectoryExists => String::from_str(
                "This directory already exists. Please choose a different name.",
            ),
            FsError::FileExists => String::from_str(
                "This file already exists. Please choose a different name.",
            ),
            FsError::WriteUsage => String::from_str("Usage: write <filename> <message>"),
            FsError::FileNotInDirectory => String::from_str("Cannot find ").concat(name).concat(
                " inside the current dir.",
            ),
            FsError::FileNotInTable => String::from_str("Cannot find ").concat(name).concat(
                " in the global FileMap.",
            ),
            FsError::DirectoryNotInTable => String::from_str(
                "Cannot find the current dir in the global DirMap.",
            ),
            FsError::NoSuchDirectory => String::from_str("Cannot find a dir with that name"),
            FsError::NoSuchFile => String::from_str("Cannot find a file with that name"),
            FsError::DirectoryNotFound => String::from_str("Couldn't find ").concat(name).concat(
                " in the current dir.",
            ),
            FsError::NoFilesystem => String::from_str("Could not get current filesystem!"),
            FsError::ReadOnly => String::from_str("This file is read-only!"),
            FsError::CreationRefused => String::from_str("Cannot add files in this filesystem!"),
            FsError::DirectoryRemovalRefused => String::from_str(
                "Cannot remove directories in this filesystem!",
            ),
            FsError::FileRemovalRefused => String::from_str(
                "Cannot remove files in this filesystem!",
            ),
            FsError::ProtectedFile => String::from_str("Cannot remove ").concat(name).concat(
                " file!",
            ),
            FsError::InodesExhausted => String::from_str(
                "No inode numbers are left in this filesystem!",
            ),
        }
    }
}

/// Where a change of directory leads.
#[derive(Clone, Copy, Debug, PartialEq, Eq, Structural)]
pub enum Navigation {
    /// The instance dealt with it alone: its current directory is where the
    /// request leads, or stays where it was when there is nowhere to go.
    Local,
    /// The request leaves the instance at its root. The registry entry with
    /// this index hosts it and becomes the active one.
    Host(i32),
    /// The name is a mount anchor. The instance whose device name equals the
    /// requested name becomes the active one.
    Mount,
}

/// The three ways in which a back-end treats its tree.
#[derive(Clone, Copy, Debug, PartialEq, Eq, Structural)]
pub enum BackendKind {
    /// The general-purpose back-end: everything may be created, written and
    /// removed.
    Root,
    /// The read-only back-end whose well-known files are rewritten from live
    /// counters whenever they are read.
    Synthetic,
    /// The back-end with one protected file that a bus scan fills on read.
    Hybrid,
}

/// What a throughput self-test measured, for the line that reports it.
#[derive(Clone, Copy, Debug, PartialEq, Eq, Structural)]
pub enum Benchmark {
    /// Many empty files, timed in cycles.
    FilesInCycles,
    /// Many empty files, timed in seconds.
    FilesInSeconds,
    /// One file with a long text of this many bytes, timed in cycles.
    TextInCycles(u64),
    /// One file with a long text, timed in seconds.
    TextInSeconds,
}

impl Benchmark {
    /// The line that reports a self-test which took `elapsed` units of time.
    pub fn report(&self, elapsed: u64) -> (r: String)
        ensures
            r@ == benchmark_text(*self, elapsed),
    {
        match self {
            Benchmark::FilesInCycles => {
                let mut line = String::from_str("Created 1000 empty files in ");
                push_decimal(&mut line, elapsed);
                line.append(" cycles");
                line
            },
            Benchmark::FilesInSeconds => {
                let mut line = String::from_str("Created 500 empty files in ");
                push_decimal(&mut line, elapsed);
                line.append(" seconds");
                line
            },
            Benchmark::TextInCycles(size) => {
                let mut line = String::from_str("File with a string of size ");
                push_decimal(&mut line, *size);
                line.append(" created in ");
                push_decimal(&mut line, elapsed);
                line.append(" cycles");
                line
            },
            Benchmark::TextInSeconds => {
                let mut line = String::from_str("File with a string of size 400 created in ");
                push_decimal(&mut line, elapsed);
                line.append(" seconds");
                line
            },
        }
    }
}

/// The operations that every back-end offers. Each one is specified against
/// the model of the instance and the kind of the back-end, so that a caller
/// knows what an operation does without knowing which back-end it talks to.
pub trait Operations {
    /// Which of the back-ends this is.
    spec fn kind(&self) -> BackendKind;

    /// The instance as the contracts see it.
    spec fn state(&self) -> FsView;

    /// Creates a directory in the current directory; a mount anchor if
    /// `fscheck` is set.
    fn mkdir(&mut self, dname: &str, fscheck: bool) -> (r: Result<i32, FsError>)
        requires
            old(self).state().wf(),
        ensures
            final(self).kind() == old(self).kind(),
            final(self).state().wf(),
            (final(self).state(), r) == old(self).state().make_directory(dname@, fscheck),
    ;

    /// Hands back the content of a file of the current directory.
    fn read_file(&mut self, fname: &str, readings: &Readings) -> (r: Result<String, FsError>)
        requires
            old(self).state().wf(),
        ensures
            final(self).kind() == old(self).kind(),
            final(self).state().wf(),
            (final(self).state(), text_of(r)) == read_step(
                old(self).kind(),
                old(self).state(),
                fname@,
                readings@,
            ),
    ;

    /// Writes the payload of `msg` into the file that `msg` names.
    fn write_file(&mut self, msg: &str) -> (r: WriteOutcome)
        requires
            old(self).state().wf(),
        ensures
            final(self).kind() == old(self).kind(),
            final(self).state().wf(),
            (final(self).state(), r@) == write_step(old(self).kind(), old(self).state(), msg@),
    ;

    /// Creates an empty file in the current directory.
    fn create_file(&mut self, fname: &str) -> (r: Result<i32, FsError>)
        requires
            old(self).state().wf(),
        ensures
            final(self).kind() == old(self).kind(),
            final(self).state().wf(),
            (final(self).state(), r) == create_file_step(
                old(self).kind(),
                old(self).state(),
                fname@,
            ),
    ;

    /// Removes a subdirectory of the current directory.
    fn remove_dir(&mut self, dname: &str) -> (r: Result<(), FsError>)
        requires
            old(self).state().wf(),
        ensures
            final(self).kind() == old(self).kind(),
            final(self).state().wf(),
            (final(self).state(), r) == remove_dir_step(
                old(self).kind(),
                old(self).state(),
                dname@,
            ),
    ;

    /// Removes a file of the current directory.
    fn remove_file(&mut self, fname: &str) -> (r: Result<(), FsError>)
        requires
            old(self).state().wf(),
        ensures
            final(self).kind() == old(self).kind(),
            final(self).state().wf(),
            (final(self).state(), r) == remove_file_step(
                old(self).kind(),
                old(self).state(),
                fname@,
            ),
    ;

    /// The path of the current directory within the instance.
    fn get_path(&self) -> (r: String)
        requires
            self.state().wf(),
        ensures
            r@ == self.state().path(),
    ;

    /// The lines that list the current directory.
    fn ls(&self) -> (r: Vec<String>)
        ensures
            lines_of(r@) == self.state().listing(),
    ;

    /// Changes the current directory, or says where the registry has to go.
    fn cd(&mut self, dname: &str) -> (r: Result<Navigation, FsError>)
        requires
            old(self).state().wf(),
        ensures
            final(self).kind() == old(self).kind(),
            final(self).state().wf(),
            (final(self).state(), r) == old(self).state().change_directory(dname@),
    ;

    /// The report on the superblock, closed by the cycle counter.
    fn get_sb_info(&self, cycles: u64) -> (r: String)
        ensures
            r@ == self.state().superblock.report(cycles),
    ;

    /// The inode of the current directory.
    fn get_path_inode(&self) -> (r: i32)
        ensures
            r == self.state().cwd,
    ;

    /// The registry index of the host, if the instance is mounted on one.
    fn get_parent(&self) -> (r: Option<i32>)
        ensures
            r == self.state().parent_registry_index,
    ;

    /// The device name of the superblock.
    fn get_sb_device(&self) -> (r: String)
        ensures
            r@ == self.state().superblock.device,
    ;

    /// The first throughput self-test: many empty files.
    fn speedtest(&mut self) -> (r: (Benchmark, Navigation))
        requires
            old(self).state().wf(),
        ensures
            final(self).kind() == old(self).kind(),
            final(self).state().wf(),
            r.0 == speedtest_benchmark(old(self).kind()),
            (final(self).state(), r.1) == speedtest_step(old(self).state()),
    ;

    /// The second throughput self-test: one file with a long text.
    fn speedtest2(&mut self) -> (r: Benchmark)
        requires
            old(self).state().wf(),
        ensures
            final(self).kind() == old(self).kind(),
            final(self).state().wf(),
            r == speedtest2_benchmark(old(self).kind()),
            final(self).state() == speedtest2_step(old(self).kind(), old(self).state()),
    ;
}

} // verus!
