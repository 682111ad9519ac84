//! The textual command surface: which verb a line holds and what it names.

use vstd::prelude::*;
use vstd::string::*;
use crate::fs::text::{same_text, trim_end, trimmed_len};

verus! {

/// A line taken apart into a verb and what it applies to.
#[derive(Debug, PartialEq, Eq)]
pub enum Command {
    /// `mkdir <name>`: create a directory.
    Mkdir(String),
    /// `touch <name>`: create a file.
    Touch(String),
    /// `write <name> <text>`: overwrite a file. Holds the name, the space and
    /// the text as one message.
    Write(String),
    /// `read <name>`: show a file.
    Read(String),
    /// `rmf <name>`: remove a file.
    RemoveFile(String),
    /// `rmd <name>`: remove a directory.
    RemoveDir(String),
    /// `cd <name>`: change directory.
    Cd(String),
    /// `ls`: list the current directory.
    Ls,
    /// `getinfo`: report on the superblock.
    GetInfo,
    /// `getpath`: show the inode of the current directory.
    GetPath,
    /// `speedtest`: the first throughput self-test.
    Speedtest,
    /// `speedtest2`: the second throughput self-test.
    Speedtest2,
    /// A line that holds no verb.
    Nothing,
}

/// A command as the contracts see it.
pub enum CommandView {
    Mkdir(Seq<char>),
    Touch(Seq<char>),
    Write(Seq<char>),
    Read(Seq<char>),
    RemoveFile(Seq<char>),
    RemoveDir(Seq<char>),
    Cd(Seq<char>),
    Ls,
    GetInfo,
    GetPath,
    Speedtest,
    Speedtest2,
    Nothing,
}

impl View for Command {
    type V = CommandView;

    open spec fn view(&self) -> CommandView {
        match self {
            Command::Mkdir(name) => CommandView::Mkdir(name@),
            Command::Touch(name) => CommandView::Touch(name@),
            Command::Write(message) => CommandView::Write(message@),
            Command::Read(name) => CommandView::Read(name@),
            Command::RemoveFile(name) => CommandView::RemoveFile(name@),
            Command::RemoveDir(name) => CommandView::RemoveDir(name@),
            Command::Cd(name) => CommandView::Cd(name@),
            Command::Ls => CommandView::Ls,
            Command::GetInfo => CommandView::GetInfo,
            Command::GetPath => CommandView::GetPath,
            Command::Speedtest => CommandView::Speedtest,
            Command::Speedtest2 => CommandView::Speedtest2,
            Command::Nothing => CommandView::Nothing,
        }
    }
}

/// Whether `line` holds `verb`, a space, and at least one character more.
pub open spec fn takes(line: Seq<char>, verb: Seq<char>) -> bool {
    line.len() > verb.len() + 1 && line.take((verb.len() + 1) as int) == verb + " "@
}

/// What stands in `line` behind `verb` and the space that follows it.
pub open spec fn argument(line: Seq<char>, verb: Seq<char>) -> Seq<char> {
    line.skip((verb.len() + 1) as int)
}

/// Whether `line` holds `verb` alone, or `verb`, a space and more.
pub open spec fn calls(line: Seq<char>, verb: Seq<char>) -> bool {
    line == verb || takes(line, verb)
}

/// The command that `line` holds once the white space at its end is gone.
/// A verb that takes a name is followed by one space and the name, which is
/// everything up to the end of the line, further spaces included. A verb that
/// takes none stands alone on its line, or is followed by a space and text
/// that it passes over. Anything else is no command.
pub open spec fn parse_line(line: Seq<char>) -> CommandView {
    let s = trim_end(line);
    if takes(s, "mkdir"@) {
        CommandView::Mkdir(argument(s, "mkdir"@))
    } else if takes(s, "touch"@) {
        CommandView::Touch(argument(s, "touch"@))
    } else if takes(s, "write"@) {
        CommandView::Write(argument(s, "write"@))
    } else if takes(s, "read"@) {
        CommandView::Read(argument(s, "read"@))
    } else if takes(s, "rmf"@) {
        CommandView::RemoveFile(argument(s, "rmf"@))
    } else if takes(s, "rmd"@) {
        CommandView::RemoveDir(argument(s, "rmd"@))
    } else if takes(s, "cd"@) {
        CommandView::Cd(argument(s, "cd"@))
    } else if calls(s, "ls"@) {
        CommandView::Ls
    } else if calls(s, "getinfo"@) {
        CommandView::GetInfo
    } else if calls(s, "getpath"@) {
        CommandView::GetPath
    } else if calls(s, "speedtest"@) {
        CommandView::Speedtest
    } else if calls(s, "speedtest2"@) {
        CommandView::Speedtest2
    } else {
        CommandView::Nothing
    }
}

/// Whether `line`, which holds `total` characters, holds `verb`, a space,
/// and at least one character more.
fn takes_verb(line: &str, total: usize, verb: &str) -> (r: bool)
    requires
        total == line@.len(),
    ensures
        r == takes(line@, verb@),
{
    proof {
        reveal_strlit(" ");
    }
    let width = verb.unicode_len();
    if total > width && total - width > 1 {
        let head = line.substring_char(0, width);
        if same_text(head, verb) && line.get_char(width) == ' ' {
            assert(line@.take(width + 1) =~= verb@ + " "@);
            true
        } else {
            assert(line@.take(width + 1).take(width as int) =~= line@.take(width as int));
            assert(line@.take(width + 1)[width as int] == line@[width as int]);
            assert((verb@ + " "@).take(width as int) =~= verb@);
            assert((verb@ + " "@)[width as int] == ' ');
            false
        }
    } else {
        false
    }
}

/// What stands in `line`, which holds `total` characters, behind `verb` and
/// the space that follows it, if the line starts like that and holds more.
fn argument_of(line: &str, total: usize, verb: &str) -> (r: Option<String>)
    requires
        total == line@.len(),
    ensures
        match r {
            Some(name) => takes(line@, verb@) && name@ == argument(line@, verb@),
            None => !takes(line@, verb@),
        },
{
    if takes_verb(line, total, verb) {
        let width = verb.unicode_len();
        Some(String::from_str(line.substring_char(width + 1, total)))
    } else {
        None
    }
}

/// Whether `line`, which holds `total` characters, holds `verb` alone, or
/// `verb`, a space and more.
fn calls_verb(line: &str, total: usize, verb: &str) -> (r: bool)
    requires
        total == line@.len(),
    ensures
        r == calls(line@, verb@),
{
    same_text(line, verb) || takes_verb(line, total, verb)
}

/// Takes a line apart into a verb and what it applies to.
pub fn parse(line: &str) -> (r: Command)
    ensures
        r@ == parse_line(line@),
{
    let total = trimmed_len(line);
    let s = line.substring_char(0, total);
    if let Some(name) = argument_of(s, total, "mkdir") {
        return Command::Mkdir(name);
    }
    if let Some(name) = argument_of(s, total, "touch") {
        return Command::Touch(name);
    }
    if let Some(message) = argument_of(s, total, "write") {
        return Command::Write(message);
    }
    if let Some(name) = argument_of(s, total, "read") {
        return Command::Read(name);
    }
    if let Some(name) = argument_of(s, total, "rmf") {
        return Command::RemoveFile(name);
    }
    if let Some(name) = argument_of(s, total, "rmd") {
        return Command::RemoveDir(name);
    }
    if let Some(name) = argument_of(s, total, "cd") {
        return Command::Cd(name);
    }
    if calls_verb(s, total, "ls") {
        Command::Ls
    } else if calls_verb(s, total, "getinfo") {
        Command::GetInfo
    } else if calls_verb(s, total, "getpath") {
        Command::GetPath
    } else if calls_verb(s, total, "speedtest") {
        Command::Speedtest
    } else if calls_verb(s, total, "speedtest2") {
        Command::Speedtest2
    } else {
        Command::Nothing
    }
}

} // verus!
