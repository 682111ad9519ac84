//! The entry model shared by every back-end, and the general-purpose root
//! back-end, which is the plain tree with nothing refused and nothing derived.

use vstd::prelude::*;
use vstd::string::*;
use std::collections::BTreeMap;
use crate::fs::fs::{BackendKind, Benchmark, FsError, Navigation, Operations};
use crate::fs::lookup::{find_named, names_of, ordered_keys};
use crate::fs::model::{
    ascending, listing_lines, lowered, raised, DirView, FileView, FsView, SuperblockView,
    ROOT_INODE,
};
use crate::fs::consistency::{
    lemma_change_directory_wf, lemma_fresh, lemma_make_directory_wf, lemma_make_file_wf,
    lemma_remove_directory_wf, lemma_remove_file_wf, lemma_store_wf,
    lemma_with_numbered_files_wf,
};
use crate::fs::command::parse;
use crate::fs::registry::{Backend, BackendView, CommandOutcome, Registry};
use crate::fs::policy::{
    lines_of, speedtest_step, text_of, with_numbered_files, Readings, WriteOutcome,
    SPEEDTEST_FILES,
};
use crate::fs::text::{
    push_decimal, push_signed, repeated, same_text, split_at_space, split_message,
};

verus! {

/// Identifies one mounted back-end and counts what it holds.
#[derive(Clone, Debug)]
pub struct Superblock {
    /// The display name, which is also the name of the mount point.
    pub device: String,
    /// A running count of the files. It only reports: nothing depends on it.
    pub filecount: i32,
    /// A running count of the directories, the root not counted; mount
    /// anchors count as directories. It only reports: nothing depends on it.
    pub dircount: i32,
}

/// A directory: its name, what it lists, and where it hangs.
#[derive(Clone, Debug)]
pub struct Dir {
    pub name: String,
    /// The subdirectories, each identifier with the name of its directory.
    pub subdirectories: BTreeMap<i32, String>,
    /// The files, each identifier with the name of its file.
    pub files: BTreeMap<i32, String>,
    /// The identifier of the directory that this one was created in.
    pub parent: Option<i32>,
}

/// A file: its name and its content.
#[derive(Clone, Debug)]
pub struct File {
    pub name: String,
    pub content: String,
}

/// One filesystem instance: the tables, the counters that hand out
/// identifiers, and the current directory.
#[derive(Clone, Debug)]
pub struct FileSystem {
    pub superblock: Superblock,
    /// The last identifier given to an ordinary entry; they grow from one.
    pub next_inode: i32,
    /// The last identifier given to a mount anchor; they fall from minus one.
    pub next_mount_slot: i32,
    pub directories: BTreeMap<i32, Dir>,
    pub files: BTreeMap<i32, File>,
    /// The identifier of the current directory.
    pub cwd: i32,
    /// The registry index of the filesystem that hosts this one.
    pub parent_registry_index: Option<i32>,
}

impl View for Superblock {
    type V = SuperblockView;

    open spec fn view(&self) -> SuperblockView {
        SuperblockView { device: self.device@, filecount: self.filecount, dircount: self.dircount }
    }
}

impl View for Dir {
    type V = DirView;

    open spec fn view(&self) -> DirView {
        DirView {
            name: self.name@,
            subdirectories: names_of(self.subdirectories@),
            files: names_of(self.files@),
            parent: self.parent,
        }
    }
}

impl View for File {
    type V = FileView;

    open spec fn view(&self) -> FileView {
        FileView { name: self.name@, content: self.content@ }
    }
}

/// A directory table as the contracts see it.
pub open spec fn directories_of(table: Map<i32, Dir>) -> Map<i32, DirView> {
    table.map_values(|dir: Dir| dir@)
}

/// A file table as the contracts see it.
pub open spec fn files_of(table: Map<i32, File>) -> Map<i32, FileView> {
    table.map_values(|file: File| file@)
}

impl View for FileSystem {
    type V = FsView;

    open spec fn view(&self) -> FsView {
        FsView {
            superblock: self.superblock@,
            next_inode: self.next_inode,
            next_mount_slot: self.next_mount_slot,
            directories: directories_of(self.directories@),
            files: files_of(self.files@),
            cwd: self.cwd,
            parent_registry_index: self.parent_registry_index,
        }
    }
}

impl Superblock {
    /// The report on the superblock, closed by the cycle counter `cycles` of
    /// the machine.
    pub fn get_info(&self, cycles: u64) -> (r: String)
        ensures
            r@ == self@.report(cycles),
    {
        let mut report = String::from_str("Device: ");
        report.append(self.device.as_str());
        report.append("\nFilecount: ");
        push_signed(&mut report, self.filecount);
        report.append("\nDircount: ");
        push_signed(&mut report, self.dircount);
        report.append("\nCurrent time-stamp counter: ");
        push_decimal(&mut report, cycles);
        report
    }

    /// The device name.
    pub fn get_device(&self) -> (r: String)
        ensures
            r@ == self.device@,
    {
        self.device.clone()
    }
}

/// A counter of the superblock after one more entry.
fn raise(count: i32) -> (r: i32)
    ensures
        r == raised(count),
{
    if count < i32::MAX {
        count + 1
    } else {
        count
    }
}

/// A counter of the superblock after one entry less.
fn lower(count: i32) -> (r: i32)
    ensures
        r == lowered(count),
{
    if count > i32::MIN {
        count - 1
    } else {
        count
    }
}

/// Appends to `lines` one line for each entry of `listing`, in the order of the
/// identifiers: the marker of the kind, then the name.
fn push_lines(lines: &mut Vec<String>, marker: &str, listing: &BTreeMap<i32, String>)
    ensures
        lines_of(final(lines)@) == lines_of(old(lines)@) + listing_lines(
            marker@,
            ascending(listing@.dom()),
            names_of(listing@),
        ),
{
    let keys = ordered_keys(listing);
    let ghost wanted = listing_lines(marker@, keys@, names_of(listing@));
    let mut at: usize = 0;
    while at < keys.len()
        invariant
            at <= keys@.len(),
            keys@ == ascending(listing@.dom()),
            forall|i: int| 0 <= i < keys@.len() ==> listing@.contains_key(#[trigger] keys@[i]),
            wanted == listing_lines(marker@, keys@, names_of(listing@)),
            lines_of(lines@) == lines_of(old(lines)@) + wanted.take(at as int),
        decreases keys@.len() - at,
    {
        let name = listing.get(&keys[at]).unwrap();
        let mut line = String::from_str(marker);
        line.append(name.as_str());
        let ghost before = lines@;
        lines.push(line);
        assert(lines_of(lines@) =~= lines_of(before).push(line@));
        at = at + 1;
    }
}

impl FileSystem {
    /// A new instance for the device `device`, hosted by the registry entry
    /// `host` if there is one. It holds its root directory, stored under the
    /// name `root`, and nothing else, and the root is the current directory.
    pub fn new(device: &str, root: &str, host: Option<i32>) -> (r: FileSystem)
        ensures
            r@.wf(),
            r@.all_listed(),
            r@.counts_exact(),
            r@ == FsView::fresh(device@, root@, host),
    {
        let mut fs = FileSystem {
            superblock: Superblock { device: device.to_owned(), filecount: 0, dircount: -1 },
            next_inode: 0,
            next_mount_slot: 0,
            directories: BTreeMap::new(),
            files: BTreeMap::new(),
            cwd: 0,
            parent_registry_index: host,
        };
        assert(fs@.directories =~= Map::empty());
        assert(fs@.files =~= Map::empty());
        let _ = fs.make_directory(root, false);
        fs.cwd = ROOT_INODE;
        proof {
            lemma_fresh(device@, root@, host);
        }
        fs
    }

    /// The path of the current directory within the instance.
    pub fn path(&self) -> (r: String)
        requires
            self@.wf(),
        ensures
            r@ == self@.path(),
    {
        let mut cur = self.cwd;
        let mut tail = String::new();
        while cur > ROOT_INODE && self.directories.contains_key(&cur)
            invariant
                self@.wf(),
                self@.trail(self.cwd) == self@.trail(cur) + tail@,
            decreases cur,
        {
            let dir = self.directories.get(&cur).unwrap();
            let mut piece = dir.name.clone();
            piece.append("/");
            piece.append(tail.as_str());
            tail = piece;
            cur = dir.parent.unwrap();
        }
        let mut whole = if same_text(self.superblock.device.as_str(), "SVFS") {
            String::from_str("/")
        } else {
            let mut prefix = self.superblock.device.clone();
            prefix.append("/");
            prefix
        };
        whole.append(tail.as_str());
        whole
    }

    /// The lines that list the current directory.
    pub fn listing(&self) -> (r: Vec<String>)
        ensures
            lines_of(r@) == self@.listing(),
    {
        let mut lines: Vec<String> = Vec::new();
        match self.directories.get(&self.cwd) {
            Some(dir) => {
                assert(dir@.subdirectories.dom() =~= dir.subdirectories@.dom());
                assert(dir@.files.dom() =~= dir.files@.dom());
                push_lines(&mut lines, "d - ", &dir.subdirectories);
                push_lines(&mut lines, "f - ", &dir.files);
            },
            None => {},
        }
        lines
    }

    /// The identifier that the current directory gives to the subdirectory
    /// `name`.
    fn lookup_dir(&self, name: &str) -> (r: Option<i32>)
        ensures
            r == self@.find_dir(name@),
    {
        match self.directories.get(&self.cwd) {
            Some(dir) => find_named(&dir.subdirectories, name),
            None => None,
        }
    }

    /// The identifier that the current directory gives to the file `name`.
    fn lookup_file(&self, name: &str) -> (r: Option<i32>)
        ensures
            r == self@.find_file(name@),
    {
        match self.directories.get(&self.cwd) {
            Some(dir) => find_named(&dir.files, name),
            None => None,
        }
    }

    /// Creates a directory in the current directory.
    pub fn make_directory(&mut self, dname: &str, fscheck: bool) -> (r: Result<i32, FsError>)
        ensures
            (final(self)@, r) == old(self)@.make_directory(dname@, fscheck),
    {
        if self.lookup_dir(dname).is_some() {
            return Err(FsError::DirectoryExists);
        }
        if (fscheck && self.next_mount_slot == i32::MIN) || (!fscheck && self.next_inode
            == i32::MAX) {
            return Err(FsError::InodesExhausted);
        }
        let inode: i32 = if fscheck {
            self.next_mount_slot = self.next_mount_slot - 1;
            self.next_mount_slot
        } else {
            self.next_inode = self.next_inode + 1;
            self.next_inode
        };
        let entry = Dir {
            name: dname.to_owned(),
            subdirectories: BTreeMap::new(),
            files: BTreeMap::new(),
            parent: Some(self.cwd),
        };
        assert(entry@.subdirectories =~= Map::empty() && entry@.files =~= Map::empty());
        self.directories.insert(inode, entry);
        self.superblock.dircount = raise(self.superblock.dircount);
        let ghost stored = old(self)@.directories.insert(inode, entry@);
        match self.directories.remove(&self.cwd) {
            Some(mut dir) => {
                let ghost listed = dir@.subdirectories.insert(inode, dname@);
                dir.subdirectories.insert(inode, dname.to_owned());
                assert(dir@.subdirectories =~= listed);
                self.directories.insert(self.cwd, dir);
                assert(self@.directories =~= stored.insert(
                    self.cwd,
                    DirView { subdirectories: listed, ..stored[self.cwd] },
                ));
            },
            None => {
                assert(self@.directories =~= stored);
            },
        }
        Ok(inode)
    }

    /// Creates an empty file in the current directory.
    pub fn make_file(&mut self, fname: &str) -> (r: Result<i32, FsError>)
        ensures
            (final(self)@, r) == old(self)@.make_file(fname@),
    {
        if !self.directories.contains_key(&self.cwd) {
            return Err(FsError::DirectoryNotInTable);
        }
        if self.lookup_file(fname).is_some() {
            return Err(FsError::FileExists);
        }
        if self.next_inode == i32::MAX {
            return Err(FsError::InodesExhausted);
        }
        self.next_inode = self.next_inode + 1;
        let inode = self.next_inode;
        let entry = File { name: fname.to_owned(), content: String::new() };
        self.files.insert(inode, entry);
        self.superblock.filecount = raise(self.superblock.filecount);
        assert(self@.files =~= old(self)@.files.insert(inode, entry@));
        let mut dir = self.directories.remove(&self.cwd).unwrap();
        let ghost listed = dir@.files.insert(inode, fname@);
        dir.files.insert(inode, fname.to_owned());
        assert(dir@.files =~= listed);
        self.directories.insert(self.cwd, dir);
        assert(self@.directories =~= old(self)@.directories.insert(
            self.cwd,
            DirView { files: listed, ..old(self)@.current() },
        ));
        Ok(inode)
    }

    /// The identifier of a file of the current directory, once it is found in
    /// the listing and in the file table.
    pub fn resolve(&self, fname: &str) -> (r: Result<i32, FsError>)
        ensures
            r == self@.resolve_file(fname@),
    {
        if !self.directories.contains_key(&self.cwd) {
            return Err(FsError::FileNotInTable);
        }
        match self.lookup_file(fname) {
            None => Err(FsError::FileNotInDirectory),
            Some(inode) => if self.files.contains_key(&inode) {
                Ok(inode)
            } else {
                Err(FsError::FileNotInTable)
            },
        }
    }

    /// The content of a file of the current directory.
    pub fn fetch(&self, fname: &str) -> (r: Result<String, FsError>)
        ensures
            text_of(r) == self@.read(fname@),
    {
        match self.resolve(fname) {
            Ok(inode) => Ok(self.files.get(&inode).unwrap().content.clone()),
            Err(e) => Err(e),
        }
    }

    /// Replaces the content of a file of the current directory.
    pub fn store(&mut self, fname: &str, content: &str) -> (r: Result<(), FsError>)
        ensures
            (final(self)@, r) == old(self)@.store(fname@, content@),
    {
        match self.resolve(fname) {
            Ok(inode) => {
                let mut file = self.files.remove(&inode).unwrap();
                file.content = content.to_owned();
                self.files.insert(inode, file);
                assert(self@.files =~= old(self)@.files.insert(
                    inode,
                    FileView { content: content@, ..old(self)@.files[inode] },
                ));
                Ok(())
            },
            Err(e) => Err(e),
        }
    }

    /// Takes `msg` apart at its first space into a file name and a payload,
    /// and stores the payload in that file.
    pub fn write(&mut self, msg: &str) -> (r: Result<(), FsError>)
        ensures
            (final(self)@, r) == old(self)@.write(msg@),
    {
        match split_message(msg) {
            Some((fname, payload)) => self.store(fname, payload),
            None => Err(FsError::WriteUsage),
        }
    }

    /// Removes a subdirectory of the current directory from the listing and
    /// from the directory table.
    pub fn delete_directory(&mut self, dname: &str) -> (r: Result<(), FsError>)
        ensures
            (final(self)@, r) == old(self)@.remove_directory(dname@),
    {
        if !self.directories.contains_key(&self.cwd) {
            return Err(FsError::DirectoryNotInTable);
        }
        match self.lookup_dir(dname) {
            None => Err(FsError::NoSuchDirectory),
            Some(inode) => {
                self.superblock.dircount = lower(self.superblock.dircount);
                self.directories.remove(&inode);
                let ghost dropped = old(self)@.directories.remove(inode);
                match self.directories.remove(&self.cwd) {
                    Some(mut dir) => {
                        let ghost listing = dir@.subdirectories.remove(inode);
                        dir.subdirectories.remove(&inode);
                        assert(dir@.subdirectories =~= listing);
                        self.directories.insert(self.cwd, dir);
                        assert(self@.directories =~= dropped.insert(
                            self.cwd,
                            DirView { subdirectories: listing, ..old(self)@.current() },
                        ));
                    },
                    None => {
                        assert(self@.directories =~= dropped);
                    },
                }
                Ok(())
            },
        }
    }

    /// Removes a file of the current directory from the listing and from the
    /// file table.
    pub fn delete_file(&mut self, fname: &str) -> (r: Result<(), FsError>)
        ensures
            (final(self)@, r) == old(self)@.remove_file(fname@),
    {
        if !self.directories.contains_key(&self.cwd) {
            return Err(FsError::FileNotInTable);
        }
        match self.lookup_file(fname) {
            None => Err(FsError::NoSuchFile),
            Some(inode) => {
                self.superblock.filecount = lower(self.superblock.filecount);
                self.files.remove(&inode);
                assert(self@.files =~= old(self)@.files.remove(inode));
                let mut dir = self.directories.remove(&self.cwd).unwrap();
                let ghost listing = dir@.files.remove(inode);
                dir.files.remove(&inode);
                assert(dir@.files =~= listing);
                self.directories.insert(self.cwd, dir);
                assert(self@.directories =~= old(self)@.directories.insert(
                    self.cwd,
                    DirView { files: listing, ..old(self)@.current() },
                ));
                Ok(())
            },
        }
    }

    /// Creates the directory `speedtest`, enters it, creates 999 numbered
    /// files there and goes back up. Hands back where the last step led.
    pub fn fill_speedtest(&mut self) -> (r: Navigation)
        requires
            old(self)@.wf(),
        ensures
            final(self)@.wf(),
            (final(self)@, r) == speedtest_step(old(self)@),
    {
        proof {
            lemma_make_directory_wf(self@, "speedtest"@, false);
        }
        let _ = self.make_directory("speedtest", false);
        proof {
            lemma_change_directory_wf(self@, "speedtest"@);
        }
        let _ = self.change_directory("speedtest");
        let ghost entered = self@;
        let mut count: u32 = 0;
        while count < SPEEDTEST_FILES
            invariant
                count <= SPEEDTEST_FILES,
                entered.wf(),
                self@ == with_numbered_files(entered, count as nat),
            decreases SPEEDTEST_FILES - count,
        {
            count = count + 1;
            let mut fname = String::from_str("test");
            push_decimal(&mut fname, count as u64);
            let _ = self.make_file(fname.as_str());
        }
        proof {
            lemma_with_numbered_files_wf(entered, SPEEDTEST_FILES as nat);
            lemma_change_directory_wf(self@, ".."@);
        }
        match self.change_directory("..") {
            Ok(to) => to,
            Err(_) => Navigation::Local,
        }
    }

    /// Creates the file `speed` and stores in it `block` repeated `times`
    /// times.
    pub fn fill_speedtest2(&mut self, block: &str, times: u32)
        requires
            old(self)@.wf(),
        ensures
            final(self)@.wf(),
            final(self)@ == old(self)@.make_file("speed"@).0.store(
                "speed"@,
                repeated(block@, times as nat),
            ).0,
    {
        let mut text = String::new();
        let mut done: u32 = 0;
        while done < times
            invariant
                done <= times,
                text@ == repeated(block@, done as nat),
            decreases times - done,
        {
            text.append(block);
            done = done + 1;
        }
        proof {
            lemma_make_file_wf(self@, "speed"@);
        }
        let _ = self.make_file("speed");
        proof {
            lemma_store_wf(self@, "speed"@, text@);
        }
        let _ = self.store("speed", text.as_str());
    }

    /// Changes the current directory, or says where the registry has to go.
    pub fn change_directory(&mut self, dname: &str) -> (r: Result<Navigation, FsError>)
        ensures
            (final(self)@, r) == old(self)@.change_directory(dname@),
    {
        if same_text(dname, "..") {
            if self.cwd == ROOT_INODE {
                return match self.parent_registry_index {
                    Some(host) => Ok(Navigation::Host(host)),
                    None => Ok(Navigation::Local),
                };
            }
            let parent = match self.directories.get(&self.cwd) {
                Some(dir) => dir.parent,
                None => None,
            };
            match parent {
                Some(parent) => {
                    self.cwd = parent;
                },
                None => {},
            }
            return Ok(Navigation::Local);
        }
        match self.lookup_dir(dname) {
            None => Err(FsError::DirectoryNotFound),
            Some(inode) => {
                if inode <= 0 {
                    Ok(Navigation::Mount)
                } else {
                    self.cwd = inode;
                    Ok(Navigation::Local)
                }
            },
        }
    }
}

/// Carries out one line of the command surface against the active
/// filesystem of `registry`, and hands back what is left for the caller: the
/// lines to show, the colours to pass on, the self-test to report.
pub fn execute_cmd(registry: &mut Registry, msg: String, readings: &Readings) -> (r:
    CommandOutcome)
    requires
        old(registry)@.wf(),
    ensures
        final(registry)@.wf(),
        (final(registry)@, r@) == old(registry)@.execute(msg@, readings@),
{
    let command = parse(msg.as_str());
    registry.run(command, readings)
}

/// The full path of the current directory: the path within the active
/// filesystem, behind the path within its host if it has one.
pub fn getcurpath(registry: &Registry) -> (r: String)
    requires
        registry@.wf(),
    ensures
        r@ == registry@.full_path(),
{
    registry.full_path()
}

/// Makes the first filesystem whose device is called `dname` the active one,
/// and says whether there was one.
pub fn getcurfs(registry: &mut Registry, dname: &str) -> (r: bool)
    requires
        old(registry)@.wf(),
    ensures
        final(registry)@.wf(),
        (final(registry)@, r) == old(registry)@.activate(dname@),
{
    registry.activate(dname)
}

/// Puts the top-level filesystem at the end of `registry` and makes it the
/// active one. Hands back the report on its superblock as it stands before the
/// root directory is created, closed by the cycle counter `cycles`.
pub fn init_vfs(registry: &mut Registry, cycles: u64) -> (r: String)
    requires
        old(registry)@.wf(),
        old(registry)@.fslist.len() < i32::MAX,
    ensures
        final(registry)@.wf(),
        final(registry)@.fslist == old(registry)@.fslist.push(
            BackendView { kind: BackendKind::Root, fs: FsView::fresh("SVFS"@, "/"@, None) },
        ),
        final(registry)@.curfs == old(registry)@.fslist.len(),
        r@ == (SuperblockView { device: "SVFS"@, filecount: 0, dircount: -1i32 }).report(cycles),
{
    let blank = Superblock { device: String::from_str("SVFS"), filecount: 0, dircount: -1 };
    let report = blank.get_info(cycles);
    let root = FileSystem::new("SVFS", "/", None);
    let position = registry.fslist.len();
    registry.fslist.push(Backend::Root(root));
    registry.curfs = position as i32;
    assert(registry@.fslist =~= old(registry)@.fslist.push(
        BackendView { kind: BackendKind::Root, fs: FsView::fresh("SVFS"@, "/"@, None) },
    ));
    report
}

impl Operations for FileSystem {
    open spec fn kind(&self) -> BackendKind {
        BackendKind::Root
    }

    open spec fn state(&self) -> FsView {
        self@
    }

    fn mkdir(&mut self, dname: &str, fscheck: bool) -> (r: Result<i32, FsError>) {
        proof {
            lemma_make_directory_wf(self@, dname@, fscheck);
        }
        self.make_directory(dname, fscheck)
    }

    fn read_file(&mut self, fname: &str, readings: &Readings) -> (r: Result<String, FsError>) {
        self.fetch(fname)
    }

    fn write_file(&mut self, msg: &str) -> (r: WriteOutcome) {
        proof {
            match split_at_space(msg@) {
                Some((fname, payload)) => {
                    lemma_store_wf(self@, fname, payload);
                },
                None => {},
            }
        }
        WriteOutcome { result: self.write(msg), colors: None }
    }

    fn create_file(&mut self, fname: &str) -> (r: Result<i32, FsError>) {
        proof {
            lemma_make_file_wf(self@, fname@);
        }
        self.make_file(fname)
    }

    fn remove_dir(&mut self, dname: &str) -> (r: Result<(), FsError>) {
        proof {
            lemma_remove_directory_wf(self@, dname@);
        }
        self.delete_directory(dname)
    }

    fn remove_file(&mut self, fname: &str) -> (r: Result<(), FsError>) {
        proof {
            lemma_remove_file_wf(self@, fname@);
        }
        self.delete_file(fname)
    }

    fn get_path(&self) -> (r: String) {
        self.path()
    }

    fn ls(&self) -> (r: Vec<String>) {
        self.listing()
    }

    fn cd(&mut self, dname: &str) -> (r: Result<Navigation, FsError>) {
        proof {
            lemma_change_directory_wf(self@, dname@);
        }
        self.change_directory(dname)
    }

    fn get_sb_info(&self, cycles: u64) -> (r: String) {
        self.superblock.get_info(cycles)
    }

    fn get_path_inode(&self) -> (r: i32) {
        self.cwd
    }

    fn get_parent(&self) -> (r: Option<i32>) {
        self.parent_registry_index
    }

    fn get_sb_device(&self) -> (r: String) {
        self.superblock.get_device()
    }

    fn speedtest(&mut self) -> (r: (Benchmark, Navigation)) {
        let moved = self.fill_speedtest();
        (Benchmark::FilesInCycles, moved)
    }

    fn speedtest2(&mut self) -> (r: Benchmark) {
        self.fill_speedtest2("ABCDEFGHIJ", 8192);
        Benchmark::TextInCycles(81926)
    }
}

} // verus!
