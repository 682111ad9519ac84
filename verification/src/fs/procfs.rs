//! The synthetic back-end: a fixed tree whose well-known files are rewritten
//! from live state whenever they are read, and which takes no other change
//! than a new pair of colours.

use vstd::prelude::*;
use vstd::string::*;
use crate::fs::consistency::{
    lemma_change_directory_wf, lemma_make_directory_wf, lemma_store_wf, lemma_synthetic_tree,
};
use crate::fs::fs::{BackendKind, Benchmark, FsError, Navigation, Operations};
use crate::fs::lookup::ordered_keys;
use crate::fs::model::{ascending, FsView};
use crate::fs::policy::{
    directory_names, file_names, inode_rows, inode_state_text, meminfo_text, regenerated,
    synthetic_tree, uptime_text, Readings, WriteOutcome,
};
use crate::fs::registry::{Backend, BackendView, Registry};
use crate::fs::svfs;
use crate::fs::text::{push_decimal, push_signed, push_upper_hex, same_text, split_message};

verus! {

/// The synthetic back-end.
#[derive(Clone, Debug)]
pub struct FileSystem {
    /// The tables and counters, kept as a plain tree.
    pub tree: svfs::FileSystem,
}

impl View for FileSystem {
    type V = FsView;

    open spec fn view(&self) -> FsView {
        self.tree@
    }
}

/// The content of the memory file.
fn meminfo(readings: &Readings) -> (r: String)
    ensures
        r@ == meminfo_text(readings.heap_size, readings.heap_start),
{
    let mut text = String::from_str("Heap Size: ");
    push_decimal(&mut text, readings.heap_size);
    text.append(" bytes\nHeap Start: 0x");
    push_upper_hex(&mut text, readings.heap_start);
    text
}

/// The content of the uptime file.
fn uptime(readings: &Readings) -> (r: String)
    ensures
        r@ == uptime_text(readings.uptime),
{
    let mut text = String::from_str("System running time: ");
    push_decimal(&mut text, readings.uptime);
    text.append(" seconds.");
    text
}

impl FileSystem {
    /// The back-end as it is mounted, hosted by the registry entry `host`.
    pub fn new(host: Option<i32>) -> (r: FileSystem)
        ensures
            r@.wf(),
            r@.all_listed(),
            r@.counts_exact(),
            r@ == synthetic_tree(host),
    {
        let mut tree = svfs::FileSystem::new("proc", "proc", host);
        let _ = tree.make_file("meminfo");
        let _ = tree.make_file("mounts");
        let _ = tree.make_file("uptime");
        let _ = tree.make_file("color");
        let _ = tree.store("color", "Black Yellow");
        let _ = tree.make_directory("sys", false);
        let _ = tree.change_directory("sys");
        let _ = tree.make_directory("fs", false);
        let _ = tree.change_directory("fs");
        let _ = tree.make_file("inode-state");
        let _ = tree.change_directory("..");
        let _ = tree.change_directory("..");
        proof {
            lemma_synthetic_tree(host);
        }
        FileSystem { tree }
    }

    /// Appends to `out` one row for each directory of the table.
    fn push_directory_rows(&self, out: &mut String)
        ensures
            final(out)@ == old(out)@ + inode_rows(
                ascending(self@.directories.dom()),
                directory_names(self@),
            ),
    {
        let keys = ordered_keys(&self.tree.directories);
        let ghost names = directory_names(self@);
        assert(self@.directories.dom() =~= self.tree.directories@.dom());
        let mut at: usize = 0;
        while at < keys.len()
            invariant
                at <= keys@.len(),
                names == directory_names(self@),
                forall|i: int|
                    0 <= i < keys@.len() ==> self.tree.directories@.contains_key(
                        #[trigger] keys@[i],
                    ),
                out@ == old(out)@ + inode_rows(keys@.take(at as int), names),
            decreases keys@.len() - at,
        {
            let key = keys[at];
            let dir = self.tree.directories.get(&key).unwrap();
            push_signed(out, key);
            out.append("       ");
            out.append(dir.name.as_str());
            out.append("\n");
            assert(keys@.take(at + 1).drop_last() =~= keys@.take(at as int));
            at = at + 1;
        }
        assert(keys@.take(at as int) =~= keys@);
    }

    /// Appends to `out` one row for each file of the table.
    fn push_file_rows(&self, out: &mut String)
        ensures
            final(out)@ == old(out)@ + inode_rows(ascending(self@.files.dom()), file_names(self@)),
    {
        let keys = ordered_keys(&self.tree.files);
        let ghost names = file_names(self@);
        assert(self@.files.dom() =~= self.tree.files@.dom());
        let mut at: usize = 0;
        while at < keys.len()
            invariant
                at <= keys@.len(),
                names == file_names(self@),
                forall|i: int|
                    0 <= i < keys@.len() ==> self.tree.files@.contains_key(#[trigger] keys@[i]),
                out@ == old(out)@ + inode_rows(keys@.take(at as int), names),
            decreases keys@.len() - at,
        {
            let key = keys[at];
            let file = self.tree.files.get(&key).unwrap();
            push_signed(out, key);
            out.append("       ");
            out.append(file.name.as_str());
            out.append("\n");
            assert(keys@.take(at + 1).drop_last() =~= keys@.take(at as int));
            at = at + 1;
        }
        assert(keys@.take(at as int) =~= keys@);
    }

    /// The content of the inode-state file.
    fn inode_state(&self) -> (r: String)
        ensures
            r@ == inode_state_text(self@),
    {
        let mut text = String::from_str("InodeCount: ");
        push_signed(&mut text, self.tree.next_inode);
        text.append("\nCurrent Path: ");
        push_signed(&mut text, self.tree.cwd);
        text.append("\nInode   Dirname/Filename\n");
        self.push_directory_rows(&mut text);
        self.push_file_rows(&mut text);
        text
    }

    /// What the back-end writes into the file `fname` before it reads it.
    fn regenerate(&self, fname: &str, readings: &Readings) -> (r: Option<String>)
        ensures
            match r {
                Some(text) => regenerated(self@, fname@, readings@) == Some(text@),
                None => regenerated(self@, fname@, readings@) is None,
            },
    {
        if same_text(fname, "meminfo") {
            Some(meminfo(readings))
        } else if same_text(fname, "uptime") {
            Some(uptime(readings))
        } else if same_text(fname, "mounts") {
            let mut text = String::from_str("Currently mounted filesystem: ");
            text.append(self.tree.superblock.device.as_str());
            Some(text)
        } else if same_text(fname, "inode-state") {
            Some(self.inode_state())
        } else {
            None
        }
    }
}

/// Mounts `fs` in `registry`: plants an anchor with its device name in the
/// current directory of the active filesystem, and puts `fs` at the end of the
/// list. Hands back the identifier of the anchor.
pub fn mount_fs(registry: &mut Registry, fs: FileSystem) -> (r: Result<i32, FsError>)
    requires
        old(registry)@.wf(),
        old(registry)@.fslist.len() < i32::MAX,
        fs@.wf(),
    ensures
        final(registry)@.wf(),
        (final(registry)@, r) == old(registry)@.mount(
            BackendView { kind: BackendKind::Synthetic, fs: fs@ },
        ),
{
    registry.mount(Backend::Synthetic(fs))
}

/// Builds the synthetic back-end with the active filesystem as its host and
/// mounts it there.
pub fn init_procfs(registry: &mut Registry) -> (r: Result<i32, FsError>)
    requires
        old(registry)@.wf(),
        old(registry)@.fslist.len() < i32::MAX,
    ensures
        final(registry)@.wf(),
        (final(registry)@, r) == old(registry)@.mount(
            BackendView {
                kind: BackendKind::Synthetic,
                fs: synthetic_tree(Some(old(registry)@.curfs)),
            },
        ),
{
    let fs = FileSystem::new(Some(registry.curfs));
    mount_fs(registry, fs)
}

impl Operations for FileSystem {
    open spec fn kind(&self) -> BackendKind {
        BackendKind::Synthetic
    }

    open spec fn state(&self) -> FsView {
        self@
    }

    fn mkdir(&mut self, dname: &str, fscheck: bool) -> (r: Result<i32, FsError>) {
        proof {
            lemma_make_directory_wf(self@, dname@, fscheck);
        }
        self.tree.make_directory(dname, fscheck)
    }

    fn read_file(&mut self, fname: &str, readings: &Readings) -> (r: Result<String, FsError>) {
        match self.regenerate(fname, readings) {
            Some(text) => {
                proof {
                    lemma_store_wf(self@, fname@, text@);
                }
                let _ = self.tree.store(fname, text.as_str());
            },
            None => {},
        }
        self.tree.fetch(fname)
    }

    fn write_file(&mut self, msg: &str) -> (r: WriteOutcome) {
        match split_message(msg) {
            None => WriteOutcome { result: Err(FsError::WriteUsage), colors: None },
            Some((fname, payload)) => {
                if !same_text(fname, "color") {
                    let result = match self.tree.resolve(fname) {
                        Ok(_) => Err(FsError::ReadOnly),
                        Err(e) => Err(e),
                    };
                    WriteOutcome { result, colors: None }
                } else {
                    match split_message(payload) {
                        None => WriteOutcome { result: Ok(()), colors: None },
                        Some((fg, bg)) => {
                            proof {
                                lemma_store_wf(self@, fname@, payload@);
                            }
                            match self.tree.store(fname, payload) {
                                Ok(()) => WriteOutcome {
                                    result: Ok(()),
                                    colors: Some((String::from_str(fg), String::from_str(bg))),
                                },
                                Err(e) => WriteOutcome { result: Err(e), colors: None },
                            }
                        },
                    }
                }
            },
        }
    }

    fn create_file(&mut self, fname: &str) -> (r: Result<i32, FsError>) {
        Err(FsError::CreationRefused)
    }

    fn remove_dir(&mut self, dname: &str) -> (r: Result<(), FsError>) {
        Err(FsError::DirectoryRemovalRefused)
    }

    fn remove_file(&mut self, fname: &str) -> (r: Result<(), FsError>) {
        Err(FsError::FileRemovalRefused)
    }

    fn get_path(&self) -> (r: String) {
        self.tree.path()
    }

    fn ls(&self) -> (r: Vec<String>) {
        self.tree.listing()
    }

    fn cd(&mut self, dname: &str) -> (r: Result<Navigation, FsError>) {
        proof {
            lemma_change_directory_wf(self@, dname@);
        }
        self.tree.change_directory(dname)
    }

    fn get_sb_info(&self, cycles: u64) -> (r: String) {
        self.tree.superblock.get_info(cycles)
    }

    fn get_path_inode(&self) -> (r: i32) {
        self.tree.cwd
    }

    fn get_parent(&self) -> (r: Option<i32>) {
        self.tree.parent_registry_index
    }

    fn get_sb_device(&self) -> (r: String) {
        self.tree.superblock.get_device()
    }

    fn speedtest(&mut self) -> (r: (Benchmark, Navigation)) {
        let moved = self.tree.fill_speedtest();
        (Benchmark::FilesInSeconds, moved)
    }

    fn speedtest2(&mut self) -> (r: Benchmark) {
        self.tree.fill_speedtest2("test", 100);
        Benchmark::TextInSeconds
    }
}

} // verus!
