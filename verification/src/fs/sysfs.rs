//! The hybrid back-end: a plain tree with one protected file that a bus scan
//! fills whenever it is read.

use vstd::prelude::*;
use vstd::string::*;
use crate::fs::consistency::{
    lemma_change_directory_wf, lemma_fresh, lemma_make_directory_wf, lemma_make_file_kept,
    lemma_make_file_wf,
    lemma_remove_directory_wf, lemma_remove_file_wf, lemma_store_wf,
};
use crate::fs::fs::{BackendKind, Benchmark, FsError, Navigation, Operations};
use crate::fs::model::FsView;
use crate::fs::policy::{hybrid_tree, Readings, WriteOutcome};
use crate::fs::registry::{Backend, BackendView, Registry};
use crate::fs::svfs;
use crate::fs::text::{same_text, split_at_space};

verus! {

/// The hybrid back-end.
#[derive(Clone, Debug)]
pub struct FileSystem {
    /// The tables and counters, kept as a plain tree.
    pub tree: svfs::FileSystem,
}

impl View for FileSystem {
    type V = FsView;

    open spec fn view(&self) -> FsView {
        self.tree@
    }
}

impl FileSystem {
    /// The back-end as it is mounted, hosted by the registry entry `host`.
    pub fn new(host: Option<i32>) -> (r: FileSystem)
        ensures
            r@.wf(),
            r@.all_listed(),
            r@.counts_exact(),
            r@ == hybrid_tree(host),
    {
        let mut tree = svfs::FileSystem::new("sys", "testfs", host);
        proof {
            lemma_fresh("sys"@, "testfs"@, host);
            lemma_make_file_wf(tree@, "pci"@);
            lemma_make_file_kept(tree@, "pci"@);
        }
        let _ = tree.make_file("pci");
        FileSystem { tree }
    }
}

/// Mounts `fs` in `registry`: plants an anchor with its device name in the
/// current directory of the active filesystem, and puts `fs` at the end of the
/// list. Hands back the identifier of the anchor.
pub fn mount_fs(registry: &mut Registry, fs: FileSystem) -> (r: Result<i32, FsError>)
    requires
        old(registry)@.wf(),
        old(registry)@.fslist.len() < i32::MAX,
        fs@.wf(),
    ensures
        final(registry)@.wf(),
        (final(registry)@, r) == old(registry)@.mount(
            BackendView { kind: BackendKind::Hybrid, fs: fs@ },
        ),
{
    registry.mount(Backend::Hybrid(fs))
}

/// Builds the hybrid back-end with the active filesystem as its host and
/// mounts it there.
pub fn init_sysfs(registry: &mut Registry) -> (r: Result<i32, FsError>)
    requires
        old(registry)@.wf(),
        old(registry)@.fslist.len() < i32::MAX,
    ensures
        final(registry)@.wf(),
        (final(registry)@, r) == old(registry)@.mount(
            BackendView { kind: BackendKind::Hybrid, fs: hybrid_tree(Some(old(registry)@.curfs)) },
        ),
{
    let fs = FileSystem::new(Some(registry.curfs));
    mount_fs(registry, fs)
}

impl Operations for FileSystem {
    open spec fn kind(&self) -> BackendKind {
        BackendKind::Hybrid
    }

    open spec fn state(&self) -> FsView {
        self@
    }

    fn mkdir(&mut self, dname: &str, fscheck: bool) -> (r: Result<i32, FsError>) {
        proof {
            lemma_make_directory_wf(self@, dname@, fscheck);
        }
        self.tree.make_directory(dname, fscheck)
    }

    fn read_file(&mut self, fname: &str, readings: &Readings) -> (r: Result<String, FsError>) {
        if same_text(fname, "pci") {
            proof {
                lemma_store_wf(self@, fname@, readings.bus_report@);
            }
            match self.tree.store(fname, readings.bus_report.as_str()) {
                Ok(_) => Ok(readings.bus_report.clone()),
                Err(e) => Err(e),
            }
        } else {
            self.tree.fetch(fname)
        }
    }

    fn write_file(&mut self, msg: &str) -> (r: WriteOutcome) {
        proof {
            match split_at_space(msg@) {
                Some((fname, payload)) => {
                    lemma_store_wf(self@, fname, payload);
                },
                None => {},
            }
        }
        WriteOutcome { result: self.tree.write(msg), colors: None }
    }

    fn create_file(&mut self, fname: &str) -> (r: Result<i32, FsError>) {
        proof {
            lemma_make_file_wf(self@, fname@);
        }
        self.tree.make_file(fname)
    }

    fn remove_dir(&mut self, dname: &str) -> (r: Result<(), FsError>) {
        proof {
            lemma_remove_directory_wf(self@, dname@);
        }
        self.tree.delete_directory(dname)
    }

    fn remove_file(&mut self, fname: &str) -> (r: Result<(), FsError>) {
        if same_text(fname, "pci") {
            return Err(FsError::ProtectedFile);
        }
        proof {
            lemma_remove_file_wf(self@, fname@);
        }
        self.tree.delete_file(fname)
    }

    fn get_path(&self) -> (r: String) {
        self.tree.path()
    }

    fn ls(&self) -> (r: Vec<String>) {
        self.tree.listing()
    }

    fn cd(&mut self, dname: &str) -> (r: Result<Navigation, FsError>) {
        proof {
            lemma_change_directory_wf(self@, dname@);
        }
        self.tree.change_directory(dname)
    }

    fn get_sb_info(&self, cycles: u64) -> (r: String) {
        self.tree.superblock.get_info(cycles)
    }

    fn get_path_inode(&self) -> (r: i32) {
        self.tree.cwd
    }

    fn get_parent(&self) -> (r: Option<i32>) {
        self.tree.parent_registry_index
    }

    fn get_sb_device(&self) -> (r: String) {
        self.tree.superblock.get_device()
    }

    fn speedtest(&mut self) -> (r: (Benchmark, Navigation)) {
        let moved = self.tree.fill_speedtest();
        (Benchmark::FilesInSeconds, moved)
    }

    fn speedtest2(&mut self) -> (r: Benchmark) {
        self.tree.fill_speedtest2("test", 100);
        Benchmark::TextInSeconds
    }
}

} // verus!
