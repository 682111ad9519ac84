//! What tells the back-ends apart: which operations each one refuses, which
//! files it rewrites when they are read, and what its self-tests store.

use vstd::prelude::*;
use crate::fs::fs::{BackendKind, Benchmark, FsError, Navigation};
use crate::fs::model::{ascending, DirView, FileView, FsView};
use crate::fs::text::{decimal, repeated, signed_decimal, split_at_space, upper_hex};

verus! {

/// What the machine reported when a command came in: the bounds of the heap,
/// the uptime counter, the cycle counter, and the report of a bus scan.
#[derive(Debug)]
pub struct Readings {
    pub heap_size: u64,
    pub heap_start: u64,
    pub uptime: u64,
    pub cycles: u64,
    pub bus_report: String,
}

/// The readings as the contracts see them.
pub struct ReadingsView {
    pub heap_size: u64,
    pub heap_start: u64,
    pub uptime: u64,
    pub cycles: u64,
    pub bus_report: Seq<char>,
}

impl View for Readings {
    type V = ReadingsView;

    open spec fn view(&self) -> ReadingsView {
        ReadingsView {
            heap_size: self.heap_size,
            heap_start: self.heap_start,
            uptime: self.uptime,
            cycles: self.cycles,
            bus_report: self.bus_report@,
        }
    }
}

/// What a write did besides answering: the colours that the caller has to
/// hand on to the display, if the write named any.
#[derive(Debug)]
pub struct WriteOutcome {
    pub result: Result<(), FsError>,
    pub colors: Option<(String, String)>,
}

/// The outcome of a write as the contracts see it.
pub struct WriteOutcomeView {
    pub result: Result<(), FsError>,
    pub colors: Option<(Seq<char>, Seq<char>)>,
}

impl View for WriteOutcome {
    type V = WriteOutcomeView;

    open spec fn view(&self) -> WriteOutcomeView {
        WriteOutcomeView {
            result: self.result,
            colors: match self.colors {
                Some((fg, bg)) => Some((fg@, bg@)),
                None => None,
            },
        }
    }
}

/// The characters of a text that an operation handed back, or its failure.
pub open spec fn text_of(r: Result<String, FsError>) -> Result<Seq<char>, FsError> {
    match r {
        Ok(text) => Ok(text@),
        Err(e) => Err(e),
    }
}

/// The characters of each line of a list of lines.
pub open spec fn lines_of(lines: Seq<String>) -> Seq<Seq<char>> {
    lines.map_values(|line: String| line@)
}

/// The content of the memory file: the size of the heap in decimal and its
/// start in hexadecimal.
pub open spec fn meminfo_text(heap_size: u64, heap_start: u64) -> Seq<char> {
    "Heap Size: "@ + decimal(heap_size as nat) + " bytes\nHeap Start: 0x"@ + upper_hex(
        heap_start as nat,
    )
}

/// The content of the uptime file.
pub open spec fn uptime_text(uptime: u64) -> Seq<char> {
    "System running time: "@ + decimal(uptime as nat) + " seconds."@
}

/// The content of the mounts file.
pub open spec fn mounts_text(device: Seq<char>) -> Seq<char> {
    "Currently mounted filesystem: "@ + device
}

/// One row for each of `keys`: the identifier, seven spaces, the name.
pub open spec fn inode_rows(keys: Seq<i32>, names: Map<i32, Seq<char>>) -> Seq<char>
    decreases keys.len(),
{
    if keys.len() == 0 {
        Seq::empty()
    } else {
        inode_rows(keys.drop_last(), names) + signed_decimal(keys.last() as int) + "       "@
            + names[keys.last()] + "\n"@
    }
}

/// The name of every directory of the table.
pub open spec fn directory_names(v: FsView) -> Map<i32, Seq<char>> {
    v.directories.map_values(|d: DirView| d.name)
}

/// The name of every file of the table.
pub open spec fn file_names(v: FsView) -> Map<i32, Seq<char>> {
    v.files.map_values(|f: FileView| f.name)
}

/// The content of the inode-state file: the inode counter, the current
/// directory, and a row for every directory and then every file of the
/// tables, each kind in the order of its identifiers.
pub open spec fn inode_state_text(v: FsView) -> Seq<char> {
    "InodeCount: "@ + signed_decimal(v.next_inode as int) + "\nCurrent Path: "@ + signed_decimal(
        v.cwd as int,
    ) + "\nInode   Dirname/Filename\n"@ + inode_rows(
        ascending(v.directories.dom()),
        directory_names(v),
    ) + inode_rows(ascending(v.files.dom()), file_names(v))
}

/// What the synthetic back-end writes into the file `name` before it reads
/// it, for the four names that it derives from live state.
pub open spec fn regenerated(v: FsView, name: Seq<char>, readings: ReadingsView) -> Option<
    Seq<char>,
> {
    if name == "meminfo"@ {
        Some(meminfo_text(readings.heap_size, readings.heap_start))
    } else if name == "uptime"@ {
        Some(uptime_text(readings.uptime))
    } else if name == "mounts"@ {
        Some(mounts_text(v.superblock.device))
    } else if name == "inode-state"@ {
        Some(inode_state_text(v))
    } else {
        None
    }
}

/// Reading the file `name` of the current directory. The synthetic back-end
/// first rewrites the files it derives; the hybrid one fills its bus file
/// with the report of the scan and hands that back.
pub open spec fn read_step(kind: BackendKind, v: FsView, name: Seq<char>, readings: ReadingsView) -> (
    FsView,
    Result<Seq<char>, FsError>,
) {
    match kind {
        BackendKind::Root => (v, v.read(name)),
        BackendKind::Synthetic => {
            let fresh = match regenerated(v, name, readings) {
                Some(text) => v.store(name, text).0,
                None => v,
            };
            (fresh, fresh.read(name))
        },
        BackendKind::Hybrid => if name == "pci"@ {
            let (filled, stored) = v.store(name, readings.bus_report);
            (
                filled,
                match stored {
                    Ok(_) => Ok(readings.bus_report),
                    Err(e) => Err(e),
                },
            )
        } else {
            (v, v.read(name))
        },
    }
}

/// Writing `message`, which holds a file name, a space and a payload. The
/// synthetic back-end keeps every file read-only but the colour file: a
/// payload of two colours with a space between them is stored there like any
/// other payload, and once it is stored the colours go to the caller. Where
/// the current directory holds no colour file nothing is stored and no colour
/// is handed on. A payload without a space names one colour at most and
/// changes nothing.
pub open spec fn write_step(kind: BackendKind, v: FsView, message: Seq<char>) -> (
    FsView,
    WriteOutcomeView,
) {
    match kind {
        BackendKind::Synthetic => match split_at_space(message) {
            None => (v, WriteOutcomeView { result: Err(FsError::WriteUsage), colors: None }),
            Some((name, payload)) => if name != "color"@ {
                (
                    v,
                    WriteOutcomeView {
                        result: match v.resolve_file(name) {
                            Ok(_) => Err(FsError::ReadOnly),
                            Err(e) => Err(e),
                        },
                        colors: None,
                    },
                )
            } else {
                match split_at_space(payload) {
                    None => (v, WriteOutcomeView { result: Ok(()), colors: None }),
                    Some((fg, bg)) => {
                        let (kept, result) = v.store(name, payload);
                        (
                            kept,
                            WriteOutcomeView {
                                result,
                                colors: if result is Ok {
                                    Some((fg, bg))
                                } else {
                                    None
                                },
                            },
                        )
                    },
                }
            },
        },
        _ => (v.write(message).0, WriteOutcomeView { result: v.write(message).1, colors: None }),
    }
}

/// Creating the file `name`. The synthetic back-end takes no new files.
pub open spec fn create_file_step(kind: BackendKind, v: FsView, name: Seq<char>) -> (
    FsView,
    Result<i32, FsError>,
) {
    if kind == BackendKind::Synthetic {
        (v, Err(FsError::CreationRefused))
    } else {
        v.make_file(name)
    }
}

/// Removing the directory `name`. The synthetic back-end gives up none.
pub open spec fn remove_dir_step(kind: BackendKind, v: FsView, name: Seq<char>) -> (
    FsView,
    Result<(), FsError>,
) {
    if kind == BackendKind::Synthetic {
        (v, Err(FsError::DirectoryRemovalRefused))
    } else {
        v.remove_directory(name)
    }
}

/// Removing the file `name`. The synthetic back-end gives up none, the hybrid
/// one protects its bus file.
pub open spec fn remove_file_step(kind: BackendKind, v: FsView, name: Seq<char>) -> (
    FsView,
    Result<(), FsError>,
) {
    if kind == BackendKind::Synthetic {
        (v, Err(FsError::FileRemovalRefused))
    } else if kind == BackendKind::Hybrid && name == "pci"@ {
        (v, Err(FsError::ProtectedFile))
    } else {
        v.remove_file(name)
    }
}

/// The root of the synthetic back-end as it is mounted: the files `meminfo`,
/// `mounts`, `uptime` and `color`, the last with the content `Black Yellow`,
/// and the directory `sys`.
pub open spec fn synthetic_root(host: Option<i32>) -> FsView {
    FsView::fresh("proc"@, "proc"@, host).make_file("meminfo"@).0.make_file("mounts"@).0.make_file(
        "uptime"@,
    ).0.make_file("color"@).0.store("color"@, "Black Yellow"@).0.make_directory("sys"@, false).0
}

/// The synthetic back-end as it is mounted. Below its root, `sys` holds the
/// directory `fs`, and `fs` holds the file `inode-state`. The root is the
/// current directory.
pub open spec fn synthetic_tree(host: Option<i32>) -> FsView {
    let in_sys = synthetic_root(host).change_directory("sys"@).0;
    let in_fs = in_sys.make_directory("fs"@, false).0.change_directory("fs"@).0;
    let filled = in_fs.make_file("inode-state"@).0;
    filled.change_directory(".."@).0.change_directory(".."@).0
}

/// The hybrid back-end as it is mounted: a root, stored under the name
/// `testfs`, that holds the bus file `pci`.
pub open spec fn hybrid_tree(host: Option<i32>) -> FsView {
    FsView::fresh("sys"@, "testfs"@, host).make_file("pci"@).0
}

/// `v` after the files `test1` to `test` followed by `count` were created one
/// after the other in its current directory; those that could not be created
/// are passed over.
pub open spec fn with_numbered_files(v: FsView, count: nat) -> FsView
    decreases count,
{
    if count == 0 {
        v
    } else {
        with_numbered_files(v, (count - 1) as nat).make_file("test"@ + decimal(count)).0
    }
}

/// The number of files that the first self-test creates.
pub const SPEEDTEST_FILES: u32 = 999;

/// The first self-test: a directory `speedtest` in the current directory, 999
/// numbered files in it, and back up. It hands back where the last step led.
pub open spec fn speedtest_step(v: FsView) -> (FsView, Navigation) {
    let made = v.make_directory("speedtest"@, false).0;
    let entered = made.change_directory("speedtest"@).0;
    let filled = with_numbered_files(entered, SPEEDTEST_FILES as nat);
    let (left, moved) = filled.change_directory(".."@);
    (
        left,
        match moved {
            Ok(to) => to,
            Err(_) => Navigation::Local,
        },
    )
}

/// What the first self-test measures on each back-end.
pub open spec fn speedtest_benchmark(kind: BackendKind) -> Benchmark {
    if kind == BackendKind::Root {
        Benchmark::FilesInCycles
    } else {
        Benchmark::FilesInSeconds
    }
}

/// The long text that the second self-test stores.
pub open spec fn speedtest2_text(kind: BackendKind) -> Seq<char> {
    if kind == BackendKind::Root {
        repeated("ABCDEFGHIJ"@, 8192)
    } else {
        repeated("test"@, 100)
    }
}

/// The second self-test: a file `speed` in the current directory that holds
/// the long text.
pub open spec fn speedtest2_step(kind: BackendKind, v: FsView) -> FsView {
    v.make_file("speed"@).0.store("speed"@, speedtest2_text(kind)).0
}

/// What the second self-test measures on each back-end.
pub open spec fn speedtest2_benchmark(kind: BackendKind) -> Benchmark {
    if kind == BackendKind::Root {
        Benchmark::TextInCycles(81926)
    } else {
        Benchmark::TextInSeconds
    }
}

/// The line that reports a self-test which took `elapsed` units of time.
pub open spec fn benchmark_text(benchmark: Benchmark, elapsed: u64) -> Seq<char> {
    match benchmark {
        Benchmark::FilesInCycles => "Created 1000 empty files in "@ + decimal(elapsed as nat)
            + " cycles"@,
        Benchmark::FilesInSeconds => "Created 500 empty files in "@ + decimal(elapsed as nat)
            + " seconds"@,
        Benchmark::TextInCycles(size) => "File with a string of size "@ + decimal(size as nat)
            + " created in "@ + decimal(elapsed as nat) + " cycles"@,
        Benchmark::TextInSeconds => "File with a string of size 400 created in "@ + decimal(
            elapsed as nat,
        ) + " seconds"@,
    }
}

} // verus!
