//! The abstract model of one filesystem instance, and what each operation of
//! the tree does to it. Every back-end is specified against these functions.

use vstd::prelude::*;
use crate::fs::fs::{FsError, Navigation};
use crate::fs::text::{decimal, signed_decimal, split_at_space};

verus! {

/// A file as the contracts see it.
pub struct FileView {
    pub name: Seq<char>,
    pub content: Seq<char>,
}

/// A directory as the contracts see it.
pub struct DirView {
    pub name: Seq<char>,
    pub subdirectories: Map<i32, Seq<char>>,
    pub files: Map<i32, Seq<char>>,
    pub parent: Option<i32>,
}

/// A superblock as the contracts see it.
pub struct SuperblockView {
    pub device: Seq<char>,
    pub filecount: i32,
    pub dircount: i32,
}

impl SuperblockView {
    /// The report on the superblock: the device and the two counters, closed
    /// by the cycle counter of the machine.
    pub open spec fn report(self, cycles: u64) -> Seq<char> {
        "Device: "@ + self.device + "\nFilecount: "@ + signed_decimal(self.filecount as int)
            + "\nDircount: "@ + signed_decimal(self.dircount as int)
            + "\nCurrent time-stamp counter: "@ + decimal(cycles as nat)
    }
}

/// A filesystem instance as the contracts see it.
pub struct FsView {
    pub superblock: SuperblockView,
    pub next_inode: i32,
    pub next_mount_slot: i32,
    pub directories: Map<i32, DirView>,
    pub files: Map<i32, FileView>,
    pub cwd: i32,
    pub parent_registry_index: Option<i32>,
}

/// A counter of the superblock after one more entry. The counters only
/// report, so at the largest number they can hold they stay where they are.
pub open spec fn raised(count: i32) -> i32 {
    if count < i32::MAX {
        (count + 1) as i32
    } else {
        count
    }
}

/// A counter of the superblock after one entry less. At the smallest number
/// it can hold it stays where it is.
pub open spec fn lowered(count: i32) -> i32 {
    if count > i32::MIN {
        (count - 1) as i32
    } else {
        count
    }
}

/// The inode of the root directory of every instance.
pub const ROOT_INODE: i32 = 1;

/// `k` is the least identifier that `listing` gives to `name`.
pub open spec fn is_first_named(listing: Map<i32, Seq<char>>, name: Seq<char>, k: i32) -> bool {
    &&& listing.contains_key(k)
    &&& listing[k] == name
    &&& forall|j: i32| listing.contains_key(j) && listing[j] == name ==> k <= j
}

/// The identifier under which `listing` holds `name`: the least one, should
/// there be several.
pub open spec fn named(listing: Map<i32, Seq<char>>, name: Seq<char>) -> Option<i32> {
    if exists|k: i32| is_first_named(listing, name, k) {
        Some(choose|k: i32| is_first_named(listing, name, k))
    } else {
        None
    }
}

/// No two identifiers of `listing` carry the same name.
pub open spec fn names_unique(listing: Map<i32, Seq<char>>) -> bool {
    forall|i: i32, j: i32|
        listing.contains_key(i) && listing.contains_key(j) && listing[i] == listing[j] ==> i == j
}

/// The identifiers of `dom` below `hi`, in increasing order.
pub open spec fn keys_below(dom: Set<i32>, hi: int) -> Seq<i32>
    decreases hi - i32::MIN,
{
    if hi <= i32::MIN {
        Seq::empty()
    } else {
        let rest = keys_below(dom, hi - 1);
        if dom.contains((hi - 1) as i32) {
            rest.push((hi - 1) as i32)
        } else {
            rest
        }
    }
}

/// All identifiers of `dom`, in increasing order.
pub open spec fn ascending(dom: Set<i32>) -> Seq<i32> {
    keys_below(dom, i32::MAX + 1)
}

/// The lines that list `keys` of `listing`, each behind the marker of its kind.
pub open spec fn listing_lines(
    marker: Seq<char>,
    keys: Seq<i32>,
    listing: Map<i32, Seq<char>>,
) -> Seq<Seq<char>> {
    Seq::new(keys.len(), |i: int| marker + listing[keys[i]])
}

impl FsView {
    /// An instance that holds its root directory, stored under the name
    /// `root`, and nothing else, with the root as the current directory. The
    /// root counts as created in a directory that no table holds.
    pub open spec fn fresh(device: Seq<char>, root: Seq<char>, host: Option<i32>) -> FsView {
        FsView {
            superblock: SuperblockView { device, filecount: 0, dircount: 0 },
            next_inode: ROOT_INODE,
            next_mount_slot: 0,
            directories: Map::empty().insert(
                ROOT_INODE,
                DirView {
                    name: root,
                    subdirectories: Map::empty(),
                    files: Map::empty(),
                    parent: Some(0),
                },
            ),
            files: Map::empty(),
            cwd: ROOT_INODE,
            parent_registry_index: host,
        }
    }

    /// Whether the directory table knows the current directory.
    pub open spec fn has_cwd(self) -> bool {
        self.directories.contains_key(self.cwd)
    }

    /// The current directory.
    pub open spec fn current(self) -> DirView
        recommends
            self.has_cwd(),
    {
        self.directories[self.cwd]
    }

    /// The identifier of the subdirectory of the current directory called `name`.
    pub open spec fn find_dir(self, name: Seq<char>) -> Option<i32> {
        if self.has_cwd() {
            named(self.current().subdirectories, name)
        } else {
            None
        }
    }

    /// The identifier of the file in the current directory called `name`.
    pub open spec fn find_file(self, name: Seq<char>) -> Option<i32> {
        if self.has_cwd() {
            named(self.current().files, name)
        } else {
            None
        }
    }

    /// The instance is well formed: its tables are consistent, and the
    /// current directory is one of its directories and hangs below the root
    /// through parents that are in the table and each list their child.
    pub open spec fn wf(self) -> bool {
        self.tables_wf() && self.has_cwd() && self.reaches_root(self.cwd)
    }

    /// The superblock counts what the tables hold: every directory but the
    /// root, and every file. Every instance starts out like this and stays so
    /// for as long as its counters have room; no operation depends on it.
    pub open spec fn counts_exact(self) -> bool {
        &&& self.superblock.dircount == self.directories.len() - 1
        &&& self.superblock.filecount == self.files.len()
    }

    /// Every directory but the root is listed by its parent, and every file
    /// by some directory: nothing in the tables is out of reach.
    pub open spec fn all_listed(self) -> bool {
        &&& forall|k: i32| #[trigger]
            self.directories.contains_key(k) && k != ROOT_INODE ==> {
                let parent = self.directories[k].parent->0;
                &&& self.directories.contains_key(parent)
                &&& self.directories[parent].subdirectories.contains_key(k)
            }
        &&& forall|k: i32| #[trigger]
            self.files.contains_key(k) ==> exists|d: i32|
                self.directories.contains_key(d) && #[trigger] self.directories[d].files.contains_key(k)
    }

    /// Whether the directory `inode` hangs below the root through parents
    /// that are in the table and each list their child.
    pub open spec fn reaches_root(self, inode: i32) -> bool
        decreases inode,
    {
        if inode == ROOT_INODE {
            self.directories.contains_key(ROOT_INODE)
        } else if inode <= 0 || !self.directories.contains_key(inode) {
            false
        } else {
            match self.directories[inode].parent {
                Some(parent) => {
                    &&& 0 < parent < inode
                    &&& self.directories.contains_key(parent)
                    &&& self.directories[parent].subdirectories.contains_key(inode)
                    &&& self.reaches_root(parent)
                },
                None => false,
            }
        }
    }

    /// The tables are consistent with one another and with the identifier
    /// counters: the root is there, every identifier lies between the counters
    /// on the side of its kind, every directory hangs below an older one, and
    /// every listing names entries of the tables under their own names and no
    /// name twice.
    pub open spec fn tables_wf(self) -> bool {
        &&& self.next_mount_slot <= 0
        &&& 0 < self.cwd <= self.next_inode
        &&& self.directories.contains_key(ROOT_INODE)
        &&& self.directories[ROOT_INODE].parent == Some(0i32)
        &&& self.directories.dom().finite()
        &&& self.files.dom().finite()
        &&& forall|k: i32| #[trigger]
            self.directories.contains_key(k) ==> {
                &&& k != 0
                &&& self.next_mount_slot <= k <= self.next_inode
                &&& !self.files.contains_key(k)
                &&& self.directories[k].parent is Some
                &&& self.directories[k].parent->0 <= self.next_inode
                &&& k != ROOT_INODE ==> 0 < self.directories[k].parent->0
                &&& k > 0 ==> self.directories[k].parent->0 < k
                &&& names_unique(self.directories[k].subdirectories)
                &&& names_unique(self.directories[k].files)
            }
        &&& forall|k: i32| #[trigger] self.files.contains_key(k) ==> 0 < k <= self.next_inode
        &&& forall|d: i32, i: i32|
            self.directories.contains_key(d) && #[trigger] self.directories[d].subdirectories.contains_key(i)
                ==> {
                &&& self.directories.contains_key(i)
                &&& self.directories[i].name == self.directories[d].subdirectories[i]
                &&& self.directories[i].parent == Some(d)
            }
        &&& forall|d: i32, i: i32|
            self.directories.contains_key(d) && #[trigger] self.directories[d].files.contains_key(i) ==> {
                &&& self.files.contains_key(i)
                &&& self.files[i].name == self.directories[d].files[i]
            }
        &&& forall|d: i32, e: i32, i: i32|
            self.directories.contains_key(d) && self.directories.contains_key(e)
                && #[trigger] self.directories[d].files.contains_key(i)
                && #[trigger] self.directories[e].files.contains_key(i) ==> d == e
    }

    /// Whether the identifiers for one more directory have run out: those
    /// below zero for a mount anchor, those above for any other.
    pub open spec fn directories_exhausted(self, anchor: bool) -> bool {
        if anchor {
            self.next_mount_slot == i32::MIN
        } else {
            self.next_inode == i32::MAX
        }
    }

    /// Whether the identifiers for one more file have run out.
    pub open spec fn files_exhausted(self) -> bool {
        self.next_inode == i32::MAX
    }

    /// Creates the directory `name` in the current directory. A mount anchor
    /// takes the next identifier below zero, any other directory the next one
    /// above. While the directory table does not know the current directory the
    /// new entry is stored without being listed anywhere.
    pub open spec fn make_directory(self, name: Seq<char>, anchor: bool) -> (
        FsView,
        Result<i32, FsError>,
    ) {
        if self.find_dir(name) is Some {
            (self, Err(FsError::DirectoryExists))
        } else if self.directories_exhausted(anchor) {
            (self, Err(FsError::InodesExhausted))
        } else {
            let inode: i32 = if anchor {
                (self.next_mount_slot - 1) as i32
            } else {
                (self.next_inode + 1) as i32
            };
            let entry = DirView {
                name,
                subdirectories: Map::empty(),
                files: Map::empty(),
                parent: Some(self.cwd),
            };
            let stored = self.directories.insert(inode, entry);
            let listed = if stored.contains_key(self.cwd) {
                stored.insert(
                    self.cwd,
                    DirView {
                        subdirectories: stored[self.cwd].subdirectories.insert(inode, name),
                        ..stored[self.cwd]
                    },
                )
            } else {
                stored
            };
            (
                FsView {
                    superblock: SuperblockView {
                        dircount: raised(self.superblock.dircount),
                        ..self.superblock
                    },
                    next_inode: if anchor {
                        self.next_inode
                    } else {
                        inode
                    },
                    next_mount_slot: if anchor {
                        inode
                    } else {
                        self.next_mount_slot
                    },
                    directories: listed,
                    ..self
                },
                Ok(inode),
            )
        }
    }

    /// Creates the empty file `name` in the current directory.
    pub open spec fn make_file(self, name: Seq<char>) -> (FsView, Result<i32, FsError>) {
        if !self.has_cwd() {
            (self, Err(FsError::DirectoryNotInTable))
        } else if self.find_file(name) is Some {
            (self, Err(FsError::FileExists))
        } else if self.files_exhausted() {
            (self, Err(FsError::InodesExhausted))
        } else {
            let inode: i32 = (self.next_inode + 1) as i32;
            let entry = FileView { name, content: Seq::empty() };
            (
                FsView {
                    superblock: SuperblockView {
                        filecount: raised(self.superblock.filecount),
                        ..self.superblock
                    },
                    next_inode: inode,
                    files: self.files.insert(inode, entry),
                    directories: self.directories.insert(
                        self.cwd,
                        DirView {
                            files: self.current().files.insert(inode, name),
                            ..self.current()
                        },
                    ),
                    ..self
                },
                Ok(inode),
            )
        }
    }

    /// The identifier of the file `name` of the current directory, once it is
    /// found in the listing and in the file table.
    pub open spec fn resolve_file(self, name: Seq<char>) -> Result<i32, FsError> {
        if !self.has_cwd() {
            Err(FsError::FileNotInTable)
        } else {
            match self.find_file(name) {
                None => Err(FsError::FileNotInDirectory),
                Some(inode) => if self.files.contains_key(inode) {
                    Ok(inode)
                } else {
                    Err(FsError::FileNotInTable)
                },
            }
        }
    }

    /// The content of the file `name` of the current directory.
    pub open spec fn read(self, name: Seq<char>) -> Result<Seq<char>, FsError> {
        match self.resolve_file(name) {
            Ok(inode) => Ok(self.files[inode].content),
            Err(e) => Err(e),
        }
    }

    /// Replaces the content of the file `name` of the current directory.
    pub open spec fn store(self, name: Seq<char>, content: Seq<char>) -> (
        FsView,
        Result<(), FsError>,
    ) {
        match self.resolve_file(name) {
            Ok(inode) => (
                FsView {
                    files: self.files.insert(inode, FileView { content, ..self.files[inode] }),
                    ..self
                },
                Ok(()),
            ),
            Err(e) => (self, Err(e)),
        }
    }

    /// Takes `message` apart at its first space into a file name and a payload,
    /// and stores the payload in that file.
    pub open spec fn write(self, message: Seq<char>) -> (FsView, Result<(), FsError>) {
        match split_at_space(message) {
            None => (self, Err(FsError::WriteUsage)),
            Some((name, payload)) => self.store(name, payload),
        }
    }

    /// Removes the subdirectory `name` of the current directory from the
    /// listing and from the directory table. What it held stays in the tables,
    /// out of reach.
    pub open spec fn remove_directory(self, name: Seq<char>) -> (FsView, Result<(), FsError>) {
        if !self.has_cwd() {
            (self, Err(FsError::DirectoryNotInTable))
        } else {
            match self.find_dir(name) {
                None => (self, Err(FsError::NoSuchDirectory)),
                Some(inode) => {
                    let dropped = self.directories.remove(inode);
                    let listing = self.current().subdirectories.remove(inode);
                    let unlisted = if dropped.contains_key(self.cwd) {
                        dropped.insert(
                            self.cwd,
                            DirView { subdirectories: listing, ..self.current() },
                        )
                    } else {
                        dropped
                    };
                    (
                        FsView {
                            superblock: SuperblockView {
                                dircount: lowered(self.superblock.dircount),
                                ..self.superblock
                            },
                            directories: unlisted,
                            ..self
                        },
                        Ok(()),
                    )
                },
            }
        }
    }

    /// Removes the file `name` of the current directory from the listing and
    /// from the file table.
    pub open spec fn remove_file(self, name: Seq<char>) -> (FsView, Result<(), FsError>) {
        if !self.has_cwd() {
            (self, Err(FsError::FileNotInTable))
        } else {
            match self.find_file(name) {
                None => (self, Err(FsError::NoSuchFile)),
                Some(inode) => (
                    FsView {
                        superblock: SuperblockView {
                            filecount: lowered(self.superblock.filecount),
                            ..self.superblock
                        },
                        files: self.files.remove(inode),
                        directories: self.directories.insert(
                            self.cwd,
                            DirView {
                                files: self.current().files.remove(inode),
                                ..self.current()
                            },
                        ),
                        ..self
                    },
                    Ok(()),
                ),
            }
        }
    }

    /// Changes the current directory. `..` at the root hands over to the host
    /// if there is one and is a no-op otherwise; elsewhere it leads to the
    /// parent, and is a no-op where the current directory names no parent. A
    /// name leads into the subdirectory of that name, unless that is
    /// a mount anchor: then the instance stays as it is and signals the
    /// boundary.
    pub open spec fn change_directory(self, name: Seq<char>) -> (
        FsView,
        Result<Navigation, FsError>,
    ) {
        if name == ".."@ {
            if self.cwd == ROOT_INODE {
                match self.parent_registry_index {
                    Some(host) => (self, Ok(Navigation::Host(host))),
                    None => (self, Ok(Navigation::Local)),
                }
            } else if self.has_cwd() && self.current().parent is Some {
                (FsView { cwd: self.current().parent->0, ..self }, Ok(Navigation::Local))
            } else {
                (self, Ok(Navigation::Local))
            }
        } else {
            match self.find_dir(name) {
                None => (self, Err(FsError::DirectoryNotFound)),
                Some(inode) => if inode <= 0 {
                    (self, Ok(Navigation::Mount))
                } else {
                    (FsView { cwd: inode, ..self }, Ok(Navigation::Local))
                },
            }
        }
    }

    /// The names of the directories from below the root down to `inode`, each
    /// followed by a slash.
    pub open spec fn trail(self, inode: i32) -> Seq<char>
        decreases inode,
    {
        if inode <= ROOT_INODE || !self.directories.contains_key(inode) {
            Seq::empty()
        } else {
            let dir = self.directories[inode];
            let above = match dir.parent {
                Some(p) => if 0 <= p < inode {
                    self.trail(p)
                } else {
                    Seq::empty()
                },
                None => Seq::empty(),
            };
            above + dir.name + "/"@
        }
    }

    /// What stands in front of every path of the instance: a slash for the
    /// top-level filesystem, the device name and a slash for any other.
    pub open spec fn path_prefix(self) -> Seq<char> {
        if self.superblock.device == "SVFS"@ {
            "/"@
        } else {
            self.superblock.device + "/"@
        }
    }

    /// The path of the current directory within the instance.
    pub open spec fn path(self) -> Seq<char> {
        self.path_prefix() + self.trail(self.cwd)
    }

    /// The lines that list the current directory: the subdirectories, then the
    /// files, each kind in the order of its identifiers.
    pub open spec fn listing(self) -> Seq<Seq<char>> {
        if self.has_cwd() {
            listing_lines(
                "d - "@,
                ascending(self.current().subdirectories.dom()),
                self.current().subdirectories,
            ) + listing_lines(
                "f - "@,
                ascending(self.current().files.dom()),
                self.current().files,
            )
        } else {
            Seq::empty()
        }
    }
}

} // verus!
