//! What holds of the tree whatever it contains: collisions, identifiers,
//! paths and removal.

use vstd::prelude::*;
use crate::fs::consistency::{
    lemma_change_directory_wf, lemma_count_positive, lemma_make_directory_wf,
    lemma_make_file_wf, lemma_named,
};
use crate::fs::fs::{BackendKind, FsError, Navigation};
use crate::fs::model::{names_unique, DirView, FileView, FsView};
use crate::fs::policy::{
    create_file_step, read_step, remove_dir_step, remove_file_step, speedtest2_step,
    speedtest_step, uptime_text, with_numbered_files, write_step, ReadingsView, WriteOutcomeView,
    SPEEDTEST_FILES,
};
use crate::fs::text::{
    decimal, lemma_decimal_injective, lemma_framed_text, lemma_no_space_no_split,
    lemma_split_joined, split_at_space,
};

verus! {

/// Creating a directory under a name that the current directory already
/// gives to a directory changes nothing and reports the collision; and that is
/// the only way in which the collision is reported.
pub proof fn law_directory_collision(v: FsView, name: Seq<char>, anchor: bool)
    ensures
        v.make_directory(name, anchor).1 == Err::<i32, FsError>(FsError::DirectoryExists) <==> v.has_cwd()
            && exists|k: i32|
            v.current().subdirectories.contains_key(k) && v.current().subdirectories[k] == name,
        v.make_directory(name, anchor).1 is Err ==> v.make_directory(name, anchor).0 == v,
{
    if v.has_cwd() {
        lemma_named(v.current().subdirectories, name);
    }
}

/// Creating a file under a name that the current directory already gives to
/// a file changes nothing and reports the collision; and that is the only way
/// in which the collision is reported.
pub proof fn law_file_collision(v: FsView, name: Seq<char>)
    ensures
        v.make_file(name).1 == Err::<i32, FsError>(FsError::FileExists) <==> v.has_cwd() && exists|k: i32|
            v.current().files.contains_key(k) && v.current().files[k] == name,
        v.make_file(name).1 is Err ==> v.make_file(name).0 == v,
{
    if v.has_cwd() {
        lemma_named(v.current().files, name);
    }
}

/// A directory and a file may share a name: creating the one does not change
/// which files, or which directories, the current directory holds under any
/// name. Creating the same kind twice under one name is rejected.
pub proof fn law_kinds_share_names(v: FsView, name: Seq<char>, other: Seq<char>, anchor: bool)
    requires
        v.wf(),
        v.has_cwd(),
    ensures
        v.make_directory(name, anchor).0.find_file(other) == v.find_file(other),
        v.make_file(name).0.find_dir(other) == v.find_dir(other),
        v.make_directory(name, anchor).1 is Ok ==> v.make_directory(name, anchor).0.make_directory(
            name,
            anchor,
        ).1 == Err::<i32, FsError>(FsError::DirectoryExists),
        v.make_file(name).1 is Ok ==> v.make_file(name).0.make_file(name).1 == Err::<i32, FsError>(
            FsError::FileExists,
        ),
{
    let (d, made) = v.make_directory(name, anchor);
    if made is Ok {
        let inode = made->Ok_0;
        assert(d.current().subdirectories.contains_key(inode) && d.current().subdirectories[inode]
            == name);
        law_directory_collision(d, name, anchor);
    }
    let (f, touched) = v.make_file(name);
    if touched is Ok {
        let inode = touched->Ok_0;
        assert(f.current().files.contains_key(inode) && f.current().files[inode] == name);
        law_file_collision(f, name);
    }
}

/// An ordinary entry takes the identifier that follows the inode counter: it
/// is above zero and above every identifier in the tables. A mount anchor
/// takes the identifier that precedes the mount counter: it is below zero and
/// below every identifier in the tables. So the two kinds never meet.
pub proof fn law_identifiers(v: FsView, name: Seq<char>)
    requires
        v.wf(),
    ensures
        match v.make_directory(name, false).1 {
            Ok(inode) => {
                &&& inode == v.next_inode + 1
                &&& inode > 0
                &&& v.make_directory(name, false).0.next_inode == inode
                &&& forall|k: i32| v.directories.contains_key(k) || v.files.contains_key(k) ==> k < inode
            },
            Err(_) => true,
        },
        match v.make_file(name).1 {
            Ok(inode) => {
                &&& inode == v.next_inode + 1
                &&& inode > 0
                &&& v.make_file(name).0.next_inode == inode
                &&& forall|k: i32| v.directories.contains_key(k) || v.files.contains_key(k) ==> k < inode
            },
            Err(_) => true,
        },
        match v.make_directory(name, true).1 {
            Ok(inode) => {
                &&& inode == v.next_mount_slot - 1
                &&& inode < 0
                &&& v.make_directory(name, true).0.next_mount_slot == inode
                &&& forall|k: i32| v.directories.contains_key(k) || v.files.contains_key(k) ==> inode < k
            },
            Err(_) => true,
        },
{
}

/// Where the current directory holds no directory called `name` and the
/// identifiers of the kind have not run out, creating the directory succeeds,
/// whatever files the current directory holds. The new entry takes an
/// identifier that neither table holds, stands in the table under its name,
/// empty, below the current directory, and is the one entry that the listing
/// of the current directory gains. Nothing else changes, and no listing holds
/// a name twice.
pub proof fn law_new_directory(v: FsView, name: Seq<char>, anchor: bool)
    requires
        v.wf(),
        forall|k: i32|
            v.current().subdirectories.contains_key(k) ==> v.current().subdirectories[k] != name,
        !v.directories_exhausted(anchor),
    ensures
        ({
            let (w, r) = v.make_directory(name, anchor);
            let inode: i32 = if anchor {
                (v.next_mount_slot - 1) as i32
            } else {
                (v.next_inode + 1) as i32
            };
            &&& r == Ok::<i32, FsError>(inode)
            &&& w.wf()
            &&& anchor ==> inode < 0 && w.next_mount_slot == inode && w.next_inode == v.next_inode
            &&& !anchor ==> inode > 0 && w.next_inode == inode && w.next_mount_slot
                == v.next_mount_slot
            &&& !v.directories.contains_key(inode) && !v.files.contains_key(inode)
            &&& forall|k: i32|
                v.directories.contains_key(k) || v.files.contains_key(k) ==> if anchor {
                    inode < k
                } else {
                    k < inode
                }
            &&& w.directories.dom() == v.directories.dom().insert(inode)
            &&& w.directories.len() == v.directories.len() + 1
            &&& w.directories[inode] == (DirView {
                name,
                subdirectories: Map::empty(),
                files: Map::empty(),
                parent: Some(v.cwd),
            })
            &&& w.current().subdirectories == v.current().subdirectories.insert(inode, name)
            &&& names_unique(w.current().subdirectories)
            &&& w.current().files == v.current().files
            &&& w.current().name == v.current().name && w.current().parent == v.current().parent
            &&& forall|k: i32|
                v.directories.contains_key(k) && k != v.cwd ==> w.directories[k] == v.directories[k]
            &&& w.files == v.files
            &&& w.cwd == v.cwd
        }),
{
    lemma_make_directory_wf(v, name, anchor);
    lemma_named(v.current().subdirectories, name);
    let (w, r) = v.make_directory(name, anchor);
    assert(w.directories.dom() =~= v.directories.dom().insert(r->Ok_0));
}

/// Where the current directory holds no file called `name` and the
/// identifiers have not run out, creating the file succeeds, whatever
/// directories the current directory holds. The new file takes an identifier
/// that neither table holds, stands in the table under its name, empty, and
/// is the one entry that the listing of the current directory gains. Nothing
/// else changes, and no listing holds a name twice.
pub proof fn law_new_file(v: FsView, name: Seq<char>)
    requires
        v.wf(),
        forall|k: i32| v.current().files.contains_key(k) ==> v.current().files[k] != name,
        !v.files_exhausted(),
    ensures
        ({
            let (w, r) = v.make_file(name);
            let inode: i32 = (v.next_inode + 1) as i32;
            &&& r == Ok::<i32, FsError>(inode)
            &&& w.wf()
            &&& inode > 0 && w.next_inode == inode && w.next_mount_slot == v.next_mount_slot
            &&& !v.directories.contains_key(inode) && !v.files.contains_key(inode)
            &&& forall|k: i32| v.directories.contains_key(k) || v.files.contains_key(k) ==> k < inode
            &&& w.files == v.files.insert(inode, FileView { name, content: Seq::empty() })
            &&& w.files.len() == v.files.len() + 1
            &&& w.directories.dom() == v.directories.dom()
            &&& w.current().files == v.current().files.insert(inode, name)
            &&& names_unique(w.current().files)
            &&& w.current().subdirectories == v.current().subdirectories
            &&& w.current().name == v.current().name && w.current().parent == v.current().parent
            &&& forall|k: i32|
                v.directories.contains_key(k) && k != v.cwd ==> w.directories[k] == v.directories[k]
            &&& w.cwd == v.cwd
        }),
{
    lemma_make_file_wf(v, name);
    lemma_named(v.current().files, name);
    let (w, r) = v.make_file(name);
    assert(w.directories.dom() =~= v.directories.dom());
}

/// Creating a directory keeps the counts exact where the counter has room.
proof fn lemma_make_directory_kept_counts(v: FsView, name: Seq<char>, anchor: bool)
    requires
        v.wf(),
        v.counts_exact(),
        v.superblock.dircount < i32::MAX,
    ensures
        v.make_directory(name, anchor).0.counts_exact(),
{
    let (w, r) = v.make_directory(name, anchor);
    if r is Ok {
        assert(w.directories.dom() =~= v.directories.dom().insert(r->Ok_0));
    }
}

/// Creating a file keeps the counts exact where the counter has room.
proof fn lemma_make_file_kept_counts(v: FsView, name: Seq<char>)
    requires
        v.wf(),
        v.counts_exact(),
        v.superblock.filecount < i32::MAX,
    ensures
        v.make_file(name).0.counts_exact(),
{
    let (w, r) = v.make_file(name);
    if r is Ok {
        assert(w.files.dom() =~= v.files.dom().insert(r->Ok_0));
        assert(w.directories.dom() =~= v.directories.dom());
    }
}

/// Replacing the content of a file keeps the counts exact.
proof fn lemma_store_counts(v: FsView, name: Seq<char>, content: Seq<char>)
    requires
        v.wf(),
        v.counts_exact(),
    ensures
        v.store(name, content).0.counts_exact(),
{
    let (w, r) = v.store(name, content);
    if r is Ok {
        assert(w.files.dom() =~= v.files.dom());
    }
}

/// The superblock goes on counting what the tables hold: where it does so
/// before an operation and its counters have room, it does so after.
pub proof fn law_counts(v: FsView, name: Seq<char>, content: Seq<char>, anchor: bool)
    requires
        v.wf(),
        v.counts_exact(),
        v.superblock.dircount < i32::MAX,
        v.superblock.filecount < i32::MAX,
    ensures
        v.make_directory(name, anchor).0.counts_exact(),
        v.make_file(name).0.counts_exact(),
        v.store(name, content).0.counts_exact(),
        v.write(content).0.counts_exact(),
        v.remove_directory(name).0.counts_exact(),
        v.remove_file(name).0.counts_exact(),
        v.change_directory(name).0.counts_exact(),
{
    lemma_named(v.current().subdirectories, name);
    lemma_named(v.current().files, name);
    lemma_make_directory_kept_counts(v, name, anchor);
    lemma_make_file_kept_counts(v, name);
    lemma_store_counts(v, name, content);
    match split_at_space(content) {
        Some((target, payload)) => {
            lemma_store_counts(v, target, payload);
        },
        None => {},
    }
    if v.remove_directory(name).1 is Ok {
        let inode = v.find_dir(name)->0;
        lemma_count_positive(v.directories, inode);
        let w = v.remove_directory(name).0;
        assert(w.directories.dom() =~= v.directories.dom().remove(inode));
    }
    if v.remove_file(name).1 is Ok {
        let inode = v.find_file(name)->0;
        lemma_count_positive(v.files, inode);
        let w = v.remove_file(name).0;
        assert(w.directories.dom() =~= v.directories.dom());
    }
}

/// The counters only ever move apart: no operation of the tree lets the inode
/// counter fall or the mount counter rise.
pub open spec fn counters_kept(v: FsView, w: FsView) -> bool {
    v.next_inode <= w.next_inode && w.next_mount_slot <= v.next_mount_slot
}

/// Every operation of the tree keeps the counters apart.
pub proof fn law_counters(v: FsView, name: Seq<char>, content: Seq<char>, anchor: bool)
    requires
        v.wf(),
    ensures
        counters_kept(v, v.make_directory(name, anchor).0),
        counters_kept(v, v.make_file(name).0),
        counters_kept(v, v.store(name, content).0),
        counters_kept(v, v.write(content).0),
        counters_kept(v, v.remove_directory(name).0),
        counters_kept(v, v.remove_file(name).0),
        counters_kept(v, v.change_directory(name).0),
{
}

/// Creating numbered files keeps the counters apart.
pub proof fn lemma_numbered_files_keep_counters(v: FsView, count: nat)
    ensures
        counters_kept(v, with_numbered_files(v, count)),
    decreases count,
{
    if count > 0 {
        lemma_numbered_files_keep_counters(v, (count - 1) as nat);
    }
}

/// Whatever a back-end does with an operation, it keeps the counters apart:
/// identifiers that were handed out are never handed out again.
pub proof fn law_backend_counters(
    kind: BackendKind,
    v: FsView,
    name: Seq<char>,
    readings: ReadingsView,
)
    ensures
        counters_kept(v, read_step(kind, v, name, readings).0),
        counters_kept(v, write_step(kind, v, name).0),
        counters_kept(v, create_file_step(kind, v, name).0),
        counters_kept(v, remove_dir_step(kind, v, name).0),
        counters_kept(v, remove_file_step(kind, v, name).0),
        counters_kept(v, speedtest_step(v).0),
        counters_kept(v, speedtest2_step(kind, v)),
{
    let made = v.make_directory("speedtest"@, false).0;
    let entered = made.change_directory("speedtest"@).0;
    lemma_numbered_files_keep_counters(entered, SPEEDTEST_FILES as nat);
}

/// In a well-formed instance every lookup ends in the listing of the current
/// directory: a file is found exactly if the current directory lists its
/// name, and no operation fails for want of a table entry.
pub proof fn law_tables_answer(v: FsView, name: Seq<char>, content: Seq<char>)
    requires
        v.wf(),
    ensures
        v.resolve_file(name) is Ok <==> exists|k: i32|
            v.current().files.contains_key(k) && v.current().files[k] == name,
        v.resolve_file(name) is Err ==> v.resolve_file(name) == Err::<i32, FsError>(
            FsError::FileNotInDirectory,
        ),
        v.read(name) is Ok <==> v.resolve_file(name) is Ok,
        v.store(name, content).1 is Ok <==> v.resolve_file(name) is Ok,
        v.store(name, content).1 is Ok ==> v.store(name, content).0.read(name) == Ok::<
            Seq<char>,
            FsError,
        >(content),
        v.remove_file(name).1 is Ok <==> v.resolve_file(name) is Ok,
        v.remove_directory(name).1 is Ok <==> exists|k: i32|
            v.current().subdirectories.contains_key(k) && v.current().subdirectories[k] == name,
        v.make_file(name).1 != Err::<i32, FsError>(FsError::DirectoryNotInTable),
        v.remove_directory(name).1 != Err::<(), FsError>(FsError::DirectoryNotInTable),
{
    lemma_named(v.current().files, name);
    lemma_named(v.current().subdirectories, name);
}

/// Where every entry is listed by its parent, every ordinary directory is
/// within reach of the root: it hangs below the root through parents that
/// each list their child.
pub proof fn law_listed_is_reachable(v: FsView, inode: i32)
    requires
        v.wf(),
        v.all_listed(),
        v.directories.contains_key(inode),
        inode > 0,
    ensures
        v.reaches_root(inode),
    decreases inode,
{
    if inode != 1 {
        law_listed_is_reachable(v, v.directories[inode].parent->0);
    }
}

/// Away from the root, `..` leads to the parent of the current directory,
/// which is a directory of the table and lists the one that was left.
pub proof fn law_up(v: FsView)
    requires
        v.wf(),
        v.cwd != 1,
    ensures
        ({
            let parent = v.current().parent->0;
            &&& v.current().parent is Some
            &&& v.change_directory(".."@) == (
                FsView { cwd: parent, ..v },
                Ok::<Navigation, FsError>(Navigation::Local),
            )
            &&& v.directories.contains_key(parent)
            &&& v.directories[parent].subdirectories.contains_key(v.cwd)
            &&& v.change_directory(".."@).0.wf()
        }),
{
    lemma_change_directory_wf(v, ".."@);
}

/// The trail of a directory depends on the directory table alone.
pub proof fn lemma_trail_of_table(v: FsView, w: FsView, inode: i32)
    requires
        v.directories == w.directories,
    ensures
        v.trail(inode) == w.trail(inode),
    decreases inode,
{
    if inode > 1 && v.directories.contains_key(inode) {
        match v.directories[inode].parent {
            Some(p) => {
                if 0 <= p < inode {
                    lemma_trail_of_table(v, w, p);
                }
            },
            None => {},
        }
    }
}

/// At the root the path is the prefix alone, and entering a subdirectory
/// lengthens the path by the name of that directory and a slash.
pub proof fn law_path(v: FsView, name: Seq<char>)
    requires
        v.wf(),
    ensures
        v.cwd == 1 ==> v.path() == v.path_prefix(),
        v.superblock.device == "SVFS"@ && v.cwd == 1 ==> v.path() == "/"@,
        v.change_directory(name).1 == Ok::<Navigation, FsError>(Navigation::Local) && name
            != ".."@ ==> v.change_directory(name).0.path() == v.path() + name + "/"@,
{
    if name != ".."@ {
        lemma_named(v.current().subdirectories, name);
        lemma_trail_of_table(v, v.change_directory(name).0, v.cwd);
    }
}

/// A file that was removed is gone from the listing of its directory and from
/// the file table at once, and its name no longer leads anywhere: reading it
/// and storing into it both fail for want of the name, and so does a write
/// message made of the name, a space and a payload. (Where the name holds a
/// space of its own, such a message names another file: the one called by
/// what stands before that space.)
pub proof fn law_removed_file(v: FsView, name: Seq<char>, content: Seq<char>)
    requires
        v.wf(),
        v.remove_file(name).1 is Ok,
    ensures
        ({
            let inode = v.find_file(name)->0;
            let w = v.remove_file(name).0;
            &&& v.find_file(name) is Some
            &&& !w.current().files.contains_key(inode)
            &&& !w.files.contains_key(inode)
            &&& w.find_file(name) is None
            &&& w.read(name) == Err::<Seq<char>, FsError>(FsError::FileNotInDirectory)
            &&& w.store(name, content) == (w, Err::<(), FsError>(FsError::FileNotInDirectory))
            &&& !name.contains(' ') ==> w.write(name + " "@ + content) == (
                w,
                Err::<(), FsError>(FsError::FileNotInDirectory),
            )
        }),
{
    lemma_named(v.current().files, name);
    lemma_named(v.remove_file(name).0.current().files, name);
    if !name.contains(' ') {
        lemma_split_joined(name, content);
    }
}

/// A directory that was removed is gone from the listing of its parent and
/// from the directory table at once, and its name no longer leads anywhere.
pub proof fn law_removed_directory(v: FsView, name: Seq<char>)
    requires
        v.wf(),
        v.remove_directory(name).1 is Ok,
    ensures
        ({
            let inode = v.find_dir(name)->0;
            let w = v.remove_directory(name).0;
            &&& v.find_dir(name) is Some
            &&& !w.directories.contains_key(inode)
            &&& !w.current().subdirectories.contains_key(inode)
            &&& w.find_dir(name) is None
            &&& name != ".."@ ==> w.change_directory(name).1 == Err::<Navigation, FsError>(
                FsError::DirectoryNotFound,
            )
        }),
{
    lemma_named(v.current().subdirectories, name);
    lemma_named(v.remove_directory(name).0.current().subdirectories, name);
}

/// Writing two colours to the colour file of the synthetic back-end stores
/// them there, the two colours with a space between them, and hands both to
/// the caller. That happens exactly where the current directory holds the
/// colour file; elsewhere nothing is stored and nothing is handed on.
pub proof fn law_two_colours(v: FsView, fg: Seq<char>, bg: Seq<char>)
    requires
        v.wf(),
        !fg.contains(' '),
    ensures
        ({
            let (w, out) = write_step(BackendKind::Synthetic, v, "color "@ + fg + " "@ + bg);
            let stored = fg + " "@ + bg;
            &&& (w, out.result) == v.store("color"@, stored)
            &&& out.result is Ok <==> exists|k: i32|
                v.current().files.contains_key(k) && v.current().files[k] == "color"@
            &&& out.result is Ok ==> out.colors == Some((fg, bg)) && w.read("color"@) == Ok::<
                Seq<char>,
                FsError,
            >(stored)
            &&& out.result is Err ==> out.colors is None && w == v
        }),
{
    reveal_strlit("color");
    reveal_strlit("color ");
    reveal_strlit(" ");
    let payload = fg + " "@ + bg;
    let message = "color "@ + fg + " "@ + bg;
    assert(message =~= "color"@ + " "@ + payload);
    assert(!"color"@.contains(' ')) by {
        if "color"@.contains(' ') {
            let i = choose|i: int| 0 <= i < "color"@.len() && "color"@[i] == ' ';
        }
    }
    lemma_split_joined("color"@, payload);
    lemma_split_joined(fg, bg);
    lemma_named(v.current().files, "color"@);
}

/// Writing fewer than two colours to the colour file of the synthetic
/// back-end changes nothing and hands nothing to the caller: with one colour
/// the write is accepted and ignored, with none it is answered with the usage.
pub proof fn law_fewer_colours(v: FsView, token: Seq<char>)
    requires
        !token.contains(' '),
    ensures
        write_step(BackendKind::Synthetic, v, "color "@ + token) == (
            v,
            WriteOutcomeView { result: Ok(()), colors: None },
        ),
        write_step(BackendKind::Synthetic, v, "color"@) == (
            v,
            WriteOutcomeView { result: Err(FsError::WriteUsage), colors: None },
        ),
{
    reveal_strlit("color");
    reveal_strlit("color ");
    reveal_strlit(" ");
    assert(!"color"@.contains(' ')) by {
        if "color"@.contains(' ') {
            let i = choose|i: int| 0 <= i < "color"@.len() && "color"@[i] == ' ';
        }
    }
    assert("color "@ + token =~= "color"@ + " "@ + token);
    lemma_split_joined("color"@, token);
    lemma_no_space_no_split(token);
    lemma_no_space_no_split("color"@);
}

/// The uptime file of the synthetic back-end is written anew at every read:
/// two reads between which the counter has moved hand back different texts.
pub proof fn law_uptime_is_derived(v: FsView, first: ReadingsView, second: ReadingsView)
    requires
        v.wf(),
        first.uptime != second.uptime,
        read_step(BackendKind::Synthetic, v, "uptime"@, first).1 is Ok,
    ensures
        ({
            let (w, a) = read_step(BackendKind::Synthetic, v, "uptime"@, first);
            let (x, b) = read_step(BackendKind::Synthetic, w, "uptime"@, second);
            &&& a == Ok::<Seq<char>, FsError>(uptime_text(first.uptime))
            &&& b == Ok::<Seq<char>, FsError>(uptime_text(second.uptime))
            &&& a != b
        }),
{
    reveal_strlit("uptime");
    reveal_strlit("meminfo");
    assert("uptime"@.len() != "meminfo"@.len());
    if uptime_text(first.uptime) == uptime_text(second.uptime) {
        lemma_framed_text(
            "System running time: "@,
            decimal(first.uptime as nat),
            decimal(second.uptime as nat),
            " seconds."@,
        );
        lemma_decimal_injective(first.uptime as nat, second.uptime as nat);
    }
}

} // verus!
