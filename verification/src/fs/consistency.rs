//! Every operation of the tree keeps an instance well formed.

use vstd::prelude::*;
use crate::fs::model::{is_first_named, named, FsView};
use crate::fs::policy::{synthetic_tree, with_numbered_files};
use crate::fs::text::decimal;

verus! {

/// If `listing` holds `name` at all, it holds it under a least identifier.
pub proof fn lemma_first_named_exists(listing: Map<i32, Seq<char>>, name: Seq<char>, k: i32)
    requires
        listing.contains_key(k),
        listing[k] == name,
    ensures
        exists|f: i32| is_first_named(listing, name, f),
    decreases k - i32::MIN,
{
    if exists|j: i32| j < k && listing.contains_key(j) && listing[j] == name {
        let j = choose|j: i32| j < k && listing.contains_key(j) && listing[j] == name;
        lemma_first_named_exists(listing, name, j);
    } else {
        assert(is_first_named(listing, name, k));
    }
}

/// What `named` finds carries the name, and where it finds nothing no
/// identifier carries it.
pub proof fn lemma_named(listing: Map<i32, Seq<char>>, name: Seq<char>)
    ensures
        match named(listing, name) {
            Some(k) => is_first_named(listing, name, k),
            None => forall|k: i32| listing.contains_key(k) ==> listing[k] != name,
        },
{
    if named(listing, name) is None {
        assert forall|k: i32| listing.contains_key(k) implies listing[k] != name by {
            if listing[k] == name {
                lemma_first_named_exists(listing, name, k);
            }
        }
    }
}

/// A finite table that holds an entry holds at least one.
pub proof fn lemma_count_positive<V>(table: Map<i32, V>, k: i32)
    requires
        table.dom().finite(),
        table.contains_key(k),
    ensures
        table.len() >= 1,
        table.remove(k).len() == table.len() - 1,
{
}

/// Whether a directory hangs below the root depends only on the entries up
/// to its own identifier: it still does in a table that keeps those entries,
/// their parents, and what they list among them.
pub proof fn lemma_reaches_root_kept(v: FsView, w: FsView, inode: i32)
    requires
        v.reaches_root(inode),
        forall|j: i32|
            0 < j <= inode && #[trigger] v.directories.contains_key(j) ==> {
                &&& w.directories.contains_key(j)
                &&& w.directories[j].parent == v.directories[j].parent
                &&& forall|i: i32|
                    0 < i <= inode && v.directories[j].subdirectories.contains_key(i)
                        ==> #[trigger] w.directories[j].subdirectories.contains_key(i)
            },
    ensures
        w.reaches_root(inode),
    decreases inode,
{
    if inode > 1 {
        lemma_reaches_root_kept(v, w, v.directories[inode].parent->0);
    }
}

/// Creating a directory keeps the instance well formed.
pub proof fn lemma_make_directory_wf(v: FsView, name: Seq<char>, anchor: bool)
    requires
        v.wf(),
    ensures
        v.make_directory(name, anchor).0.wf(),
{
    lemma_named(v.current().subdirectories, name);
    lemma_reaches_root_kept(v, v.make_directory(name, anchor).0, v.cwd);
}

/// Creating a file keeps the instance well formed.
pub proof fn lemma_make_file_wf(v: FsView, name: Seq<char>)
    requires
        v.wf(),
    ensures
        v.make_file(name).0.wf(),
{
    lemma_named(v.current().files, name);
    lemma_reaches_root_kept(v, v.make_file(name).0, v.cwd);
}

/// Replacing the content of a file keeps the instance well formed.
pub proof fn lemma_store_wf(v: FsView, name: Seq<char>, content: Seq<char>)
    requires
        v.wf(),
    ensures
        v.store(name, content).0.wf(),
{
    lemma_reaches_root_kept(v, v.store(name, content).0, v.cwd);
}

/// Removing a directory keeps the instance well formed: what is removed
/// hangs below the current directory, not above it.
pub proof fn lemma_remove_directory_wf(v: FsView, name: Seq<char>)
    requires
        v.wf(),
    ensures
        v.remove_directory(name).0.wf(),
{
    lemma_named(v.current().subdirectories, name);
    lemma_reaches_root_kept(v, v.remove_directory(name).0, v.cwd);
}

/// Removing a file keeps the instance well formed.
pub proof fn lemma_remove_file_wf(v: FsView, name: Seq<char>)
    requires
        v.wf(),
    ensures
        v.remove_file(name).0.wf(),
{
    lemma_named(v.current().files, name);
    lemma_reaches_root_kept(v, v.remove_file(name).0, v.cwd);
}

/// Changing the current directory keeps the instance well formed: the way
/// down leads to a directory that the current one lists, the way up to the
/// parent, which is in the table because the current directory hangs below
/// the root.
pub proof fn lemma_change_directory_wf(v: FsView, name: Seq<char>)
    requires
        v.wf(),
    ensures
        v.change_directory(name).0.wf(),
{
    let w = v.change_directory(name).0;
    lemma_named(v.current().subdirectories, name);
    lemma_reaches_root_kept(v, w, v.cwd);
    if name == ".."@ && v.cwd != 1 {
        lemma_reaches_root_kept(v, w, v.current().parent->0);
    }
}

/// Creating numbered files keeps the instance well formed.
pub proof fn lemma_with_numbered_files_wf(v: FsView, count: nat)
    requires
        v.wf(),
    ensures
        with_numbered_files(v, count).wf(),
    decreases count,
{
    if count > 0 {
        lemma_with_numbered_files_wf(v, (count - 1) as nat);
        lemma_make_file_wf(with_numbered_files(v, (count - 1) as nat), "test"@ + decimal(count));
    }
}

/// Whether an instance has everything in its tables within reach and counted.
pub open spec fn kept(v: FsView) -> bool {
    v.wf() && v.all_listed() && v.counts_exact()
}

/// A fresh instance is well formed, with everything within reach and counted.
pub proof fn lemma_fresh(device: Seq<char>, root: Seq<char>, host: Option<i32>)
    ensures
        kept(FsView::fresh(device, root, host)),
{
    let v = FsView::fresh(device, root, host);
    assert(v.directories.dom() =~= set![1i32]);
    assert(v.files.dom() =~= Set::empty());
}

/// Creating a directory where the identifiers and the counter have room
/// keeps everything within reach and counted.
pub proof fn lemma_make_directory_kept(v: FsView, name: Seq<char>, anchor: bool)
    requires
        kept(v),
        v.superblock.dircount < i32::MAX,
    ensures
        kept(v.make_directory(name, anchor).0),
{
    lemma_make_directory_wf(v, name, anchor);
    lemma_named(v.current().subdirectories, name);
    let (w, r) = v.make_directory(name, anchor);
    if r is Ok {
        let inode = r->Ok_0;
        assert(w.directories.dom() =~= v.directories.dom().insert(inode));
        assert forall|k: i32| #[trigger] w.files.contains_key(k) implies exists|d: i32|
            w.directories.contains_key(d) && #[trigger] w.directories[d].files.contains_key(k) by {
            let d = choose|d: i32|
                v.directories.contains_key(d) && #[trigger] v.directories[d].files.contains_key(k);
            assert(w.directories.contains_key(d) && w.directories[d].files.contains_key(k));
        }
    }
}

/// Creating a file where the identifiers and the counter have room keeps
/// everything within reach and counted.
pub proof fn lemma_make_file_kept(v: FsView, name: Seq<char>)
    requires
        kept(v),
        v.superblock.filecount < i32::MAX,
    ensures
        kept(v.make_file(name).0),
{
    lemma_make_file_wf(v, name);
    lemma_named(v.current().files, name);
    let (w, r) = v.make_file(name);
    if r is Ok {
        let inode = r->Ok_0;
        assert(w.files.dom() =~= v.files.dom().insert(inode));
        assert(w.directories.dom() =~= v.directories.dom());
        assert forall|k: i32| #[trigger] w.files.contains_key(k) implies exists|d: i32|
            w.directories.contains_key(d) && #[trigger] w.directories[d].files.contains_key(k) by {
            if k == inode {
                assert(w.directories[v.cwd].files.contains_key(k));
            } else {
                let d = choose|d: i32|
                    v.directories.contains_key(d) && #[trigger] v.directories[d].files.contains_key(
                        k,
                    );
                assert(w.directories.contains_key(d) && w.directories[d].files.contains_key(k));
            }
        }
    }
}

/// Replacing the content of a file keeps everything within reach and counted.
pub proof fn lemma_store_kept(v: FsView, name: Seq<char>, content: Seq<char>)
    requires
        kept(v),
    ensures
        kept(v.store(name, content).0),
{
    lemma_store_wf(v, name, content);
    let (w, r) = v.store(name, content);
    if r is Ok {
        assert(w.files.dom() =~= v.files.dom());
    }
}

/// Changing the current directory keeps everything within reach and counted.
pub proof fn lemma_change_directory_kept(v: FsView, name: Seq<char>)
    requires
        kept(v),
    ensures
        kept(v.change_directory(name).0),
{
    lemma_change_directory_wf(v, name);
}

/// The synthetic back-end is well formed as it is mounted, with everything
/// in its tables within reach and counted.
pub proof fn lemma_synthetic_tree(host: Option<i32>)
    ensures
        kept(synthetic_tree(host)),
{
    let fresh = FsView::fresh("proc"@, "proc"@, host);
    lemma_fresh("proc"@, "proc"@, host);
    let one = fresh.make_file("meminfo"@).0;
    lemma_make_file_kept(fresh, "meminfo"@);
    let two = one.make_file("mounts"@).0;
    lemma_make_file_kept(one, "mounts"@);
    let three = two.make_file("uptime"@).0;
    lemma_make_file_kept(two, "uptime"@);
    let four = three.make_file("color"@).0;
    lemma_make_file_kept(three, "color"@);
    let coloured = four.store("color"@, "Black Yellow"@).0;
    lemma_store_kept(four, "color"@, "Black Yellow"@);
    let root = coloured.make_directory("sys"@, false).0;
    lemma_make_directory_kept(coloured, "sys"@, false);
    let in_sys = root.change_directory("sys"@).0;
    lemma_change_directory_kept(root, "sys"@);
    let with_fs = in_sys.make_directory("fs"@, false).0;
    lemma_make_directory_kept(in_sys, "fs"@, false);
    let in_fs = with_fs.change_directory("fs"@).0;
    lemma_change_directory_kept(with_fs, "fs"@);
    let filled = in_fs.make_file("inode-state"@).0;
    lemma_make_file_kept(in_fs, "inode-state"@);
    let up = filled.change_directory(".."@).0;
    lemma_change_directory_kept(filled, ".."@);
    lemma_change_directory_kept(up, ".."@);
}

} // verus!
