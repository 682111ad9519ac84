use blog_os::fs::fs::{Benchmark, FailureKind, FsError, Navigation, Operations};
use blog_os::fs::policy::Readings;
use blog_os::fs::svfs::FileSystem;

fn readings() -> Readings {
    Readings {
        heap_size: 102400,
        heap_start: 0x4444_4444_0000,
        uptime: 7,
        cycles: 1234,
        bus_report: String::new(),
    }
}

fn root() -> FileSystem {
    FileSystem::new("SVFS", "/", None)
}

#[test]
fn fresh_root_has_only_its_root_directory() {
    let fs = root();
    assert_eq!(fs.get_path(), "/");
    assert_eq!(fs.get_path_inode(), 1);
    assert_eq!(fs.get_parent(), None);
    assert_eq!(fs.get_sb_device(), "SVFS");
    assert!(fs.ls().is_empty());
    assert_eq!(fs.superblock.dircount, 0);
    assert_eq!(fs.superblock.filecount, 0);
    assert_eq!(fs.next_inode, 1);
    assert_eq!(fs.next_mount_slot, 0);
    assert_eq!(fs.directories.len(), 1);
    assert_eq!(fs.directories[&1].name, "/");
    assert_eq!(fs.directories[&1].parent, Some(0));
    assert!(fs.files.is_empty());
}

#[test]
fn end_to_end_docs_note_hello() {
    let mut fs = root();
    assert_eq!(fs.mkdir("docs", false), Ok(2));
    assert_eq!(fs.cd("docs"), Ok(Navigation::Local));
    assert_eq!(fs.create_file("note"), Ok(3));
    let written = fs.write_file("note hello");
    assert_eq!(written.result, Ok(()));
    assert_eq!(written.colors, None);
    assert_eq!(fs.read_file("note", &readings()), Ok(String::from("hello")));
    assert_eq!(fs.get_path(), "/docs/");
    assert_eq!(fs.cd(".."), Ok(Navigation::Local));
    assert_eq!(fs.ls(), vec![String::from("d - docs")]);
    assert_eq!(fs.get_path(), "/");
}

#[test]
fn duplicate_directory_is_rejected_and_changes_nothing() {
    let mut fs = root();
    assert_eq!(fs.mkdir("a", false), Ok(2));
    assert_eq!(fs.mkdir("a", false), Err(FsError::DirectoryExists));
    assert_eq!(fs.mkdir("a", true), Err(FsError::DirectoryExists));
    assert_eq!(fs.next_inode, 2);
    assert_eq!(fs.next_mount_slot, 0);
    assert_eq!(fs.superblock.dircount, 1);
    assert_eq!(fs.directories.len(), 2);
    assert_eq!(fs.directories[&1].subdirectories.len(), 1);
    assert_eq!(fs.ls(), vec![String::from("d - a")]);
}

#[test]
fn duplicate_file_is_rejected_and_changes_nothing() {
    let mut fs = root();
    assert_eq!(fs.create_file("a"), Ok(2));
    assert_eq!(fs.write_file("a kept").result, Ok(()));
    assert_eq!(fs.create_file("a"), Err(FsError::FileExists));
    assert_eq!(fs.next_inode, 2);
    assert_eq!(fs.superblock.filecount, 1);
    assert_eq!(fs.files.len(), 1);
    assert_eq!(fs.files[&2].content, "kept");
    assert_eq!(fs.ls(), vec![String::from("f - a")]);
}

#[test]
fn a_directory_and_a_file_may_share_a_name() {
    let mut fs = root();
    assert_eq!(fs.mkdir("a", false), Ok(2));
    assert_eq!(fs.create_file("a"), Ok(3));
    assert_eq!(fs.ls(), vec![String::from("d - a"), String::from("f - a")]);
    let mut other = root();
    assert_eq!(other.create_file("a"), Ok(2));
    assert_eq!(other.mkdir("a", false), Ok(3));
    assert_eq!(other.ls(), vec![String::from("d - a"), String::from("f - a")]);
}

#[test]
fn ordinary_inodes_grow_and_anchor_inodes_fall() {
    let mut fs = root();
    assert_eq!(fs.mkdir("a", false), Ok(2));
    assert_eq!(fs.mkdir("m1", true), Ok(-1));
    assert_eq!(fs.create_file("f"), Ok(3));
    assert_eq!(fs.mkdir("m2", true), Ok(-2));
    assert_eq!(fs.mkdir("b", false), Ok(4));
    assert_eq!(fs.remove_dir("a"), Ok(()));
    assert_eq!(fs.mkdir("a", false), Ok(5));
    assert_eq!(fs.next_inode, 5);
    assert_eq!(fs.next_mount_slot, -2);
    assert_eq!(fs.superblock.dircount, 4);
    assert_eq!(
        fs.ls(),
        vec![
            String::from("d - m2"),
            String::from("d - m1"),
            String::from("d - b"),
            String::from("d - a"),
            String::from("f - f"),
        ]
    );
}

#[test]
fn path_follows_the_descent() {
    let mut fs = root();
    assert_eq!(fs.mkdir("x", false), Ok(2));
    assert_eq!(fs.cd("x"), Ok(Navigation::Local));
    assert_eq!(fs.get_path(), "/x/");
    assert_eq!(fs.mkdir("y", false), Ok(3));
    assert_eq!(fs.cd("y"), Ok(Navigation::Local));
    assert_eq!(fs.get_path(), "/x/y/");
    assert_eq!(fs.get_path_inode(), 3);
    assert_eq!(fs.cd(".."), Ok(Navigation::Local));
    assert_eq!(fs.get_path(), "/x/");
    assert_eq!(fs.cd(".."), Ok(Navigation::Local));
    assert_eq!(fs.get_path(), "/");
    assert_eq!(fs.cd(".."), Ok(Navigation::Local));
    assert_eq!(fs.get_path(), "/");
    assert_eq!(fs.get_path_inode(), 1);
}

#[test]
fn path_of_a_hosted_instance_starts_with_its_device() {
    let mut fs = FileSystem::new("data", "data", Some(0));
    assert_eq!(fs.get_path(), "data/");
    assert_eq!(fs.mkdir("x", false), Ok(2));
    assert_eq!(fs.cd("x"), Ok(Navigation::Local));
    assert_eq!(fs.get_path(), "data/x/");
}

#[test]
fn leaving_the_root_names_the_host() {
    let mut fs = FileSystem::new("data", "data", Some(3));
    assert_eq!(fs.cd(".."), Ok(Navigation::Host(3)));
    assert_eq!(fs.get_path_inode(), 1);
    assert_eq!(fs.get_parent(), Some(3));
}

#[test]
fn entering_an_anchor_signals_the_boundary() {
    let mut fs = root();
    assert_eq!(fs.mkdir("proc", true), Ok(-1));
    assert_eq!(fs.cd("proc"), Ok(Navigation::Mount));
    assert_eq!(fs.get_path_inode(), 1);
    assert_eq!(fs.directories[&-1].parent, Some(1));
}

#[test]
fn entering_what_is_not_there_fails() {
    let mut fs = root();
    assert_eq!(fs.create_file("x"), Ok(2));
    assert_eq!(fs.cd("x"), Err(FsError::DirectoryNotFound));
    assert_eq!(fs.cd(""), Err(FsError::DirectoryNotFound));
    assert_eq!(fs.get_path_inode(), 1);
}

#[test]
fn removing_a_file_takes_it_from_listing_and_table() {
    let mut fs = root();
    assert_eq!(fs.create_file("gone"), Ok(2));
    assert_eq!(fs.create_file("kept"), Ok(3));
    assert_eq!(fs.remove_file("gone"), Ok(()));
    assert_eq!(fs.ls(), vec![String::from("f - kept")]);
    assert!(!fs.files.contains_key(&2));
    assert_eq!(fs.superblock.filecount, 1);
    assert_eq!(fs.read_file("gone", &readings()), Err(FsError::FileNotInDirectory));
    assert_eq!(fs.write_file("gone text").result, Err(FsError::FileNotInDirectory));
    assert_eq!(fs.remove_file("gone"), Err(FsError::NoSuchFile));
    assert_eq!(fs.create_file("gone"), Ok(4));
    assert_eq!(fs.read_file("gone", &readings()), Ok(String::new()));
}

#[test]
fn removing_a_directory_leaves_what_it_held_out_of_reach() {
    let mut fs = root();
    assert_eq!(fs.mkdir("a", false), Ok(2));
    assert_eq!(fs.cd("a"), Ok(Navigation::Local));
    assert_eq!(fs.mkdir("b", false), Ok(3));
    assert_eq!(fs.create_file("f"), Ok(4));
    assert_eq!(fs.cd(".."), Ok(Navigation::Local));
    assert_eq!(fs.remove_dir("a"), Ok(()));
    assert!(fs.ls().is_empty());
    assert!(!fs.directories.contains_key(&2));
    assert!(fs.directories.contains_key(&3));
    assert!(fs.files.contains_key(&4));
    assert_eq!(fs.superblock.dircount, 1);
    assert_eq!(fs.superblock.filecount, 1);
    assert_eq!(fs.cd("a"), Err(FsError::DirectoryNotFound));
    assert_eq!(fs.remove_dir("a"), Err(FsError::NoSuchDirectory));
}

#[test]
fn write_splits_at_the_first_space() {
    let mut fs = root();
    assert_eq!(fs.create_file("note"), Ok(2));
    assert_eq!(fs.write_file("note one two  three").result, Ok(()));
    assert_eq!(fs.read_file("note", &readings()), Ok(String::from("one two  three")));
    assert_eq!(fs.write_file("note ").result, Ok(()));
    assert_eq!(fs.read_file("note", &readings()), Ok(String::new()));
    assert_eq!(fs.write_file("note").result, Err(FsError::WriteUsage));
    assert_eq!(fs.write_file("").result, Err(FsError::WriteUsage));
    assert_eq!(fs.write_file("other text").result, Err(FsError::FileNotInDirectory));
    assert_eq!(fs.write_file(" text").result, Err(FsError::FileNotInDirectory));
}

#[test]
fn names_are_compared_by_their_characters() {
    let mut fs = root();
    assert_eq!(fs.create_file("dat\u{e9}"), Ok(2));
    assert_eq!(fs.write_file("dat\u{e9} \u{fc}ber").result, Ok(()));
    assert_eq!(fs.read_file("dat\u{e9}", &readings()), Ok(String::from("\u{fc}ber")));
    assert_eq!(fs.read_file("date", &readings()), Err(FsError::FileNotInDirectory));
}

#[test]
fn a_current_directory_outside_the_table_is_reported() {
    let mut fs = root();
    assert_eq!(fs.create_file("f"), Ok(2));
    fs.cwd = 2;
    assert_eq!(fs.fetch("f"), Err(FsError::FileNotInTable));
    assert_eq!(fs.store("f", "x"), Err(FsError::FileNotInTable));
    assert_eq!(fs.make_file("g"), Err(FsError::DirectoryNotInTable));
    assert_eq!(fs.change_directory("f"), Err(FsError::DirectoryNotFound));
    assert_eq!(fs.change_directory(".."), Ok(Navigation::Local));
    assert_eq!(fs.cwd, 2);
    assert!(fs.listing().is_empty());
    assert_eq!(fs.make_directory("d", false), Ok(3));
    assert_eq!(fs.directories[&3].parent, Some(2));
    assert!(fs.directories[&1].subdirectories.is_empty());
}

#[test]
fn going_up_follows_the_parent_whatever_the_table_holds() {
    let mut fs = root();
    assert_eq!(fs.make_directory("a", false), Ok(2));
    assert_eq!(fs.change_directory("a"), Ok(Navigation::Local));
    assert_eq!(fs.make_directory("b", false), Ok(3));
    assert_eq!(fs.change_directory(".."), Ok(Navigation::Local));
    assert_eq!(fs.delete_directory("a"), Ok(()));
    assert!(!fs.directories.contains_key(&2));
    assert_eq!(fs.directories[&3].parent, Some(2));
    fs.cwd = 3;
    assert_eq!(fs.change_directory(".."), Ok(Navigation::Local));
    assert_eq!(fs.cwd, 2);
    assert_eq!(fs.change_directory(".."), Ok(Navigation::Local));
    assert_eq!(fs.cwd, 2);
    fs.directories.get_mut(&3).unwrap().parent = None;
    fs.cwd = 3;
    assert_eq!(fs.change_directory(".."), Ok(Navigation::Local));
    assert_eq!(fs.cwd, 3);
}

#[test]
fn a_listing_without_its_table_entry_is_reported() {
    let mut fs = root();
    assert_eq!(fs.create_file("f"), Ok(2));
    fs.files.remove(&2);
    assert_eq!(fs.fetch("f"), Err(FsError::FileNotInTable));
    assert_eq!(fs.store("f", "x"), Err(FsError::FileNotInTable));
}

#[test]
fn exhausted_counters_refuse_new_entries() {
    let mut fs = root();
    fs.next_inode = i32::MAX;
    assert_eq!(fs.mkdir("a", false), Err(FsError::InodesExhausted));
    assert_eq!(fs.create_file("a"), Err(FsError::InodesExhausted));
    assert_eq!(fs.mkdir("m", true), Ok(-1));
    fs.next_mount_slot = i32::MIN;
    assert_eq!(fs.mkdir("n", true), Err(FsError::InodesExhausted));
    assert_eq!(fs.next_inode, i32::MAX);
    assert_eq!(fs.next_mount_slot, i32::MIN);
    assert_eq!(fs.superblock.dircount, 1);
    assert_eq!(fs.ls(), vec![String::from("d - m")]);
}

#[test]
fn superblock_counters_stop_at_their_limits() {
    let mut fs = root();
    fs.superblock.dircount = i32::MAX;
    fs.superblock.filecount = i32::MAX;
    assert_eq!(fs.mkdir("a", false), Ok(2));
    assert_eq!(fs.mkdir("m", true), Ok(-1));
    assert_eq!(fs.create_file("f"), Ok(3));
    assert_eq!(fs.superblock.dircount, i32::MAX);
    assert_eq!(fs.superblock.filecount, i32::MAX);
    assert_eq!(fs.ls(), vec![String::from("d - m"), String::from("d - a"), String::from("f - f")]);
    fs.superblock.dircount = i32::MIN;
    fs.superblock.filecount = i32::MIN;
    assert_eq!(fs.remove_dir("a"), Ok(()));
    assert_eq!(fs.remove_file("f"), Ok(()));
    assert_eq!(fs.superblock.dircount, i32::MIN);
    assert_eq!(fs.superblock.filecount, i32::MIN);
    assert_eq!(fs.ls(), vec![String::from("d - m")]);
}

#[test]
fn clones_are_independent() {
    let mut fs = root();
    assert_eq!(fs.mkdir("a", false), Ok(2));
    let copy = fs.clone();
    assert_eq!(fs.create_file("f"), Ok(3));
    assert_eq!(copy.ls(), vec![String::from("d - a")]);
    assert_eq!(copy.next_inode, 2);
    assert_eq!(copy.superblock.clone().device, "SVFS");
    assert_eq!(copy.directories[&2].clone().name, "a");
    assert_eq!(fs.files[&3].clone().name, "f");
    assert_eq!(fs.ls(), vec![String::from("d - a"), String::from("f - f")]);
}

#[test]
fn superblock_report_counts_entries() {
    let mut fs = root();
    assert_eq!(fs.mkdir("a", false), Ok(2));
    assert_eq!(fs.mkdir("m", true), Ok(-1));
    assert_eq!(fs.create_file("f"), Ok(3));
    assert_eq!(
        fs.get_sb_info(987654321),
        "Device: SVFS\nFilecount: 1\nDircount: 2\nCurrent time-stamp counter: 987654321"
    );
    assert_eq!(fs.superblock.get_device(), "SVFS");
    assert_eq!(
        fs.superblock.get_info(0),
        "Device: SVFS\nFilecount: 1\nDircount: 2\nCurrent time-stamp counter: 0"
    );
}

#[test]
fn speedtest_fills_a_directory_and_comes_back() {
    let mut fs = root();
    assert_eq!(fs.speedtest(), (Benchmark::FilesInCycles, Navigation::Local));
    assert_eq!(fs.get_path_inode(), 1);
    assert_eq!(fs.ls(), vec![String::from("d - speedtest")]);
    assert_eq!(fs.superblock.filecount, 999);
    assert_eq!(fs.superblock.dircount, 1);
    assert_eq!(fs.next_inode, 1001);
    assert_eq!(fs.cd("speedtest"), Ok(Navigation::Local));
    let lines = fs.ls();
    assert_eq!(lines.len(), 999);
    assert_eq!(lines[0], "f - test1");
    assert_eq!(lines[9], "f - test10");
    assert_eq!(lines[998], "f - test999");
    assert_eq!(fs.files[&3].name, "test1");
    assert_eq!(fs.files[&1001].name, "test999");
}

#[test]
fn speedtest_twice_creates_nothing_new() {
    let mut fs = root();
    assert_eq!(fs.speedtest(), (Benchmark::FilesInCycles, Navigation::Local));
    assert_eq!(fs.speedtest(), (Benchmark::FilesInCycles, Navigation::Local));
    assert_eq!(fs.superblock.filecount, 999);
    assert_eq!(fs.superblock.dircount, 1);
    assert_eq!(fs.next_inode, 1001);
    assert_eq!(fs.get_path_inode(), 1);
}

#[test]
fn speedtest2_stores_the_long_text() {
    let mut fs = root();
    assert_eq!(fs.speedtest2(), Benchmark::TextInCycles(81926));
    let text = fs.read_file("speed", &readings()).unwrap();
    assert_eq!(text.len(), 81920);
    assert_eq!(text, "ABCDEFGHIJ".repeat(8192));
    assert_eq!(fs.ls(), vec![String::from("f - speed")]);
}

#[test]
fn benchmark_lines() {
    assert_eq!(Benchmark::FilesInCycles.report(123456), "Created 1000 empty files in 123456 cycles");
    assert_eq!(Benchmark::FilesInSeconds.report(0), "Created 500 empty files in 0 seconds");
    assert_eq!(
        Benchmark::TextInCycles(81926).report(42),
        "File with a string of size 81926 created in 42 cycles"
    );
    assert_eq!(
        Benchmark::TextInSeconds.report(3),
        "File with a string of size 400 created in 3 seconds"
    );
}

#[test]
fn failures_fall_into_three_families() {
    assert_eq!(FsError::DirectoryExists.kind(), FailureKind::Validation);
    assert_eq!(FsError::FileExists.kind(), FailureKind::Validation);
    assert_eq!(FsError::WriteUsage.kind(), FailureKind::Validation);
    assert_eq!(FsError::FileNotInDirectory.kind(), FailureKind::Lookup);
    assert_eq!(FsError::FileNotInTable.kind(), FailureKind::Lookup);
    assert_eq!(FsError::DirectoryNotInTable.kind(), FailureKind::Lookup);
    assert_eq!(FsError::NoSuchDirectory.kind(), FailureKind::Lookup);
    assert_eq!(FsError::NoSuchFile.kind(), FailureKind::Lookup);
    assert_eq!(FsError::DirectoryNotFound.kind(), FailureKind::Lookup);
    assert_eq!(FsError::NoFilesystem.kind(), FailureKind::Lookup);
    assert_eq!(FsError::ReadOnly.kind(), FailureKind::Policy);
    assert_eq!(FsError::CreationRefused.kind(), FailureKind::Policy);
    assert_eq!(FsError::DirectoryRemovalRefused.kind(), FailureKind::Policy);
    assert_eq!(FsError::FileRemovalRefused.kind(), FailureKind::Policy);
    assert_eq!(FsError::ProtectedFile.kind(), FailureKind::Policy);
    assert_eq!(FsError::InodesExhausted.kind(), FailureKind::Policy);
}

#[test]
fn failures_have_their_diagnostic_lines() {
    assert_eq!(
        FsError::DirectoryExists.message("a"),
        "This directory already exists. Please choose a different name."
    );
    assert_eq!(
        FsError::FileExists.message("a"),
        "This file already exists. Please choose a different name."
    );
    assert_eq!(FsError::WriteUsage.message("a"), "Usage: write <filename> <message>");
    assert_eq!(
        FsError::FileNotInDirectory.message("note"),
        "Cannot find note inside the current dir."
    );
    assert_eq!(FsError::FileNotInTable.message("note"), "Cannot find note in the global FileMap.");
    assert_eq!(
        FsError::DirectoryNotInTable.message("note"),
        "Cannot find the current dir in the global DirMap."
    );
    assert_eq!(FsError::NoSuchDirectory.message("a"), "Cannot find a dir with that name");
    assert_eq!(FsError::NoSuchFile.message("a"), "Cannot find a file with that name");
    assert_eq!(FsError::DirectoryNotFound.message("docs"), "Couldn't find docs in the current dir.");
    assert_eq!(FsError::NoFilesystem.message(""), "Could not get current filesystem!");
    assert_eq!(FsError::ReadOnly.message("a"), "This file is read-only!");
    assert_eq!(FsError::CreationRefused.message("a"), "Cannot add files in this filesystem!");
    assert_eq!(
        FsError::DirectoryRemovalRefused.message("a"),
        "Cannot remove directories in this filesystem!"
    );
    assert_eq!(
        FsError::FileRemovalRefused.message("a"),
        "Cannot remove files in this filesystem!"
    );
    assert_eq!(FsError::ProtectedFile.message("pci"), "Cannot remove pci file!");
    assert_eq!(
        FsError::InodesExhausted.message("a"),
        "No inode numbers are left in this filesystem!"
    );
}

#[test]
fn trivial_assertion() {
    assert_eq!(1, 1);
}
