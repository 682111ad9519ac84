use blog_os::fs::fs::{Benchmark, FsError, Navigation, Operations};
use blog_os::fs::policy::Readings;
use blog_os::fs::procfs;
use blog_os::fs::sysfs;

fn readings(uptime: u64, bus_report: &str) -> Readings {
    Readings {
        heap_size: 102400,
        heap_start: 0x4444_4444_0000,
        uptime,
        cycles: 1234,
        bus_report: String::from(bus_report),
    }
}

fn lines(of: &[&str]) -> Vec<String> {
    of.iter().map(|line| String::from(*line)).collect()
}

#[test]
fn synthetic_tree_as_mounted() {
    let fs = procfs::FileSystem::new(Some(0));
    assert_eq!(fs.ls(), lines(&["d - sys", "f - meminfo", "f - mounts", "f - uptime", "f - color"]));
    assert_eq!(fs.get_path(), "proc/");
    assert_eq!(fs.get_path_inode(), 1);
    assert_eq!(fs.get_parent(), Some(0));
    assert_eq!(fs.get_sb_device(), "proc");
    assert_eq!(fs.tree.next_inode, 8);
    assert_eq!(fs.tree.superblock.filecount, 5);
    assert_eq!(fs.tree.superblock.dircount, 2);
    assert_eq!(fs.tree.directories[&1].name, "proc");
    assert_eq!(fs.tree.directories[&6].name, "sys");
    assert_eq!(fs.tree.directories[&6].parent, Some(1));
    assert_eq!(fs.tree.directories[&6].subdirectories[&7], "fs");
    assert!(fs.tree.directories[&6].files.is_empty());
    assert_eq!(fs.tree.directories[&7].name, "fs");
    assert_eq!(fs.tree.directories[&7].parent, Some(6));
    assert_eq!(fs.tree.directories[&7].files[&8], "inode-state");
    assert_eq!(fs.tree.directories.len(), 3);
    assert_eq!(fs.tree.files.len(), 5);
    assert_eq!(fs.tree.files[&5].content, "Black Yellow");
    assert_eq!(fs.tree.files[&8].name, "inode-state");
}

#[test]
fn every_entry_of_the_synthetic_tree_is_listed_by_its_parent() {
    let fs = procfs::FileSystem::new(Some(0));
    for (inode, dir) in &fs.tree.directories {
        if *inode != 1 {
            let parent = &fs.tree.directories[&dir.parent.unwrap()];
            assert_eq!(parent.subdirectories[inode], dir.name);
        }
    }
    for (inode, file) in &fs.tree.files {
        let listed: Vec<&String> =
            fs.tree.directories.values().filter_map(|dir| dir.files.get(inode)).collect();
        assert_eq!(listed, vec![&file.name]);
    }
}

#[test]
fn synthetic_files_are_derived_on_read() {
    let mut fs = procfs::FileSystem::new(Some(0));
    assert_eq!(
        fs.read_file("meminfo", &readings(7, "")),
        Ok(String::from("Heap Size: 102400 bytes\nHeap Start: 0x444444440000"))
    );
    assert_eq!(fs.tree.files[&2].content, "Heap Size: 102400 bytes\nHeap Start: 0x444444440000");
    assert_eq!(
        fs.read_file("mounts", &readings(7, "")),
        Ok(String::from("Currently mounted filesystem: proc"))
    );
    assert_eq!(fs.read_file("color", &readings(7, "")), Ok(String::from("Black Yellow")));
    assert_eq!(fs.read_file("nothing", &readings(7, "")), Err(FsError::FileNotInDirectory));
}

#[test]
fn uptime_is_not_cached() {
    let mut fs = procfs::FileSystem::new(Some(0));
    let first = fs.read_file("uptime", &readings(7, ""));
    let second = fs.read_file("uptime", &readings(8, ""));
    assert_eq!(first, Ok(String::from("System running time: 7 seconds.")));
    assert_eq!(second, Ok(String::from("System running time: 8 seconds.")));
    assert_ne!(first, second);
    assert_eq!(fs.tree.files[&4].content, "System running time: 8 seconds.");
}

#[test]
fn inode_state_lists_the_tables() {
    let mut fs = procfs::FileSystem::new(Some(0));
    assert_eq!(fs.read_file("inode-state", &readings(7, "")), Err(FsError::FileNotInDirectory));
    assert_eq!(fs.cd("sys"), Ok(Navigation::Local));
    assert_eq!(fs.get_path(), "proc/sys/");
    assert_eq!(fs.ls(), lines(&["d - fs"]));
    assert_eq!(fs.read_file("inode-state", &readings(7, "")), Err(FsError::FileNotInDirectory));
    assert_eq!(fs.cd("fs"), Ok(Navigation::Local));
    assert_eq!(fs.get_path(), "proc/sys/fs/");
    assert_eq!(fs.ls(), lines(&["f - inode-state"]));
    assert_eq!(
        fs.read_file("inode-state", &readings(7, "")),
        Ok(String::from(
            "InodeCount: 8\nCurrent Path: 7\nInode   Dirname/Filename\n\
             1       proc\n6       sys\n7       fs\n\
             2       meminfo\n3       mounts\n4       uptime\n5       color\n8       inode-state\n"
        ))
    );
    assert_eq!(fs.read_file("meminfo", &readings(7, "")), Err(FsError::FileNotInDirectory));
    assert_eq!(fs.cd(".."), Ok(Navigation::Local));
    assert_eq!(fs.get_path_inode(), 6);
    assert_eq!(fs.cd(".."), Ok(Navigation::Local));
    assert_eq!(fs.get_path_inode(), 1);
    assert_eq!(fs.cd(".."), Ok(Navigation::Host(0)));
    assert_eq!(fs.get_path_inode(), 1);
}

#[test]
fn synthetic_files_are_read_only() {
    let mut fs = procfs::FileSystem::new(Some(0));
    let refused = fs.write_file("meminfo something");
    assert_eq!(refused.result, Err(FsError::ReadOnly));
    assert_eq!(refused.colors, None);
    assert_eq!(fs.write_file("nothing something").result, Err(FsError::FileNotInDirectory));
    assert_eq!(fs.write_file("meminfo").result, Err(FsError::WriteUsage));
    assert_eq!(fs.tree.files[&2].content, "");
    assert_eq!(fs.create_file("new"), Err(FsError::CreationRefused));
    assert_eq!(fs.remove_file("meminfo"), Err(FsError::FileRemovalRefused));
    assert_eq!(fs.remove_dir("sys"), Err(FsError::DirectoryRemovalRefused));
    assert_eq!(fs.ls(), lines(&["d - sys", "f - meminfo", "f - mounts", "f - uptime", "f - color"]));
    assert_eq!(fs.tree.next_inode, 8);
}

#[test]
fn two_colours_are_stored_and_handed_on() {
    let mut fs = procfs::FileSystem::new(Some(0));
    let written = fs.write_file("color Red Blue");
    assert_eq!(written.result, Ok(()));
    assert_eq!(written.colors, Some((String::from("Red"), String::from("Blue"))));
    assert_eq!(fs.read_file("color", &readings(7, "")), Ok(String::from("Red Blue")));
    assert_eq!(fs.tree.files[&5].content, "Red Blue");
    assert_eq!(fs.tree.files[&5].name, "color");
    assert_eq!(fs.tree.files[&2].content, "");
    assert_eq!(fs.tree.next_inode, 8);
    assert_eq!(fs.get_path_inode(), 1);
    let longer = fs.write_file("color Light Gray on top");
    assert_eq!(longer.result, Ok(()));
    assert_eq!(longer.colors, Some((String::from("Light"), String::from("Gray on top"))));
    assert_eq!(
        fs.read_file("color", &readings(7, "")),
        Ok(String::from("Light Gray on top"))
    );
    let empty = fs.write_file("color Red ");
    assert_eq!(empty.result, Ok(()));
    assert_eq!(empty.colors, Some((String::from("Red"), String::new())));
    assert_eq!(fs.read_file("color", &readings(7, "")), Ok(String::from("Red ")));
}

#[test]
fn fewer_than_two_colours_change_nothing() {
    let mut fs = procfs::FileSystem::new(Some(0));
    let one = fs.write_file("color Red");
    assert_eq!(one.result, Ok(()));
    assert_eq!(one.colors, None);
    let none = fs.write_file("color");
    assert_eq!(none.result, Err(FsError::WriteUsage));
    assert_eq!(none.colors, None);
    let blank = fs.write_file("color ");
    assert_eq!(blank.result, Ok(()));
    assert_eq!(blank.colors, None);
    assert_eq!(fs.read_file("color", &readings(7, "")), Ok(String::from("Black Yellow")));
}

#[test]
fn colours_away_from_the_colour_file_are_neither_stored_nor_handed_on() {
    let mut fs = procfs::FileSystem::new(Some(0));
    assert_eq!(fs.cd("sys"), Ok(Navigation::Local));
    let written = fs.write_file("color Red Blue");
    assert_eq!(written.result, Err(FsError::FileNotInDirectory));
    assert_eq!(written.colors, None);
    assert_eq!(fs.tree.files[&5].content, "Black Yellow");
}

#[test]
fn synthetic_tree_takes_directories() {
    let mut fs = procfs::FileSystem::new(Some(0));
    assert_eq!(fs.mkdir("extra", false), Ok(9));
    assert_eq!(fs.mkdir("sys", false), Err(FsError::DirectoryExists));
    assert_eq!(fs.cd("extra"), Ok(Navigation::Local));
    assert_eq!(fs.get_path(), "proc/extra/");
    assert_eq!(fs.get_sb_info(9), "Device: proc\nFilecount: 5\nDircount: 3\nCurrent time-stamp counter: 9");
}

#[test]
fn synthetic_self_tests() {
    let mut fs = procfs::FileSystem::new(Some(0));
    assert_eq!(fs.speedtest(), (Benchmark::FilesInSeconds, Navigation::Local));
    assert_eq!(fs.tree.superblock.filecount, 5 + 999);
    assert_eq!(fs.get_path_inode(), 1);
    assert_eq!(fs.speedtest2(), Benchmark::TextInSeconds);
    assert_eq!(fs.read_file("speed", &readings(7, "")), Ok("test".repeat(100)));
    assert_eq!(fs.read_file("speed", &readings(7, "")).unwrap().len(), 400);
}

#[test]
fn hybrid_tree_as_mounted() {
    let fs = sysfs::FileSystem::new(Some(0));
    assert_eq!(fs.ls(), lines(&["f - pci"]));
    assert_eq!(fs.get_path(), "sys/");
    assert_eq!(fs.get_parent(), Some(0));
    assert_eq!(fs.get_sb_device(), "sys");
    assert_eq!(fs.tree.directories[&1].name, "testfs");
    assert_eq!(fs.tree.files[&2].content, "");
    assert_eq!(fs.tree.next_inode, 2);
    assert_eq!(fs.get_sb_info(1), "Device: sys\nFilecount: 1\nDircount: 0\nCurrent time-stamp counter: 1");
}

#[test]
fn bus_file_is_filled_on_read() {
    let mut fs = sysfs::FileSystem::new(Some(0));
    assert_eq!(fs.read_file("pci", &readings(7, "one device\n")), Ok(String::from("one device\n")));
    assert_eq!(fs.tree.files[&2].content, "one device\n");
    assert_eq!(fs.read_file("pci", &readings(7, "")), Ok(String::new()));
    assert_eq!(fs.tree.files[&2].content, "");
    assert_eq!(fs.read_file("pci", &readings(7, "a b  c")), Ok(String::from("a b  c")));
    assert_eq!(fs.tree.files[&2].content, "a b  c");
}

#[test]
fn bus_file_away_from_the_current_directory() {
    let mut fs = sysfs::FileSystem::new(Some(0));
    assert_eq!(fs.mkdir("sub", false), Ok(3));
    assert_eq!(fs.cd("sub"), Ok(Navigation::Local));
    assert_eq!(fs.read_file("pci", &readings(7, "report")), Err(FsError::FileNotInDirectory));
    assert_eq!(fs.tree.files[&2].content, "");
}

#[test]
fn bus_file_is_protected() {
    let mut fs = sysfs::FileSystem::new(Some(0));
    assert_eq!(fs.remove_file("pci"), Err(FsError::ProtectedFile));
    assert_eq!(fs.ls(), lines(&["f - pci"]));
    assert_eq!(fs.mkdir("sub", false), Ok(3));
    assert_eq!(fs.cd("sub"), Ok(Navigation::Local));
    assert_eq!(fs.remove_file("pci"), Err(FsError::ProtectedFile));
}

#[test]
fn hybrid_tree_behaves_like_the_root_otherwise() {
    let mut fs = sysfs::FileSystem::new(Some(0));
    assert_eq!(fs.create_file("note"), Ok(3));
    assert_eq!(fs.write_file("note hello").result, Ok(()));
    assert_eq!(fs.write_file("note hello").colors, None);
    assert_eq!(fs.read_file("note", &readings(7, "report")), Ok(String::from("hello")));
    assert_eq!(fs.write_file("pci by hand").result, Ok(()));
    assert_eq!(fs.tree.files[&2].content, "by hand");
    assert_eq!(fs.remove_file("note"), Ok(()));
    assert_eq!(fs.mkdir("d", false), Ok(4));
    assert_eq!(fs.remove_dir("d"), Ok(()));
    assert_eq!(fs.remove_dir("d"), Err(FsError::NoSuchDirectory));
    assert_eq!(fs.cd(".."), Ok(Navigation::Host(0)));
    assert_eq!(fs.speedtest(), (Benchmark::FilesInSeconds, Navigation::Local));
}

#[test]
fn hybrid_self_tests() {
    let mut fs = sysfs::FileSystem::new(Some(0));
    assert_eq!(fs.mkdir("work", false), Ok(3));
    assert_eq!(fs.cd("work"), Ok(Navigation::Local));
    assert_eq!(fs.speedtest(), (Benchmark::FilesInSeconds, Navigation::Local));
    assert_eq!(fs.get_path(), "sys/work/");
    assert_eq!(fs.speedtest2(), Benchmark::TextInSeconds);
    assert_eq!(fs.read_file("speed", &readings(7, "")), Ok("test".repeat(100)));
}
