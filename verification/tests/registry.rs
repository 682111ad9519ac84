use blog_os::fs::fs::{Benchmark, FsError, Operations};
use blog_os::fs::policy::Readings;
use blog_os::fs::procfs;
use blog_os::fs::registry::{Backend, CommandOutcome, Registry};
use blog_os::fs::svfs::{execute_cmd, getcurfs, getcurpath, init_vfs, FileSystem};
use blog_os::fs::sysfs;

fn readings(bus_report: &str) -> Readings {
    Readings {
        heap_size: 102400,
        heap_start: 0x4444_4444_0000,
        uptime: 7,
        cycles: 1234,
        bus_report: String::from(bus_report),
    }
}

fn lines(of: &[&str]) -> Vec<String> {
    of.iter().map(|line| String::from(*line)).collect()
}

fn run(registry: &mut Registry, line: &str) -> CommandOutcome {
    execute_cmd(registry, String::from(line), &readings("bus report\n"))
}

fn shown(registry: &mut Registry, line: &str) -> Vec<String> {
    let outcome = run(registry, line);
    assert_eq!(outcome.colors, None);
    assert_eq!(outcome.benchmark, None);
    outcome.output
}

fn booted() -> Registry {
    let mut registry = Registry::new();
    init_vfs(&mut registry, 5);
    assert_eq!(procfs::init_procfs(&mut registry), Ok(-1));
    assert_eq!(sysfs::init_sysfs(&mut registry), Ok(-2));
    registry
}

fn cwd_of(registry: &Registry, at: usize) -> i32 {
    registry.fslist[at].get_path_inode()
}

#[test]
fn an_empty_registry_answers_with_a_diagnostic() {
    let mut registry = Registry::new();
    assert!(registry.fslist.is_empty());
    assert_eq!(registry.curfs, 0);
    assert_eq!(shown(&mut registry, "ls"), lines(&["Could not get current filesystem!"]));
    assert_eq!(shown(&mut registry, "mkdir a"), lines(&["Could not get current filesystem!"]));
    assert_eq!(shown(&mut registry, "getinfo"), lines(&["Could not get current filesystem!"]));
    assert_eq!(shown(&mut registry, "speedtest"), lines(&["Could not get current filesystem!"]));
    assert!(shown(&mut registry, "").is_empty());
    assert!(shown(&mut registry, "help").is_empty());
    assert_eq!(getcurpath(&registry), "");
    assert!(!getcurfs(&mut registry, "SVFS"));
    assert_eq!(registry.active_index(), None);
}

#[test]
fn the_top_level_filesystem_comes_first() {
    let mut registry = Registry::new();
    let report = init_vfs(&mut registry, 5);
    assert_eq!(report, "Device: SVFS\nFilecount: 0\nDircount: -1\nCurrent time-stamp counter: 5");
    assert_eq!(registry.fslist.len(), 1);
    assert_eq!(registry.curfs, 0);
    assert_eq!(registry.active_index(), Some(0));
    assert_eq!(getcurpath(&registry), "/");
    assert!(shown(&mut registry, "ls").is_empty());
    assert_eq!(
        shown(&mut registry, "getinfo"),
        lines(&["Device: SVFS\nFilecount: 0\nDircount: 0\nCurrent time-stamp counter: 1234"])
    );
    assert_eq!(shown(&mut registry, "getpath"), lines(&["Current Path: 1"]));
}

#[test]
fn mounts_plant_anchors_in_the_host() {
    let mut registry = booted();
    assert_eq!(registry.fslist.len(), 3);
    assert_eq!(registry.curfs, 0);
    assert_eq!(shown(&mut registry, "ls"), lines(&["d - sys", "d - proc"]));
    assert_eq!(registry.fslist[1].get_parent(), Some(0));
    assert_eq!(registry.fslist[2].get_parent(), Some(0));
    assert_eq!(registry.fslist[1].get_sb_device(), "proc");
    assert_eq!(registry.fslist[2].get_sb_device(), "sys");
    assert_eq!(
        shown(&mut registry, "getinfo"),
        lines(&["Device: SVFS\nFilecount: 0\nDircount: 2\nCurrent time-stamp counter: 1234"])
    );
    assert_eq!(registry.position("proc"), Some(1));
    assert_eq!(registry.position("sys"), Some(2));
    assert_eq!(registry.position("SVFS"), Some(0));
    assert_eq!(registry.position("none"), None);
}

#[test]
fn end_to_end_through_the_command_surface() {
    let mut registry = booted();
    assert!(shown(&mut registry, "mkdir docs").is_empty());
    assert!(shown(&mut registry, "cd docs").is_empty());
    assert!(shown(&mut registry, "touch note").is_empty());
    assert!(shown(&mut registry, "write note hello").is_empty());
    assert_eq!(shown(&mut registry, "read note"), lines(&["hello"]));
    assert_eq!(getcurpath(&registry), "/docs/");
    assert_eq!(shown(&mut registry, "getpath"), lines(&["Current Path: 2"]));
    assert!(shown(&mut registry, "cd ..").is_empty());
    assert_eq!(shown(&mut registry, "ls"), lines(&["d - sys", "d - proc", "d - docs"]));
    assert_eq!(getcurpath(&registry), "/");
}

#[test]
fn leaving_and_entering_a_mount_keeps_its_current_directory() {
    let mut registry = booted();
    assert_eq!(shown(&mut registry, "cd proc"), lines(&["Switched to proc"]));
    assert_eq!(registry.curfs, 1);
    assert_eq!(cwd_of(&registry, 0), 1);
    assert_eq!(cwd_of(&registry, 1), 1);
    assert_eq!(getcurpath(&registry), "/proc/");
    assert!(shown(&mut registry, "cd ..").is_empty());
    assert_eq!(registry.curfs, 0);
    assert_eq!(cwd_of(&registry, 1), 1);
    assert_eq!(getcurpath(&registry), "/");
    assert_eq!(shown(&mut registry, "cd proc"), lines(&["Switched to proc"]));
    assert_eq!(registry.curfs, 1);
    assert_eq!(cwd_of(&registry, 1), 1);
    assert_eq!(
        shown(&mut registry, "ls"),
        lines(&["d - sys", "f - meminfo", "f - mounts", "f - uptime", "f - color"])
    );
}

#[test]
fn a_mount_keeps_its_place_while_another_is_active() {
    let mut registry = booted();
    assert_eq!(shown(&mut registry, "cd proc"), lines(&["Switched to proc"]));
    assert!(shown(&mut registry, "cd sys").is_empty());
    assert_eq!(registry.curfs, 1);
    assert_eq!(cwd_of(&registry, 1), 6);
    assert_eq!(getcurpath(&registry), "/proc/sys/");
    assert!(shown(&mut registry, "cd ..").is_empty());
    assert!(shown(&mut registry, "cd ..").is_empty());
    assert_eq!(registry.curfs, 0);
    assert_eq!(shown(&mut registry, "cd sys"), lines(&["Switched to sys"]));
    assert_eq!(registry.curfs, 2);
    assert_eq!(getcurpath(&registry), "/sys/");
    assert_eq!(shown(&mut registry, "ls"), lines(&["f - pci"]));
}

#[test]
fn a_mount_below_the_root_of_its_host() {
    let mut registry = Registry::new();
    init_vfs(&mut registry, 0);
    assert!(shown(&mut registry, "mkdir mnt").is_empty());
    assert!(shown(&mut registry, "cd mnt").is_empty());
    assert_eq!(procfs::init_procfs(&mut registry), Ok(-1));
    assert_eq!(shown(&mut registry, "ls"), lines(&["d - proc"]));
    assert_eq!(shown(&mut registry, "cd proc"), lines(&["Switched to proc"]));
    assert_eq!(getcurpath(&registry), "/mnt/proc/");
    assert!(shown(&mut registry, "cd ..").is_empty());
    assert_eq!(registry.curfs, 0);
    assert_eq!(getcurpath(&registry), "/mnt/");
    assert_eq!(cwd_of(&registry, 0), 2);
}

#[test]
fn reading_through_the_command_surface() {
    let mut registry = booted();
    assert_eq!(shown(&mut registry, "cd proc"), lines(&["Switched to proc"]));
    assert_eq!(shown(&mut registry, "read uptime"), lines(&["System running time: 7 seconds."]));
    assert_eq!(
        shown(&mut registry, "read meminfo"),
        lines(&["Heap Size: 102400 bytes\nHeap Start: 0x444444440000"])
    );
    assert_eq!(shown(&mut registry, "read nothing"), lines(&["Cannot find nothing inside the current dir."]));
    assert!(shown(&mut registry, "cd ..").is_empty());
    assert_eq!(shown(&mut registry, "cd sys"), lines(&["Switched to sys"]));
    assert_eq!(shown(&mut registry, "read pci"), lines(&["bus report\n"]));
    assert_eq!(shown(&mut registry, "rmf pci"), lines(&["Cannot remove pci file!"]));
}

#[test]
fn colours_through_the_command_surface() {
    let mut registry = booted();
    assert_eq!(shown(&mut registry, "cd proc"), lines(&["Switched to proc"]));
    let two = run(&mut registry, "write color Red Blue");
    assert!(two.output.is_empty());
    assert_eq!(two.colors, Some((String::from("Red"), String::from("Blue"))));
    assert_eq!(two.benchmark, None);
    assert_eq!(shown(&mut registry, "read color"), lines(&["Red Blue"]));
    let one = run(&mut registry, "write color Green");
    assert!(one.output.is_empty());
    assert_eq!(one.colors, None);
    assert_eq!(shown(&mut registry, "read color"), lines(&["Red Blue"]));
    assert_eq!(shown(&mut registry, "write uptime 5"), lines(&["This file is read-only!"]));
    assert_eq!(shown(&mut registry, "cd sys"), Vec::<String>::new());
    let away = run(&mut registry, "write color Red Blue");
    assert_eq!(away.output, lines(&["Cannot find color inside the current dir."]));
    assert_eq!(away.colors, None);
}

#[test]
fn diagnostics_through_the_command_surface() {
    let mut registry = booted();
    assert!(shown(&mut registry, "mkdir a").is_empty());
    assert_eq!(
        shown(&mut registry, "mkdir a"),
        lines(&["This directory already exists. Please choose a different name."])
    );
    assert!(shown(&mut registry, "touch a").is_empty());
    assert_eq!(
        shown(&mut registry, "touch a"),
        lines(&["This file already exists. Please choose a different name."])
    );
    assert_eq!(shown(&mut registry, "write a"), lines(&["Usage: write <filename> <message>"]));
    assert_eq!(shown(&mut registry, "write b text"), lines(&["Cannot find b inside the current dir."]));
    assert_eq!(shown(&mut registry, "read b"), lines(&["Cannot find b inside the current dir."]));
    assert_eq!(shown(&mut registry, "rmf b"), lines(&["Cannot find a file with that name"]));
    assert_eq!(shown(&mut registry, "rmd b"), lines(&["Cannot find a dir with that name"]));
    assert_eq!(shown(&mut registry, "cd b"), lines(&["Couldn't find b in the current dir."]));
    assert!(shown(&mut registry, "rmf a").is_empty());
    assert!(shown(&mut registry, "rmd a").is_empty());
    assert_eq!(shown(&mut registry, "ls"), lines(&["d - sys", "d - proc"]));
    assert_eq!(shown(&mut registry, "cd proc"), lines(&["Switched to proc"]));
    assert_eq!(shown(&mut registry, "touch a"), lines(&["Cannot add files in this filesystem!"]));
    assert_eq!(shown(&mut registry, "rmf uptime"), lines(&["Cannot remove files in this filesystem!"]));
    assert_eq!(shown(&mut registry, "rmd sys"), lines(&["Cannot remove directories in this filesystem!"]));
}

#[test]
fn self_tests_through_the_command_surface() {
    let mut registry = booted();
    let first = run(&mut registry, "speedtest");
    assert!(first.output.is_empty());
    assert_eq!(first.benchmark, Some(Benchmark::FilesInCycles));
    assert_eq!(shown(&mut registry, "ls"), lines(&["d - sys", "d - proc", "d - speedtest"]));
    let second = run(&mut registry, "speedtest2");
    assert_eq!(second.benchmark, Some(Benchmark::TextInCycles(81926)));
    assert_eq!(shown(&mut registry, "ls"), lines(&["d - sys", "d - proc", "d - speedtest", "f - speed"]));
    assert_eq!(shown(&mut registry, "cd sys"), lines(&["Switched to sys"]));
    let hosted = run(&mut registry, "speedtest");
    assert_eq!(hosted.benchmark, Some(Benchmark::FilesInSeconds));
    assert_eq!(registry.curfs, 2);
    let text = run(&mut registry, "speedtest2");
    assert_eq!(text.benchmark, Some(Benchmark::TextInSeconds));
}

#[test]
fn an_anchor_without_its_filesystem_leads_nowhere() {
    let mut registry = Registry::new();
    init_vfs(&mut registry, 0);
    assert_eq!(registry.fslist[0].mkdir("ghost", true), Ok(-1));
    assert!(shown(&mut registry, "cd ghost").is_empty());
    assert_eq!(registry.curfs, 0);
    assert_eq!(cwd_of(&registry, 0), 1);
}

#[test]
fn removing_an_anchor_cuts_the_way_in() {
    let mut registry = booted();
    assert!(shown(&mut registry, "rmd proc").is_empty());
    assert_eq!(shown(&mut registry, "ls"), lines(&["d - sys"]));
    assert_eq!(shown(&mut registry, "cd proc"), lines(&["Couldn't find proc in the current dir."]));
    assert_eq!(registry.fslist.len(), 3);
    assert!(getcurfs(&mut registry, "proc"));
    assert_eq!(registry.curfs, 1);
}

#[test]
fn mounting_under_a_taken_name_still_joins_the_list() {
    let mut registry = Registry::new();
    init_vfs(&mut registry, 0);
    assert!(shown(&mut registry, "mkdir proc").is_empty());
    assert_eq!(procfs::init_procfs(&mut registry), Err(FsError::DirectoryExists));
    assert_eq!(registry.fslist.len(), 2);
    assert_eq!(shown(&mut registry, "ls"), lines(&["d - proc"]));
    assert!(shown(&mut registry, "cd proc").is_empty());
    assert_eq!(registry.curfs, 0);
    assert_eq!(getcurpath(&registry), "/proc/");
}

#[test]
fn mounting_without_an_active_filesystem_mounts_nothing() {
    let mut registry = Registry::new();
    assert_eq!(procfs::init_procfs(&mut registry), Err(FsError::NoFilesystem));
    assert!(registry.fslist.is_empty());
    init_vfs(&mut registry, 0);
    registry.curfs = 7;
    assert_eq!(sysfs::mount_fs(&mut registry, sysfs::FileSystem::new(Some(7))), Err(FsError::NoFilesystem));
    assert_eq!(registry.fslist.len(), 1);
    registry.curfs = -1;
    assert_eq!(procfs::mount_fs(&mut registry, procfs::FileSystem::new(None)), Err(FsError::NoFilesystem));
    assert_eq!(registry.fslist.len(), 1);
    assert_eq!(getcurpath(&registry), "");
}

#[test]
fn activating_by_device_name() {
    let mut registry = booted();
    assert!(getcurfs(&mut registry, "sys"));
    assert_eq!(registry.curfs, 2);
    assert!(!getcurfs(&mut registry, "none"));
    assert_eq!(registry.curfs, 2);
    assert!(getcurfs(&mut registry, "SVFS"));
    assert_eq!(registry.curfs, 0);
    assert_eq!(registry.mount(Backend::Root(FileSystem::new("sys", "/", Some(0)))), Err(FsError::DirectoryExists));
    assert!(getcurfs(&mut registry, "sys"));
    assert_eq!(registry.curfs, 2);
}

#[test]
fn a_host_outside_the_list_adds_nothing_to_the_path() {
    let mut registry = Registry::new();
    registry.fslist.push(Backend::Root(FileSystem::new("data", "data", Some(9))));
    assert_eq!(getcurpath(&registry), "data/");
    assert!(shown(&mut registry, "cd ..").is_empty());
    assert_eq!(registry.curfs, 9);
    assert_eq!(shown(&mut registry, "ls"), lines(&["Could not get current filesystem!"]));
    assert_eq!(getcurpath(&registry), "");
}
