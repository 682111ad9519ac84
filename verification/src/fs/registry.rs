//! The registry: the ordered list of mounted back-ends and the index of the
//! active one.

use vstd::prelude::*;
use vstd::string::*;
use crate::fs::command::{parse, parse_line, Command, CommandView};
use crate::fs::consistency::lemma_named;
use crate::fs::laws::{counters_kept, law_backend_counters, law_counters};
use crate::fs::fs::{BackendKind, Benchmark, FsError, Navigation, Operations};
use crate::fs::model::FsView;
use crate::fs::policy::{
    create_file_step, lines_of, read_step, remove_dir_step, remove_file_step,
    speedtest2_benchmark, speedtest2_step, speedtest_benchmark, speedtest_step, write_step,
    Readings, ReadingsView, WriteOutcome,
};
use crate::fs::text::{push_signed, same_text, signed_decimal, split_at_space, split_message};
use crate::fs::procfs;
use crate::fs::svfs;
use crate::fs::sysfs;

verus! {

/// One mounted back-end, whichever of the three it is.
#[derive(Debug)]
pub enum Backend {
    Root(svfs::FileSystem),
    Synthetic(procfs::FileSystem),
    Hybrid(sysfs::FileSystem),
}

/// A mounted back-end as the contracts see it: its kind and its instance.
pub struct BackendView {
    pub kind: BackendKind,
    pub fs: FsView,
}

impl View for Backend {
    type V = BackendView;

    open spec fn view(&self) -> BackendView {
        match self {
            Backend::Root(fs) => BackendView { kind: BackendKind::Root, fs: fs@ },
            Backend::Synthetic(fs) => BackendView { kind: BackendKind::Synthetic, fs: fs@ },
            Backend::Hybrid(fs) => BackendView { kind: BackendKind::Hybrid, fs: fs@ },
        }
    }
}

impl Operations for Backend {
    open spec fn kind(&self) -> BackendKind {
        self@.kind
    }

    open spec fn state(&self) -> FsView {
        self@.fs
    }

    fn mkdir(&mut self, dname: &str, fscheck: bool) -> (r: Result<i32, FsError>) {
        match self {
            Backend::Root(fs) => fs.mkdir(dname, fscheck),
            Backend::Synthetic(fs) => fs.mkdir(dname, fscheck),
            Backend::Hybrid(fs) => fs.mkdir(dname, fscheck),
        }
    }

    fn read_file(&mut self, fname: &str, readings: &Readings) -> (r: Result<String, FsError>) {
        match self {
            Backend::Root(fs) => fs.read_file(fname, readings),
            Backend::Synthetic(fs) => fs.read_file(fname, readings),
            Backend::Hybrid(fs) => fs.read_file(fname, readings),
        }
    }

    fn write_file(&mut self, msg: &str) -> (r: WriteOutcome) {
        match self {
            Backend::Root(fs) => fs.write_file(msg),
            Backend::Synthetic(fs) => fs.write_file(msg),
            Backend::Hybrid(fs) => fs.write_file(msg),
        }
    }

    fn create_file(&mut self, fname: &str) -> (r: Result<i32, FsError>) {
        match self {
            Backend::Root(fs) => fs.create_file(fname),
            Backend::Synthetic(fs) => fs.create_file(fname),
            Backend::Hybrid(fs) => fs.create_file(fname),
        }
    }

    fn remove_dir(&mut self, dname: &str) -> (r: Result<(), FsError>) {
        match self {
            Backend::Root(fs) => fs.remove_dir(dname),
            Backend::Synthetic(fs) => fs.remove_dir(dname),
            Backend::Hybrid(fs) => fs.remove_dir(dname),
        }
    }

    fn remove_file(&mut self, fname: &str) -> (r: Result<(), FsError>) {
        match self {
            Backend::Root(fs) => fs.remove_file(fname),
            Backend::Synthetic(fs) => fs.remove_file(fname),
            Backend::Hybrid(fs) => fs.remove_file(fname),
        }
    }

    fn get_path(&self) -> (r: String) {
        match self {
            Backend::Root(fs) => fs.get_path(),
            Backend::Synthetic(fs) => fs.get_path(),
            Backend::Hybrid(fs) => fs.get_path(),
        }
    }

    fn ls(&self) -> (r: Vec<String>) {
        match self {
            Backend::Root(fs) => fs.ls(),
            Backend::Synthetic(fs) => fs.ls(),
            Backend::Hybrid(fs) => fs.ls(),
        }
    }

    fn cd(&mut self, dname: &str) -> (r: Result<Navigation, FsError>) {
        match self {
            Backend::Root(fs) => fs.cd(dname),
            Backend::Synthetic(fs) => fs.cd(dname),
            Backend::Hybrid(fs) => fs.cd(dname),
        }
    }

    fn get_sb_info(&self, cycles: u64) -> (r: String) {
        match self {
            Backend::Root(fs) => fs.get_sb_info(cycles),
            Backend::Synthetic(fs) => fs.get_sb_info(cycles),
            Backend::Hybrid(fs) => fs.get_sb_info(cycles),
        }
    }

    fn get_path_inode(&self) -> (r: i32) {
        match self {
            Backend::Root(fs) => fs.get_path_inode(),
            Backend::Synthetic(fs) => fs.get_path_inode(),
            Backend::Hybrid(fs) => fs.get_path_inode(),
        }
    }

    fn get_parent(&self) -> (r: Option<i32>) {
        match self {
            Backend::Root(fs) => fs.get_parent(),
            Backend::Synthetic(fs) => fs.get_parent(),
            Backend::Hybrid(fs) => fs.get_parent(),
        }
    }

    fn get_sb_device(&self) -> (r: String) {
        match self {
            Backend::Root(fs) => fs.get_sb_device(),
            Backend::Synthetic(fs) => fs.get_sb_device(),
            Backend::Hybrid(fs) => fs.get_sb_device(),
        }
    }

    fn speedtest(&mut self) -> (r: (Benchmark, Navigation)) {
        match self {
            Backend::Root(fs) => fs.speedtest(),
            Backend::Synthetic(fs) => fs.speedtest(),
            Backend::Hybrid(fs) => fs.speedtest(),
        }
    }

    fn speedtest2(&mut self) -> (r: Benchmark) {
        match self {
            Backend::Root(fs) => fs.speedtest2(),
            Backend::Synthetic(fs) => fs.speedtest2(),
            Backend::Hybrid(fs) => fs.speedtest2(),
        }
    }
}

/// The mounted back-ends in the order in which they were mounted, and the
/// index of the one that commands go to.
#[derive(Debug)]
pub struct Registry {
    pub fslist: Vec<Backend>,
    pub curfs: i32,
}

/// The registry as the contracts see it.
pub struct RegistryView {
    pub fslist: Seq<BackendView>,
    pub curfs: i32,
}

impl View for Registry {
    type V = RegistryView;

    open spec fn view(&self) -> RegistryView {
        RegistryView { fslist: self.fslist@.map_values(|b: Backend| b@), curfs: self.curfs }
    }
}

/// What a command leaves for the caller to do: lines to show, colours to hand
/// to the display, and a self-test to report once its time is known.
#[derive(Debug)]
pub struct CommandOutcome {
    pub output: Vec<String>,
    pub colors: Option<(String, String)>,
    pub benchmark: Option<Benchmark>,
}

/// The outcome of a command as the contracts see it.
pub struct CommandOutcomeView {
    pub output: Seq<Seq<char>>,
    pub colors: Option<(Seq<char>, Seq<char>)>,
    pub benchmark: Option<Benchmark>,
}

impl View for CommandOutcome {
    type V = CommandOutcomeView;

    open spec fn view(&self) -> CommandOutcomeView {
        CommandOutcomeView {
            output: lines_of(self.output@),
            colors: match self.colors {
                Some((fg, bg)) => Some((fg@, bg@)),
                None => None,
            },
            benchmark: self.benchmark,
        }
    }
}

/// An outcome with nothing to show and nothing to do.
pub open spec fn silent() -> CommandOutcomeView {
    CommandOutcomeView { output: Seq::empty(), colors: None, benchmark: None }
}

/// An outcome that shows the lines `output` and nothing else.
pub open spec fn shown(output: Seq<Seq<char>>) -> CommandOutcomeView {
    CommandOutcomeView { output, colors: None, benchmark: None }
}

/// The outcome of an operation on `name` that has nothing to show unless it
/// failed: then it shows the diagnostic line.
pub open spec fn answered<T>(r: Result<T, FsError>, name: Seq<char>) -> CommandOutcomeView {
    match r {
        Ok(_) => silent(),
        Err(e) => shown(seq![e.message_text(name)]),
    }
}

/// The file that a write message names: what stands before its first space.
pub open spec fn written_name(message: Seq<char>) -> Seq<char> {
    match split_at_space(message) {
        Some((name, _)) => name,
        None => message,
    }
}

/// `i` is the first position of `list` that holds an instance for the device
/// `name`.
pub open spec fn is_first_position(list: Seq<BackendView>, name: Seq<char>, i: int) -> bool {
    &&& 0 <= i < list.len()
    &&& list[i].fs.superblock.device == name
    &&& forall|j: int| 0 <= j < i ==> list[j].fs.superblock.device != name
}

impl RegistryView {
    /// Every mounted instance is consistent, and the list is short enough for
    /// its positions to be counted.
    pub open spec fn wf(self) -> bool {
        &&& self.fslist.len() <= i32::MAX
        &&& forall|i: int| 0 <= i < self.fslist.len() ==> (#[trigger] self.fslist[i]).fs.wf()
    }

    /// Whether the active index names a mounted instance.
    pub open spec fn has_active(self) -> bool {
        0 <= self.curfs < self.fslist.len()
    }

    /// The active instance.
    pub open spec fn active(self) -> BackendView
        recommends
            self.has_active(),
    {
        self.fslist[self.curfs as int]
    }

    /// The registry with `fs` in place of the active instance.
    pub open spec fn with_active(self, fs: FsView) -> RegistryView {
        RegistryView {
            fslist: self.fslist.update(
                self.curfs as int,
                BackendView { kind: self.active().kind, fs },
            ),
            ..self
        }
    }

    /// The registry with the index that `to` names as the active one.
    pub open spec fn moved(self, to: Navigation) -> RegistryView {
        match to {
            Navigation::Host(host) => RegistryView { curfs: host, ..self },
            _ => self,
        }
    }

    /// The first position that holds an instance for the device `name`.
    pub open spec fn position_of(self, name: Seq<char>) -> Option<int> {
        if exists|i: int| is_first_position(self.fslist, name, i) {
            Some(choose|i: int| is_first_position(self.fslist, name, i))
        } else {
            None
        }
    }

    /// Makes the first instance for the device `name` the active one. Without
    /// such an instance nothing changes.
    pub open spec fn activate(self, name: Seq<char>) -> (RegistryView, bool) {
        match self.position_of(name) {
            Some(i) => (RegistryView { curfs: i as i32, ..self }, true),
            None => (self, false),
        }
    }

    /// Mounts `backend` under the current directory of the active instance:
    /// an anchor with the device name of `backend` is planted there, and
    /// `backend` joins the end of the list. Where the anchor cannot be planted
    /// the back-end joins the list all the same; without an active instance
    /// nothing is mounted.
    pub open spec fn mount(self, backend: BackendView) -> (RegistryView, Result<i32, FsError>) {
        if !self.has_active() {
            (self, Err(FsError::NoFilesystem))
        } else {
            let (host, planted) = self.active().fs.make_directory(
                backend.fs.superblock.device,
                true,
            );
            let hosted = self.with_active(host);
            (RegistryView { fslist: hosted.fslist.push(backend), ..hosted }, planted)
        }
    }

    /// The path of the current directory of the active instance, behind the
    /// path of the current directory of its host if it has one. One level of
    /// hosting is followed, no more.
    pub open spec fn full_path(self) -> Seq<char> {
        if !self.has_active() {
            Seq::empty()
        } else {
            let own = self.active().fs.path();
            match self.active().fs.parent_registry_index {
                Some(host) => if 0 <= host < self.fslist.len() {
                    self.fslist[host as int].fs.path() + own
                } else {
                    own
                },
                None => own,
            }
        }
    }

    /// `mkdir` on the active instance.
    pub open spec fn run_mkdir(self, name: Seq<char>) -> (RegistryView, CommandOutcomeView) {
        let (next, r) = self.active().fs.make_directory(name, false);
        (self.with_active(next), answered(r, name))
    }

    /// `touch` on the active instance.
    pub open spec fn run_touch(self, name: Seq<char>) -> (RegistryView, CommandOutcomeView) {
        let (next, r) = create_file_step(self.active().kind, self.active().fs, name);
        (self.with_active(next), answered(r, name))
    }

    /// `write` on the active instance. A failure is reported for the file
    /// that the message names.
    pub open spec fn run_write(self, message: Seq<char>) -> (RegistryView, CommandOutcomeView) {
        let (next, r) = write_step(self.active().kind, self.active().fs, message);
        (
            self.with_active(next),
            CommandOutcomeView { colors: r.colors, ..answered(r.result, written_name(message)) },
        )
    }

    /// `read` on the active instance: the content is shown, or the diagnostic.
    pub open spec fn run_read(self, name: Seq<char>, readings: ReadingsView) -> (
        RegistryView,
        CommandOutcomeView,
    ) {
        let (next, r) = read_step(self.active().kind, self.active().fs, name, readings);
        (
            self.with_active(next),
            match r {
                Ok(text) => shown(seq![text]),
                Err(e) => shown(seq![e.message_text(name)]),
            },
        )
    }

    /// `rmf` on the active instance.
    pub open spec fn run_remove_file(self, name: Seq<char>) -> (RegistryView, CommandOutcomeView) {
        let (next, r) = remove_file_step(self.active().kind, self.active().fs, name);
        (self.with_active(next), answered(r, name))
    }

    /// `rmd` on the active instance.
    pub open spec fn run_remove_dir(self, name: Seq<char>) -> (RegistryView, CommandOutcomeView) {
        let (next, r) = remove_dir_step(self.active().kind, self.active().fs, name);
        (self.with_active(next), answered(r, name))
    }

    /// `cd` on the active instance. Across a mount anchor the first instance
    /// for the device of that name becomes the active one, and the switch is
    /// shown; out of the root of a hosted instance the host becomes the active
    /// one, silently.
    pub open spec fn run_cd(self, name: Seq<char>) -> (RegistryView, CommandOutcomeView) {
        let (next, r) = self.active().fs.change_directory(name);
        let stepped = self.with_active(next);
        match r {
            Err(e) => (stepped, shown(seq![e.message_text(name)])),
            Ok(Navigation::Mount) => {
                let (switched, found) = stepped.activate(name);
                (
                    switched,
                    if found {
                        shown(seq!["Switched to "@ + name])
                    } else {
                        silent()
                    },
                )
            },
            Ok(to) => (stepped.moved(to), silent()),
        }
    }

    /// `speedtest` on the active instance.
    pub open spec fn run_speedtest(self) -> (RegistryView, CommandOutcomeView) {
        let (next, to) = speedtest_step(self.active().fs);
        (
            self.with_active(next).moved(to),
            CommandOutcomeView {
                benchmark: Some(speedtest_benchmark(self.active().kind)),
                ..silent()
            },
        )
    }

    /// `speedtest2` on the active instance.
    pub open spec fn run_speedtest2(self) -> (RegistryView, CommandOutcomeView) {
        (
            self.with_active(speedtest2_step(self.active().kind, self.active().fs)),
            CommandOutcomeView {
                benchmark: Some(speedtest2_benchmark(self.active().kind)),
                ..silent()
            },
        )
    }

    /// What a command does to the registry, and what it leaves for the
    /// caller. No verb does nothing; a verb without an active instance is
    /// answered with a diagnostic.
    pub open spec fn run(self, command: CommandView, readings: ReadingsView) -> (
        RegistryView,
        CommandOutcomeView,
    ) {
        if command is Nothing {
            (self, silent())
        } else if !self.has_active() {
            (self, shown(seq![FsError::NoFilesystem.message_text(Seq::empty())]))
        } else {
            match command {
                CommandView::Mkdir(name) => self.run_mkdir(name),
                CommandView::Touch(name) => self.run_touch(name),
                CommandView::Write(message) => self.run_write(message),
                CommandView::Read(name) => self.run_read(name, readings),
                CommandView::RemoveFile(name) => self.run_remove_file(name),
                CommandView::RemoveDir(name) => self.run_remove_dir(name),
                CommandView::Cd(name) => self.run_cd(name),
                CommandView::Ls => (self, shown(self.active().fs.listing())),
                CommandView::GetInfo => (
                    self,
                    shown(seq![self.active().fs.superblock.report(readings.cycles)]),
                ),
                CommandView::GetPath => (
                    self,
                    shown(seq!["Current Path: "@ + signed_decimal(self.active().fs.cwd as int)]),
                ),
                CommandView::Speedtest => self.run_speedtest(),
                CommandView::Speedtest2 => self.run_speedtest2(),
                CommandView::Nothing => (self, silent()),
            }
        }
    }

    /// Whether a line reads the bus file of a hybrid back-end, which is the
    /// one command that looks at the report of a bus scan.
    pub open spec fn needs_bus_report(self, line: Seq<char>) -> bool {
        &&& self.has_active()
        &&& self.active().kind == BackendKind::Hybrid
        &&& parse_line(line) == CommandView::Read("pci"@)
    }

    /// What a line of text does to the registry, and what it leaves for the
    /// caller.
    pub open spec fn execute(self, line: Seq<char>, readings: ReadingsView) -> (
        RegistryView,
        CommandOutcomeView,
    ) {
        self.run(parse_line(line), readings)
    }
}

/// Putting a consistent instance in the place of the active one keeps the
/// registry consistent.
pub proof fn lemma_with_active_wf(registry: RegistryView, fs: FsView)
    requires
        registry.wf(),
        registry.has_active(),
        fs.wf(),
    ensures
        registry.with_active(fs).wf(),
        registry.with_active(fs).has_active(),
        registry.with_active(fs).active().fs == fs,
        registry.with_active(fs).active().kind == registry.active().kind,
{
    let next = registry.with_active(fs);
    assert forall|i: int| 0 <= i < next.fslist.len() implies (#[trigger] next.fslist[i]).fs.wf() by {}
}

/// Any two first positions of a device name are the same position.
pub proof fn lemma_first_position_unique(list: Seq<BackendView>, name: Seq<char>, i: int, j: int)
    requires
        is_first_position(list, name, i),
        is_first_position(list, name, j),
    ensures
        i == j,
{
}

/// No line of text takes an instance out of the registry, puts one in, or
/// lets the counters of any instance come closer together: what a command
/// hands out as an identifier was never handed out before.
pub proof fn law_execute_keeps_counters(
    registry: RegistryView,
    line: Seq<char>,
    readings: ReadingsView,
)
    requires
        registry.wf(),
    ensures
        registry.execute(line, readings).0.fslist.len() == registry.fslist.len(),
        forall|i: int|
            0 <= i < registry.fslist.len() ==> {
                &&& (#[trigger] registry.execute(line, readings).0.fslist[i]).kind
                    == registry.fslist[i].kind
                &&& counters_kept(
                    registry.fslist[i].fs,
                    registry.execute(line, readings).0.fslist[i].fs,
                )
            },
{
    let command = parse_line(line);
    if !(command is Nothing) && registry.has_active() {
        let fs = registry.active().fs;
        let kind = registry.active().kind;
        match command {
            CommandView::Mkdir(name) => {
                law_counters(fs, name, name, false);
            },
            CommandView::Touch(name) => {
                law_backend_counters(kind, fs, name, readings);
            },
            CommandView::Write(message) => {
                law_backend_counters(kind, fs, message, readings);
            },
            CommandView::Read(name) => {
                law_backend_counters(kind, fs, name, readings);
            },
            CommandView::RemoveFile(name) => {
                law_backend_counters(kind, fs, name, readings);
            },
            CommandView::RemoveDir(name) => {
                law_backend_counters(kind, fs, name, readings);
            },
            CommandView::Cd(name) => {
                law_counters(fs, name, name, false);
            },
            CommandView::Speedtest => {
                law_backend_counters(kind, fs, Seq::empty(), readings);
            },
            CommandView::Speedtest2 => {
                law_backend_counters(kind, fs, Seq::empty(), readings);
            },
            _ => {},
        }
    }
}

/// A line that does not read the bus file of a hybrid back-end does the same
/// whatever the report of the bus scan holds, so that the scan can be left out
/// for it.
pub proof fn law_bus_report_unused(
    registry: RegistryView,
    line: Seq<char>,
    readings: ReadingsView,
    report: Seq<char>,
)
    requires
        !registry.needs_bus_report(line),
    ensures
        registry.execute(line, readings) == registry.execute(
            line,
            ReadingsView { bus_report: report, ..readings },
        ),
{
}

/// Leaving the root of a hosted instance with `..` makes the host the active
/// one and changes no instance: the one that was left keeps its root as its
/// current directory.
pub proof fn law_leave_to_host(registry: RegistryView, host: i32)
    requires
        registry.wf(),
        registry.has_active(),
        registry.active().fs.cwd == 1,
        registry.active().fs.parent_registry_index == Some(host),
    ensures
        registry.run_cd(".."@) == (RegistryView { curfs: host, ..registry }, silent()),
{
    let fs = registry.active().fs;
    assert(registry.with_active(fs).fslist =~= registry.fslist);
}

/// Entering a mount anchor makes the instance for the device of that name
/// the active one and changes no instance: an instance that was left at its
/// root is found at its root again. The name has to be the device name of the
/// instance at `child`, of no instance before it, and the name of an anchor in
/// the current directory of the active instance.
pub proof fn law_enter_mount(registry: RegistryView, child: int, anchor: i32)
    requires
        registry.wf(),
        registry.has_active(),
        is_first_position(registry.fslist, registry.fslist[child].fs.superblock.device, child),
        registry.fslist[child].fs.superblock.device != ".."@,
        anchor <= 0,
        registry.active().fs.current().subdirectories.contains_key(anchor),
        registry.active().fs.current().subdirectories[anchor]
            == registry.fslist[child].fs.superblock.device,
    ensures
        registry.run_cd(registry.fslist[child].fs.superblock.device) == (
            RegistryView { curfs: child as i32, ..registry },
            shown(seq!["Switched to "@ + registry.fslist[child].fs.superblock.device]),
        ),
{
    let name = registry.fslist[child].fs.superblock.device;
    let fs = registry.active().fs;
    lemma_named(fs.current().subdirectories, name);
    assert(registry.with_active(fs).fslist =~= registry.fslist);
    let found = choose|i: int| is_first_position(registry.fslist, name, i);
    lemma_first_position_unique(registry.fslist, name, child, found);
}

/// Leaving a hosted instance at its root and entering it again through its
/// anchor gives back the registry as it was: the instance is the active one
/// again, and its root is still its current directory. This holds where the
/// host is in the list and holds, in its current directory, an anchor under
/// the device name of the instance, and where no instance before this one has
/// the same device name.
pub proof fn law_leave_and_return(registry: RegistryView, host: i32, anchor: i32)
    requires
        registry.wf(),
        registry.has_active(),
        registry.active().fs.cwd == 1,
        registry.active().fs.parent_registry_index == Some(host),
        0 <= host < registry.fslist.len(),
        is_first_position(
            registry.fslist,
            registry.active().fs.superblock.device,
            registry.curfs as int,
        ),
        registry.active().fs.superblock.device != ".."@,
        anchor <= 0,
        registry.fslist[host as int].fs.current().subdirectories.contains_key(anchor),
        registry.fslist[host as int].fs.current().subdirectories[anchor]
            == registry.active().fs.superblock.device,
    ensures
        ({
            let left = registry.run_cd(".."@).0;
            let back = left.run_cd(registry.active().fs.superblock.device).0;
            &&& left.curfs == host
            &&& left.fslist == registry.fslist
            &&& back == registry
            &&& back.active().fs.cwd == 1
        }),
{
    law_leave_to_host(registry, host);
    let left = RegistryView { curfs: host, ..registry };
    law_enter_mount(left, registry.curfs as int, anchor);
}

/// Mounting an instance under a name that the current directory of the
/// active instance does not hold yet plants an anchor of that name there,
/// under an identifier below zero, and puts the instance at the end of the
/// list. Nothing else changes, and the active instance stays the active one.
pub proof fn law_mount(registry: RegistryView, backend: BackendView)
    requires
        registry.wf(),
        registry.has_active(),
        backend.fs.wf(),
        registry.mount(backend).1 is Ok,
    ensures
        ({
            let (mounted, planted) = registry.mount(backend);
            let anchor = planted->Ok_0;
            &&& anchor < 0
            &&& mounted.curfs == registry.curfs
            &&& mounted.fslist.len() == registry.fslist.len() + 1
            &&& mounted.fslist[registry.fslist.len() as int] == backend
            &&& mounted.active().fs.cwd == registry.active().fs.cwd
            &&& mounted.active().fs.current().subdirectories.contains_key(anchor)
            &&& mounted.active().fs.current().subdirectories[anchor]
                == backend.fs.superblock.device
            &&& forall|i: int|
                0 <= i < registry.fslist.len() && i != registry.curfs ==> mounted.fslist[i]
                    == registry.fslist[i]
        }),
{
}

/// The lines to show for an operation on `name` that has nothing to show
/// unless it failed.
fn answer<T>(r: &Result<T, FsError>, name: &str) -> (out: CommandOutcome)
    ensures
        out@ == answered(*r, name@),
{
    let mut output: Vec<String> = Vec::new();
    match r {
        Ok(_) => {
            assert(lines_of(output@) =~= Seq::empty());
        },
        Err(e) => {
            let line = e.message(name);
            output.push(line);
            assert(lines_of(output@) =~= seq![e.message_text(name@)]);
        },
    }
    CommandOutcome { output, colors: None, benchmark: None }
}

/// An outcome that shows one line.
fn show(line: String) -> (out: CommandOutcome)
    ensures
        out@ == shown(seq![line@]),
{
    let mut output: Vec<String> = Vec::new();
    output.push(line);
    assert(lines_of(output@) =~= seq![line@]);
    CommandOutcome { output, colors: None, benchmark: None }
}

/// An outcome with nothing to show and nothing to do.
fn quiet() -> (out: CommandOutcome)
    ensures
        out@ == silent(),
{
    let output: Vec<String> = Vec::new();
    assert(lines_of(output@) =~= Seq::empty());
    CommandOutcome { output, colors: None, benchmark: None }
}

impl Registry {
    /// A registry that holds no instance yet.
    pub fn new() -> (r: Registry)
        ensures
            r@.wf(),
            r@.fslist.len() == 0,
            r@.curfs == 0,
    {
        let r = Registry { fslist: Vec::new(), curfs: 0 };
        r
    }

    /// The position of the active instance in the list.
    pub fn active_index(&self) -> (r: Option<usize>)
        ensures
            match r {
                Some(at) => self@.has_active() && at == self@.curfs,
                None => !self@.has_active(),
            },
    {
        if self.curfs >= 0 && (self.curfs as usize) < self.fslist.len() {
            Some(self.curfs as usize)
        } else {
            None
        }
    }

    /// The first position that holds an instance for the device `dname`.
    pub fn position(&self, dname: &str) -> (r: Option<usize>)
        ensures
            match r {
                Some(at) => self@.position_of(dname@) == Some(at as int),
                None => self@.position_of(dname@) is None,
            },
    {
        let mut at: usize = 0;
        while at < self.fslist.len()
            invariant
                at <= self.fslist@.len(),
                forall|j: int| 0 <= j < at ==> self@.fslist[j].fs.superblock.device != dname@,
            decreases self.fslist@.len() - at,
        {
            let device = self.fslist[at].get_sb_device();
            if same_text(device.as_str(), dname) {
                proof {
                    let other = choose|i: int| is_first_position(self@.fslist, dname@, i);
                    lemma_first_position_unique(self@.fslist, dname@, at as int, other);
                }
                return Some(at);
            }
            at = at + 1;
        }
        None
    }

    /// Whether a line reads the bus file of a hybrid back-end, so that the
    /// caller has to scan the bus before it hands the line on.
    pub fn needs_bus_report(&self, line: &str) -> (r: bool)
        ensures
            r == self@.needs_bus_report(line@),
    {
        match self.active_index() {
            None => false,
            Some(at) => match &self.fslist[at] {
                Backend::Hybrid(_) => match parse(line) {
                    Command::Read(name) => same_text(name.as_str(), "pci"),
                    _ => false,
                },
                _ => false,
            },
        }
    }

    /// Makes the index that `to` names the active one.
    fn follow(&mut self, to: Navigation)
        ensures
            final(self)@ == old(self)@.moved(to),
    {
        match to {
            Navigation::Host(host) => {
                self.curfs = host;
            },
            _ => {},
        }
    }

    /// Makes the first instance for the device `dname` the active one.
    /// Without such an instance nothing changes.
    pub fn activate(&mut self, dname: &str) -> (r: bool)
        requires
            old(self)@.wf(),
        ensures
            (final(self)@, r) == old(self)@.activate(dname@),
    {
        match self.position(dname) {
            Some(at) => {
                self.curfs = at as i32;
                true
            },
            None => false,
        }
    }

    /// Mounts `backend` under the current directory of the active instance.
    pub fn mount(&mut self, backend: Backend) -> (r: Result<i32, FsError>)
        requires
            old(self)@.wf(),
            old(self)@.fslist.len() < i32::MAX,
            backend@.fs.wf(),
        ensures
            final(self)@.wf(),
            (final(self)@, r) == old(self)@.mount(backend@),
    {
        match self.active_index() {
            None => Err(FsError::NoFilesystem),
            Some(at) => {
                let device = backend.get_sb_device();
                let planted = self.fslist[at].mkdir(device.as_str(), true);
                self.fslist.push(backend);
                proof {
                    let (host, _) = old(self)@.active().fs.make_directory(
                        backend@.fs.superblock.device,
                        true,
                    );
                    assert(self@.fslist =~= old(self)@.with_active(host).fslist.push(backend@));
                }
                planted
            },
        }
    }

    /// The path of the current directory of the active instance, behind the
    /// path of the current directory of its host if it has one.
    pub fn full_path(&self) -> (r: String)
        requires
            self@.wf(),
        ensures
            r@ == self@.full_path(),
    {
        match self.active_index() {
            None => String::new(),
            Some(at) => {
                assert(self@.fslist[at as int].fs.wf());
                let own = self.fslist[at].get_path();
                match self.fslist[at].get_parent() {
                    Some(host) => {
                        if host >= 0 && (host as usize) < self.fslist.len() {
                            assert(self@.fslist[host as int].fs.wf());
                            let mut whole = self.fslist[host as usize].get_path();
                            whole.append(own.as_str());
                            whole
                        } else {
                            own
                        }
                    },
                    None => own,
                }
            },
        }
    }

    /// The registry is as the contracts see it once the instance at `at` has
    /// gone from the active one of `before` to `next`.
    proof fn lemma_stepped(&self, before: RegistryView, at: usize, next: FsView)
        requires
            before.wf(),
            before.has_active(),
            at == before.curfs,
            next.wf(),
            self.curfs == before.curfs,
            self.fslist@.len() == before.fslist.len(),
            self.fslist@[at as int]@ == (BackendView { kind: before.active().kind, fs: next }),
            forall|i: int|
                0 <= i < before.fslist.len() && i != at ==> (#[trigger] self.fslist@[i])@
                    == before.fslist[i],
        ensures
            self@ == before.with_active(next),
            self@.wf(),
    {
        assert(self@.fslist =~= before.with_active(next).fslist);
        lemma_with_active_wf(before, next);
    }

    fn do_mkdir(&mut self, at: usize, name: &str) -> (r: CommandOutcome)
        requires
            old(self)@.wf(),
            old(self)@.has_active(),
            at == old(self)@.curfs,
        ensures
            final(self)@.wf(),
            (final(self)@, r@) == old(self)@.run_mkdir(name@),
    {
        let r = self.fslist[at].mkdir(name, false);
        proof {
            self.lemma_stepped(old(self)@, at, old(self)@.active().fs.make_directory(name@, false).0);
        }
        answer(&r, name)
    }

    fn do_touch(&mut self, at: usize, name: &str) -> (r: CommandOutcome)
        requires
            old(self)@.wf(),
            old(self)@.has_active(),
            at == old(self)@.curfs,
        ensures
            final(self)@.wf(),
            (final(self)@, r@) == old(self)@.run_touch(name@),
    {
        let r = self.fslist[at].create_file(name);
        proof {
            self.lemma_stepped(
                old(self)@,
                at,
                create_file_step(old(self)@.active().kind, old(self)@.active().fs, name@).0,
            );
        }
        answer(&r, name)
    }

    fn do_write(&mut self, at: usize, message: &str) -> (r: CommandOutcome)
        requires
            old(self)@.wf(),
            old(self)@.has_active(),
            at == old(self)@.curfs,
        ensures
            final(self)@.wf(),
            (final(self)@, r@) == old(self)@.run_write(message@),
    {
        let r = self.fslist[at].write_file(message);
        proof {
            self.lemma_stepped(
                old(self)@,
                at,
                write_step(old(self)@.active().kind, old(self)@.active().fs, message@).0,
            );
        }
        let fname = match split_message(message) {
            Some((fname, _)) => fname,
            None => message,
        };
        let told = answer(&r.result, fname);
        CommandOutcome { output: told.output, colors: r.colors, benchmark: None }
    }

    fn do_read(&mut self, at: usize, name: &str, readings: &Readings) -> (r: CommandOutcome)
        requires
            old(self)@.wf(),
            old(self)@.has_active(),
            at == old(self)@.curfs,
        ensures
            final(self)@.wf(),
            (final(self)@, r@) == old(self)@.run_read(name@, readings@),
    {
        let r = self.fslist[at].read_file(name, readings);
        proof {
            self.lemma_stepped(
                old(self)@,
                at,
                read_step(old(self)@.active().kind, old(self)@.active().fs, name@, readings@).0,
            );
        }
        match r {
            Ok(text) => show(text),
            Err(e) => show(e.message(name)),
        }
    }

    fn do_remove_file(&mut self, at: usize, name: &str) -> (r: CommandOutcome)
        requires
            old(self)@.wf(),
            old(self)@.has_active(),
            at == old(self)@.curfs,
        ensures
            final(self)@.wf(),
            (final(self)@, r@) == old(self)@.run_remove_file(name@),
    {
        let r = self.fslist[at].remove_file(name);
        proof {
            self.lemma_stepped(
                old(self)@,
                at,
                remove_file_step(old(self)@.active().kind, old(self)@.active().fs, name@).0,
            );
        }
        answer(&r, name)
    }

    fn do_remove_dir(&mut self, at: usize, name: &str) -> (r: CommandOutcome)
        requires
            old(self)@.wf(),
            old(self)@.has_active(),
            at == old(self)@.curfs,
        ensures
            final(self)@.wf(),
            (final(self)@, r@) == old(self)@.run_remove_dir(name@),
    {
        let r = self.fslist[at].remove_dir(name);
        proof {
            self.lemma_stepped(
                old(self)@,
                at,
                remove_dir_step(old(self)@.active().kind, old(self)@.active().fs, name@).0,
            );
        }
        answer(&r, name)
    }

    fn do_cd(&mut self, at: usize, name: &str) -> (r: CommandOutcome)
        requires
            old(self)@.wf(),
            old(self)@.has_active(),
            at == old(self)@.curfs,
        ensures
            final(self)@.wf(),
            (final(self)@, r@) == old(self)@.run_cd(name@),
    {
        let r = self.fslist[at].cd(name);
        proof {
            self.lemma_stepped(old(self)@, at, old(self)@.active().fs.change_directory(name@).0);
        }
        match r {
            Err(e) => show(e.message(name)),
            Ok(Navigation::Mount) => {
                if self.activate(name) {
                    let mut line = String::from_str("Switched to ");
                    line.append(name);
                    show(line)
                } else {
                    quiet()
                }
            },
            Ok(to) => {
                self.follow(to);
                quiet()
            },
        }
    }

    fn do_speedtest(&mut self, at: usize) -> (r: CommandOutcome)
        requires
            old(self)@.wf(),
            old(self)@.has_active(),
            at == old(self)@.curfs,
        ensures
            final(self)@.wf(),
            (final(self)@, r@) == old(self)@.run_speedtest(),
    {
        let (benchmark, to) = self.fslist[at].speedtest();
        proof {
            self.lemma_stepped(old(self)@, at, speedtest_step(old(self)@.active().fs).0);
        }
        self.follow(to);
        let told = quiet();
        CommandOutcome { output: told.output, colors: None, benchmark: Some(benchmark) }
    }

    fn do_speedtest2(&mut self, at: usize) -> (r: CommandOutcome)
        requires
            old(self)@.wf(),
            old(self)@.has_active(),
            at == old(self)@.curfs,
        ensures
            final(self)@.wf(),
            (final(self)@, r@) == old(self)@.run_speedtest2(),
    {
        let benchmark = self.fslist[at].speedtest2();
        proof {
            self.lemma_stepped(
                old(self)@,
                at,
                speedtest2_step(old(self)@.active().kind, old(self)@.active().fs),
            );
        }
        let told = quiet();
        CommandOutcome { output: told.output, colors: None, benchmark: Some(benchmark) }
    }

    /// Carries out one command against the active instance.
    pub fn run(&mut self, command: Command, readings: &Readings) -> (r: CommandOutcome)
        requires
            old(self)@.wf(),
        ensures
            final(self)@.wf(),
            (final(self)@, r@) == old(self)@.run(command@, readings@),
    {
        if let Command::Nothing = command {
            return quiet();
        }
        let at = match self.active_index() {
            Some(at) => at,
            None => {
                return show(FsError::NoFilesystem.message(""));
            },
        };
        match command {
            Command::Mkdir(name) => self.do_mkdir(at, name.as_str()),
            Command::Touch(name) => self.do_touch(at, name.as_str()),
            Command::Write(message) => self.do_write(at, message.as_str()),
            Command::Read(name) => self.do_read(at, name.as_str(), readings),
            Command::RemoveFile(name) => self.do_remove_file(at, name.as_str()),
            Command::RemoveDir(name) => self.do_remove_dir(at, name.as_str()),
            Command::Cd(name) => self.do_cd(at, name.as_str()),
            Command::Ls => {
                let output = self.fslist[at].ls();
                CommandOutcome { output, colors: None, benchmark: None }
            },
            Command::GetInfo => show(self.fslist[at].get_sb_info(readings.cycles)),
            Command::GetPath => {
                let mut line = String::from_str("Current Path: ");
                push_signed(&mut line, self.fslist[at].get_path_inode());
                show(line)
            },
            Command::Speedtest => self.do_speedtest(at),
            Command::Speedtest2 => self.do_speedtest2(at),
            Command::Nothing => quiet(),
        }
    }
}

} // verus!
