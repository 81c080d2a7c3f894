//! One virtual machine: the document that configures it, the files and the
//! command line that start it, and the record of what exists of it, from
//! which its teardown follows.

use vstd::prelude::*;
use vstd::string::*;
use crate::config::{Config, ProcessSupervisor, RunnerConfig, get_rootfs};
use crate::language::Language;
use crate::layout::{json_text_of, layout_of};
use crate::paths::{file_name_of, joined, path_file_name, path_join};
use crate::service::PORT;
use crate::text::{decimal, decimal_chars, owned, push_owned, push_text};

verus! {

/// The guest's address on the virtual socket device.
pub const GUEST_CID: u32 = 3;

/// The mode given to the files that the hypervisor must reach.
pub const SHARED_MODE: u32 = 0o777;

/// What one machine is made from.
#[derive(Debug, PartialEq, Eq)]
pub struct VmConfig {
    /// The root filesystem image to copy.
    pub rootfs: String,
    /// The kernel image to link.
    pub kernel: String,
    pub runner: RunnerConfig,
}

/// Kernel and boot arguments.
#[derive(Debug, PartialEq, Eq)]
pub struct BootSource {
    pub kernel_image_path: String,
    pub boot_args: String,
}

/// One block device.
#[derive(Debug, PartialEq, Eq)]
pub struct Drive {
    pub drive_id: String,
    pub path_on_host: String,
    pub is_root_device: bool,
    pub is_read_only: bool,
}

/// The machine's resources.
#[derive(Debug, Clone, Copy, PartialEq, Eq, Structural)]
pub struct MachineConfig {
    pub vcpu_count: u32,
    pub mem_size_mib: u32,
    pub smt: bool,
}

/// The virtual socket device.
#[derive(Debug, PartialEq, Eq)]
pub struct Vsock {
    pub guest_cid: u32,
    pub uds_path: String,
    pub vsock_id: String,
}

/// Where and how the hypervisor logs.
#[derive(Debug, PartialEq, Eq)]
pub struct Logger {
    pub log_path: String,
    pub level: String,
    pub show_level: bool,
    pub show_log_origin: bool,
}

/// The configuration document that the hypervisor reads. All paths in it are
/// relative to the machine's directory.
#[derive(Debug, PartialEq, Eq)]
pub struct VmDocument {
    pub boot_source: BootSource,
    pub drives: Vec<Drive>,
    pub machine_config: MachineConfig,
    pub vsock: Vsock,
    /// Left out under a jailed launch.
    pub logger: Option<Logger>,
}

/// A document, its text and the file that the text is to be written to.
#[derive(Debug, PartialEq, Eq)]
pub struct ConfigFile {
    pub path: String,
    pub document: VmDocument,
    /// The document as JSON.
    pub text: String,
}

/// The step of a launch that failed.
#[derive(Debug, Clone, Copy, PartialEq, Eq, Structural)]
pub enum SpawnStep {
    Workdir,
    Chroot,
    ConfigFile,
    LogFile,
    Rootfs,
    Kernel,
    Permissions,
    Launch,
}

impl SpawnStep {
    /// The place of the step in a launch, from zero.
    pub open spec fn index(self) -> nat {
        match self {
            SpawnStep::Workdir => 0,
            SpawnStep::Chroot => 1,
            SpawnStep::ConfigFile => 2,
            SpawnStep::LogFile => 3,
            SpawnStep::Rootfs => 4,
            SpawnStep::Kernel => 5,
            SpawnStep::Permissions => 6,
            SpawnStep::Launch => 7,
        }
    }

    /// The step that follows this one; none follows the launch itself.
    pub fn next(self) -> (r: Option<SpawnStep>)
        ensures
            r is None <==> self is Launch,
            r matches Some(step) ==> step.index() == self.index() + 1,
    {
        match self {
            SpawnStep::Workdir => Some(SpawnStep::Chroot),
            SpawnStep::Chroot => Some(SpawnStep::ConfigFile),
            SpawnStep::ConfigFile => Some(SpawnStep::LogFile),
            SpawnStep::LogFile => Some(SpawnStep::Rootfs),
            SpawnStep::Rootfs => Some(SpawnStep::Kernel),
            SpawnStep::Kernel => Some(SpawnStep::Permissions),
            SpawnStep::Permissions => Some(SpawnStep::Launch),
            SpawnStep::Launch => None,
        }
    }
}

/// A step is known by its place.
pub proof fn lemma_step_by_index(a: SpawnStep, b: SpawnStep)
    requires
        a.index() == b.index(),
    ensures
        a == b,
{
}

/// Why a machine could not be started.
#[derive(Debug, Clone, Copy, PartialEq, Eq, Structural)]
pub enum VmSpawnError {
    /// The path of the root filesystem image has no file name.
    RootfsName,
    /// A jailed launch was asked for without user and group id.
    MissingIdentity,
    /// A step of the launch failed on the host.
    Failed(SpawnStep),
}

/// The kernel's boot arguments. The console is only there where the
/// hypervisor logs.
pub open spec fn boot_args_for(supervisor: ProcessSupervisor) -> Seq<char> {
    match supervisor {
        ProcessSupervisor::DirectLaunch => "init=/bin/pyrod console=ttyS0 reboot=k panic=1 pci=off"@,
        ProcessSupervisor::JailedLaunch => "init=/bin/pyrod reboot=k panic=1 pci=off"@,
    }
}

/// Whether `doc` is the document of a machine with the given image file
/// name and resources.
pub open spec fn is_document(
    doc: VmDocument,
    rootfs_name: Seq<char>,
    cpus: u32,
    memory: u32,
    supervisor: ProcessSupervisor,
) -> bool {
    &&& doc.boot_source.kernel_image_path@ == "kernel.bin"@
    &&& doc.boot_source.boot_args@ == boot_args_for(supervisor)
    &&& doc.drives@.len() == 1
    &&& doc.drives@[0].drive_id@ == "rootfs"@
    &&& doc.drives@[0].path_on_host@ == rootfs_name
    &&& doc.drives@[0].is_root_device
    &&& !doc.drives@[0].is_read_only
    &&& doc.machine_config == (MachineConfig { vcpu_count: cpus, mem_size_mib: memory, smt: false })
    &&& doc.vsock.guest_cid == 3
    &&& doc.vsock.uds_path@ == "pyrod.sock"@
    &&& doc.vsock.vsock_id@ == "vsock0"@
    &&& match supervisor {
        ProcessSupervisor::DirectLaunch => {
            &&& doc.logger matches Some(logger)
            &&& logger.log_path@ == "firecracker.log"@
            &&& logger.level@ == "Debug"@
            &&& logger.show_level
            &&& logger.show_log_origin
        },
        ProcessSupervisor::JailedLaunch => doc.logger is None,
    }
}

/// Builds the document for an image whose file name is known.
fn document_for(name: String, runner: &RunnerConfig, supervisor: ProcessSupervisor) -> (r:
    VmDocument)
    ensures
        is_document(r, name@, runner.cpus, runner.memory, supervisor),
{
    let boot_args = match supervisor {
        ProcessSupervisor::DirectLaunch => owned(
            "init=/bin/pyrod console=ttyS0 reboot=k panic=1 pci=off",
        ),
        ProcessSupervisor::JailedLaunch => owned("init=/bin/pyrod reboot=k panic=1 pci=off"),
    };
    let logger = match supervisor {
        ProcessSupervisor::DirectLaunch => Some(
            Logger {
                log_path: owned("firecracker.log"),
                level: owned("Debug"),
                show_level: true,
                show_log_origin: true,
            },
        ),
        ProcessSupervisor::JailedLaunch => None,
    };
    let mut drives: Vec<Drive> = Vec::new();
    drives.push(
        Drive {
            drive_id: owned("rootfs"),
            path_on_host: name,
            is_root_device: true,
            is_read_only: false,
        },
    );
    VmDocument {
        boot_source: BootSource { kernel_image_path: owned("kernel.bin"), boot_args },
        drives,
        machine_config: MachineConfig {
            vcpu_count: runner.cpus,
            mem_size_mib: runner.memory,
            smt: false,
        },
        vsock: Vsock { guest_cid: GUEST_CID, uds_path: owned("pyrod.sock"), vsock_id: owned("vsock0") },
        logger,
    }
}

impl VmConfig {
    /// What a machine for `lang` is made from: the language's image and the
    /// kernel, both in the resource directory, and the configured resources.
    pub fn for_language(config: &Config, lang: Language) -> (r: VmConfig)
        ensures
            r.rootfs@ == joined(config.resource_path@, lang.rootfs_name_spec()),
            r.kernel@ == joined(config.resource_path@, "kernel.bin"@),
            r.runner == config.runner_config,
    {
        VmConfig {
            rootfs: get_rootfs(config, lang),
            kernel: path_join(config.resource_path.as_str(), "kernel.bin"),
            runner: config.runner_config,
        }
    }

    /// The configuration document of the machine and the file in `chroot`
    /// that it belongs in. The image is named by the last component of its
    /// path; a path without one is refused.
    pub fn write_to_file(&self, chroot: &str, supervisor: ProcessSupervisor) -> (r: Result<
        ConfigFile,
        VmSpawnError,
    >)
        ensures
            match file_name_of(self.rootfs@) {
                Some(name) => {
                    &&& r matches Ok(file)
                    &&& file.path@ == joined(chroot@, "config.json"@)
                    &&& file.text@ == json_text_of(layout_of(file.document))
                    &&& is_document(
                        file.document,
                        name,
                        self.runner.cpus,
                        self.runner.memory,
                        supervisor,
                    )
                },
                None => r matches Err(e) && e == VmSpawnError::RootfsName,
            },
    {
        match path_file_name(self.rootfs.as_str()) {
            None => Err(VmSpawnError::RootfsName),
            Some(name) => {
                let document = document_for(name, &self.runner, supervisor);
                let text = document.to_json();
                Ok(ConfigFile { path: path_join(chroot, "config.json"), document, text })
            },
        }
    }
}

/// The hypervisor's process. Its input is closed, and it is killed when the
/// machine is given up.
#[derive(Debug, PartialEq, Eq)]
pub struct HostCommand {
    pub program: String,
    pub cwd: String,
    pub args: Vec<String>,
    /// The file that receives its standard output; `None` discards it.
    pub stdout: Option<String>,
    /// The file that receives its standard error; `None` discards it.
    pub stderr: Option<String>,
}

/// Everything that starts one machine, in the order in which it is done:
/// create `chroot` with its parents, write the text of `config` to its
/// path, create `log_file` empty, copy the image, link the kernel, open both to every user, run
/// `command`. The guest is then awaited on `socket`.
#[derive(Debug, PartialEq, Eq)]
pub struct LaunchPlan {
    pub chroot: String,
    pub config: ConfigFile,
    pub log_file: String,
    pub rootfs_source: String,
    pub rootfs_copy: String,
    pub kernel_source: String,
    pub kernel_link: String,
    pub mode: u32,
    pub command: HostCommand,
    pub socket: String,
}

/// The name of the socket on which the hypervisor hands on a connection
/// that the guest opens to the service's port: the name of the device's own
/// socket, an underscore and the port.
pub open spec fn socket_name_spec() -> Seq<char> {
    "pyrod.sock"@ + "_"@ + decimal_chars(5000)
}

/// The name of the socket on which the guest calls in.
pub fn socket_name() -> (r: String)
    ensures
        r@ == socket_name_spec(),
{
    let mut name = owned("pyrod.sock");
    name.append("_");
    let port = decimal(PORT as u64);
    name.append(port.as_str());
    name
}

/// The directory that holds a machine's files. The jailing launcher puts
/// them three levels below the directory it is given.
pub open spec fn chroot_of(workdir: Seq<char>, supervisor: ProcessSupervisor) -> Seq<char> {
    match supervisor {
        ProcessSupervisor::DirectLaunch => workdir,
        ProcessSupervisor::JailedLaunch => joined(
            joined(joined(workdir, "firecracker"@), "1"@),
            "root"@,
        ),
    }
}

/// The arguments of the hypervisor's process.
pub open spec fn launch_args(
    resource_path: Seq<char>,
    workdir: Seq<char>,
    supervisor: ProcessSupervisor,
    uid: u16,
    gid: u16,
) -> Seq<Seq<char>> {
    match supervisor {
        ProcessSupervisor::DirectLaunch => seq![
            "--no-api"@,
            "--config-file"@,
            joined(workdir, "config.json"@),
        ],
        ProcessSupervisor::JailedLaunch => seq![
            "--id"@,
            "1"@,
            "--exec-file"@,
            joined(resource_path, "firecracker"@),
            "--uid"@,
            decimal_chars(uid as nat),
            "--gid"@,
            decimal_chars(gid as nat),
            "--chroot-base-dir"@,
            workdir,
            "--"@,
            "--no-api"@,
            "--config-file"@,
            "config.json"@,
        ],
    }
}

/// Whether `command` starts the hypervisor as the way of launching asks.
pub open spec fn is_launch_command(
    command: HostCommand,
    resource_path: Seq<char>,
    workdir: Seq<char>,
    supervisor: ProcessSupervisor,
    uid: u16,
    gid: u16,
) -> bool {
    &&& command.cwd@ == chroot_of(workdir, supervisor)
    &&& command.args.deep_view() == launch_args(resource_path, workdir, supervisor, uid, gid)
    &&& match supervisor {
        ProcessSupervisor::DirectLaunch => {
            &&& command.program@ == joined(resource_path, "firecracker"@)
            &&& command.stdout.deep_view() == Some("vm.out"@)
            &&& command.stderr.deep_view() == Some("vm.err"@)
        },
        ProcessSupervisor::JailedLaunch => {
            &&& command.program@ == joined(resource_path, "jailer"@)
            &&& command.stdout is None
            &&& command.stderr is None
        },
    }
}

/// Whether a launch can be planned at all: the image's path has a file
/// name, and a jailed launch has its user and group id.
pub open spec fn launchable(
    rootfs: Seq<char>,
    runner: RunnerConfig,
    supervisor: ProcessSupervisor,
) -> bool {
    &&& file_name_of(rootfs) is Some
    &&& supervisor is JailedLaunch ==> runner.uid is Some && runner.gid is Some
}

/// The error of a launch that cannot be planned.
pub open spec fn launch_error(rootfs: Seq<char>) -> VmSpawnError {
    if file_name_of(rootfs) is None {
        VmSpawnError::RootfsName
    } else {
        VmSpawnError::MissingIdentity
    }
}

/// Whether `plan` starts, below `workdir`, a machine with the image at
/// `rootfs` and the resources of `runner`.
pub open spec fn is_launch_plan(
    plan: LaunchPlan,
    rootfs: Seq<char>,
    runner: RunnerConfig,
    resource_path: Seq<char>,
    supervisor: ProcessSupervisor,
    workdir: Seq<char>,
) -> bool {
    let chroot = chroot_of(workdir, supervisor);
    let name = file_name_of(rootfs).unwrap();
    &&& plan.chroot@ == chroot
    &&& plan.config.path@ == joined(chroot, "config.json"@)
    &&& plan.config.text@ == json_text_of(layout_of(plan.config.document))
    &&& is_document(plan.config.document, name, runner.cpus, runner.memory, supervisor)
    &&& plan.log_file@ == joined(chroot, "firecracker.log"@)
    &&& plan.rootfs_source@ == rootfs
    &&& plan.rootfs_copy@ == joined(chroot, name)
    &&& plan.kernel_source@ == joined(resource_path, "kernel.bin"@)
    &&& plan.kernel_link@ == joined(chroot, "kernel.bin"@)
    &&& plan.mode == 0o777
    &&& plan.socket@ == joined(chroot, socket_name_spec())
    &&& is_launch_command(
        plan.command,
        resource_path,
        workdir,
        supervisor,
        match runner.uid {
            Some(uid) => uid,
            None => 0,
        },
        match runner.gid {
            Some(gid) => gid,
            None => 0,
        },
    )
}

/// The process of a direct launch.
fn direct_command(resource_path: &str, workdir: &str) -> (r: HostCommand)
    ensures
        is_launch_command(r, resource_path@, workdir@, ProcessSupervisor::DirectLaunch, 0, 0),
{
    let mut args: Vec<String> = Vec::new();
    push_text(&mut args, "--no-api");
    push_text(&mut args, "--config-file");
    push_owned(&mut args, path_join(workdir, "config.json"));
    let r = HostCommand {
        program: path_join(resource_path, "firecracker"),
        cwd: owned(workdir),
        args,
        stdout: Some(owned("vm.out")),
        stderr: Some(owned("vm.err")),
    };
    assert(r.args.deep_view() =~= launch_args(
        resource_path@,
        workdir@,
        ProcessSupervisor::DirectLaunch,
        0,
        0,
    ));
    r
}

/// The process of a jailed launch.
fn jailed_command(resource_path: &str, workdir: &str, chroot: &str, uid: u16, gid: u16) -> (r:
    HostCommand)
    requires
        chroot@ == chroot_of(workdir@, ProcessSupervisor::JailedLaunch),
    ensures
        is_launch_command(r, resource_path@, workdir@, ProcessSupervisor::JailedLaunch, uid, gid),
{
    let mut args: Vec<String> = Vec::new();
    push_text(&mut args, "--id");
    push_text(&mut args, "1");
    push_text(&mut args, "--exec-file");
    push_owned(&mut args, path_join(resource_path, "firecracker"));
    push_text(&mut args, "--uid");
    push_owned(&mut args, decimal(uid as u64));
    push_text(&mut args, "--gid");
    push_owned(&mut args, decimal(gid as u64));
    push_text(&mut args, "--chroot-base-dir");
    push_text(&mut args, workdir);
    push_text(&mut args, "--");
    push_text(&mut args, "--no-api");
    push_text(&mut args, "--config-file");
    push_text(&mut args, "config.json");
    let r = HostCommand {
        program: path_join(resource_path, "jailer"),
        cwd: owned(chroot),
        args,
        stdout: None,
        stderr: None,
    };
    assert(r.args.deep_view() =~= launch_args(
        resource_path@,
        workdir@,
        ProcessSupervisor::JailedLaunch,
        uid,
        gid,
    ));
    r
}

/// Where a machine is in its life.
#[derive(Debug, Clone, Copy, PartialEq, Eq, Structural)]
pub enum ExecutorState {
    /// Being set up, or started and not yet heard of.
    Booting,
    /// The guest is ready and has no request yet.
    Idling,
    /// The guest works on its one request.
    Executing,
    /// Given up: nothing of it is left, and nothing can revive it.
    Terminated,
}

/// Something that happened to a machine.
#[derive(Debug, Clone, Copy, PartialEq, Eq, Structural)]
pub enum VmEvent {
    /// A step of the launch succeeded.
    StepDone(SpawnStep),
    /// A step of the launch failed.
    StepFailed(SpawnStep),
    /// The guest's control socket appeared.
    GuestReady,
    /// The request went out to the guest.
    RequestSent,
    /// The owner let go of the machine: the request was answered, failed,
    /// ran out of time or was cancelled.
    Released,
}

impl VmEvent {
    /// The error that the event stands for: a failed step fails the launch.
    pub fn error(self) -> (r: Option<VmSpawnError>)
        ensures
            r == match self {
                VmEvent::StepFailed(step) => Some(VmSpawnError::Failed(step)),
                _ => None,
            },
    {
        match self {
            VmEvent::StepFailed(step) => Some(VmSpawnError::Failed(step)),
            _ => None,
        }
    }
}

/// One act of a teardown.
#[derive(Debug, Clone, Copy, PartialEq, Eq, Structural)]
pub enum Cleanup {
    /// Kill the hypervisor, and with it the guest and all it started.
    KillProcess,
    /// Remove the working directory with everything in it.
    RemoveWorkdir,
}

/// The record of one machine: its state and which of its two resources
/// exist on the host.
#[derive(Debug, Clone, Copy, PartialEq, Eq, Structural)]
pub struct Machine {
    pub state: ExecutorState,
    /// The working directory exists.
    pub workdir: bool,
    /// The hypervisor's process exists.
    pub process: bool,
}

impl Machine {
    /// A process lives only beside its directory, a ready guest only in a
    /// process, and of a terminated machine nothing is left.
    pub open spec fn wf(self) -> bool {
        &&& self.process ==> self.workdir
        &&& self.state is Terminated ==> !self.workdir
        &&& (self.state is Idling || self.state is Executing) ==> self.process
    }

    /// A machine of which nothing exists yet.
    pub open spec fn fresh() -> Machine {
        Machine { state: ExecutorState::Booting, workdir: false, process: false }
    }

    /// The machine after its teardown.
    pub open spec fn torn_down() -> Machine {
        Machine { state: ExecutorState::Terminated, workdir: false, process: false }
    }

    /// Whether the event ends the machine.
    pub open spec fn ends(event: VmEvent) -> bool {
        event is StepFailed || event is Released
    }

    /// What a teardown has to do: kill the process first, then remove the
    /// directory, each only if it exists.
    pub open spec fn cleanup(self) -> Seq<Cleanup> {
        let kill = if self.process {
            seq![Cleanup::KillProcess]
        } else {
            Seq::<Cleanup>::empty()
        };
        let remove = if self.workdir {
            seq![Cleanup::RemoveWorkdir]
        } else {
            Seq::<Cleanup>::empty()
        };
        kill + remove
    }

    /// The machine after an event. Events that do not fit the state change
    /// nothing; a terminated machine stays terminated.
    pub open spec fn after(self, event: VmEvent) -> Machine {
        match event {
            VmEvent::StepFailed(_) | VmEvent::Released => Self::torn_down(),
            VmEvent::StepDone(step) => if !(self.state is Booting) {
                self
            } else if step is Workdir {
                Machine { workdir: true, ..self }
            } else if step is Launch && self.workdir {
                Machine { process: true, ..self }
            } else {
                self
            },
            VmEvent::GuestReady => if self.state is Booting && self.process {
                Machine { state: ExecutorState::Idling, ..self }
            } else {
                self
            },
            VmEvent::RequestSent => if self.state is Idling {
                Machine { state: ExecutorState::Executing, ..self }
            } else {
                self
            },
        }
    }

    /// The machine after a run of events, first to last.
    pub open spec fn after_all(self, events: Seq<VmEvent>) -> Machine
        decreases events.len(),
    {
        if events.len() == 0 {
            self
        } else {
            self.after_all(events.drop_last()).after(events.last())
        }
    }

    /// Whether the event is the guest's connection being taken: the machine
    /// has a process and has not been heard of before.
    pub open spec fn connects(self, event: VmEvent) -> bool {
        event is GuestReady && self.state is Booting && self.process
    }

    /// How many connections are taken over a run of events.
    pub open spec fn connections(self, events: Seq<VmEvent>) -> nat
        decreases events.len(),
    {
        if events.len() == 0 {
            0
        } else {
            let taken: nat = if self.after_all(events.drop_last()).connects(events.last()) {
                1
            } else {
                0
            };
            self.connections(events.drop_last()) + taken
        }
    }

    /// The record of a machine of which nothing exists yet.
    pub fn new() -> (r: Machine)
        ensures
            r == Self::fresh(),
            r.wf(),
    {
        Machine { state: ExecutorState::Booting, workdir: false, process: false }
    }

    /// Plans the launch of the machine `conf` below the fresh directory
    /// `workdir`. The plan is refused where the image's path has no file
    /// name, and where a jailed launch lacks the user or group id.
    pub fn spawn(conf: &VmConfig, config: &Config, workdir: &str) -> (r: Result<
        LaunchPlan,
        VmSpawnError,
    >)
        ensures
            r is Ok <==> launchable(conf.rootfs@, conf.runner, config.supervisor),
            r matches Ok(plan) ==> is_launch_plan(
                plan,
                conf.rootfs@,
                conf.runner,
                config.resource_path@,
                config.supervisor,
                workdir@,
            ),
            r matches Err(e) ==> e == launch_error(conf.rootfs@),
    {
        let resources = config.resource_path.as_str();
        let name = match path_file_name(conf.rootfs.as_str()) {
            None => {
                return Err(VmSpawnError::RootfsName);
            },
            Some(name) => name,
        };
        let (chroot, command) = match config.supervisor {
            ProcessSupervisor::DirectLaunch => (owned(workdir), direct_command(resources, workdir)),
            ProcessSupervisor::JailedLaunch => {
                let (uid, gid) = match (conf.runner.uid, conf.runner.gid) {
                    (Some(uid), Some(gid)) => (uid, gid),
                    _ => {
                        return Err(VmSpawnError::MissingIdentity);
                    },
                };
                let base = path_join(workdir, "firecracker");
                let vm = path_join(base.as_str(), "1");
                let chroot = path_join(vm.as_str(), "root");
                let command = jailed_command(resources, workdir, chroot.as_str(), uid, gid);
                (chroot, command)
            },
        };
        let dir = chroot.as_str();
        let document = document_for(name.clone(), &conf.runner, config.supervisor);
        let text = document.to_json();
        let config_file = ConfigFile { path: path_join(dir, "config.json"), document, text };
        let plan = LaunchPlan {
            config: config_file,
            log_file: path_join(dir, "firecracker.log"),
            rootfs_source: conf.rootfs.clone(),
            rootfs_copy: path_join(dir, name.as_str()),
            kernel_source: path_join(resources, "kernel.bin"),
            kernel_link: path_join(dir, "kernel.bin"),
            mode: SHARED_MODE,
            socket: path_join(dir, socket_name().as_str()),
            command,
            chroot,
        };
        Ok(plan)
    }

    /// Records an event. Where the event ends the machine, the result is the
    /// teardown to perform, in order; otherwise there is nothing to do.
    pub fn on(&mut self, event: VmEvent) -> (r: Vec<Cleanup>)
        ensures
            *final(self) == old(self).after(event),
            old(self).wf() ==> final(self).wf(),
            r@ == if Self::ends(event) {
                old(self).cleanup()
            } else {
                Seq::<Cleanup>::empty()
            },
    {
        match event {
            VmEvent::StepFailed(_) | VmEvent::Released => self.teardown(),
            VmEvent::StepDone(step) => {
                if self.state == ExecutorState::Booting {
                    if step == SpawnStep::Workdir {
                        self.workdir = true;
                    } else if step == SpawnStep::Launch && self.workdir {
                        self.process = true;
                    }
                }
                Vec::new()
            },
            VmEvent::GuestReady => {
                if self.state == ExecutorState::Booting && self.process {
                    self.state = ExecutorState::Idling;
                }
                Vec::new()
            },
            VmEvent::RequestSent => {
                if self.state == ExecutorState::Idling {
                    self.state = ExecutorState::Executing;
                }
                Vec::new()
            },
        }
    }

    /// Gives the machine up, whatever its state: the result is what has to be
    /// done on the host, the process before the directory, and the record
    /// shows nothing left.
    pub fn teardown(&mut self) -> (r: Vec<Cleanup>)
        ensures
            *final(self) == Self::torn_down(),
            final(self).wf(),
            r@ == old(self).cleanup(),
    {
        let mut acts: Vec<Cleanup> = Vec::new();
        if self.process {
            acts.push(Cleanup::KillProcess);
        }
        if self.workdir {
            acts.push(Cleanup::RemoveWorkdir);
        }
        assert(acts@ =~= self.cleanup());
        self.state = ExecutorState::Terminated;
        self.workdir = false;
        self.process = false;
        acts
    }
}

/// Plans the machine for one submission in `lang`, below the fresh directory
/// `workdir`: the machine is made from the language's image in the resource
/// directory and from the configured resources.
pub fn run_code(config: &Config, lang: Language, workdir: &str) -> (r: Result<
    LaunchPlan,
    VmSpawnError,
>)
    ensures
        r is Ok <==> launchable(
            joined(config.resource_path@, lang.rootfs_name_spec()),
            config.runner_config,
            config.supervisor,
        ),
        r matches Ok(plan) ==> is_launch_plan(
            plan,
            joined(config.resource_path@, lang.rootfs_name_spec()),
            config.runner_config,
            config.resource_path@,
            config.supervisor,
            workdir@,
        ),
        r matches Err(e) ==> e == launch_error(
            joined(config.resource_path@, lang.rootfs_name_spec()),
        ),
{
    let conf = VmConfig::for_language(config, lang);
    Machine::spawn(&conf, config, workdir)
}

/// No event breaks the record's consistency.
pub proof fn lemma_event_keeps_wf(machine: Machine, event: VmEvent)
    requires
        machine.wf(),
    ensures
        machine.after(event).wf(),
{
}

/// Whatever happens to a machine from its creation on, its record stays
/// consistent: no process without its directory.
pub proof fn lemma_history_keeps_wf(events: Seq<VmEvent>)
    ensures
        Machine::fresh().after_all(events).wf(),
    decreases events.len(),
{
    if events.len() > 0 {
        lemma_history_keeps_wf(events.drop_last());
        lemma_event_keeps_wf(Machine::fresh().after_all(events.drop_last()), events.last());
    }
}

/// After any history, a teardown removes the directory whenever it kills a
/// process, kills first, and leaves neither behind. Where the history itself
/// ended the machine, nothing is left to do.
pub proof fn lemma_teardown_is_whole(events: Seq<VmEvent>)
    ensures
        ({
            let machine = Machine::fresh().after_all(events);
            let acts = machine.cleanup();
            &&& acts == Seq::<Cleanup>::empty() || acts == seq![Cleanup::RemoveWorkdir] || acts
                == seq![Cleanup::KillProcess, Cleanup::RemoveWorkdir]
            &&& acts.len() == 0 <==> !machine.workdir && !machine.process
            &&& !Machine::torn_down().workdir && !Machine::torn_down().process
            &&& Machine::torn_down().cleanup() == Seq::<Cleanup>::empty()
            &&& events.len() > 0 && Machine::ends(events.last()) ==> machine
                == Machine::torn_down()
        }),
{
    lemma_history_keeps_wf(events);
    let machine = Machine::fresh().after_all(events);
    let acts = machine.cleanup();
    if machine.process {
        assert(acts =~= seq![Cleanup::KillProcess, Cleanup::RemoveWorkdir]);
    } else if machine.workdir {
        assert(acts =~= seq![Cleanup::RemoveWorkdir]);
    } else {
        assert(acts =~= Seq::<Cleanup>::empty());
    }
    assert(Machine::torn_down().cleanup() =~= Seq::<Cleanup>::empty());
}

/// A machine never goes back to booting.
pub proof fn lemma_booting_is_left_for_good(machine: Machine, event: VmEvent)
    requires
        !(machine.state is Booting),
    ensures
        !(machine.after(event).state is Booting),
{
}

/// Over its whole life a machine takes at most one control connection.
pub proof fn lemma_one_connection(events: Seq<VmEvent>)
    ensures
        Machine::fresh().connections(events) <= 1,
        Machine::fresh().connections(events) == 1 ==> !(Machine::fresh().after_all(
            events,
        ).state is Booting),
    decreases events.len(),
{
    if events.len() > 0 {
        lemma_one_connection(events.drop_last());
        let before = Machine::fresh().after_all(events.drop_last());
        if !(before.state is Booting) {
            lemma_booting_is_left_for_good(before, events.last());
        }
    }
}

/// A terminated machine is never used again: no event brings it back or
/// gives it a resource.
pub proof fn lemma_terminated_stays(events: Seq<VmEvent>)
    ensures
        Machine::torn_down().after_all(events) == Machine::torn_down(),
    decreases events.len(),
{
    if events.len() > 0 {
        lemma_terminated_stays(events.drop_last());
    }
}

} // verus!
