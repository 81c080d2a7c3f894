use pyromaniac::config::{Config, Environment, ProcessSupervisor};
use pyromaniac::language::Language;
use pyromaniac::vm::{
    run_code, socket_name, BootSource, Cleanup, ConfigFile, Drive, ExecutorState, HostCommand, Logger, Machine,
    MachineConfig, SpawnStep, VmConfig, VmDocument, VmEvent, VmSpawnError, Vsock, GUEST_CID,
    SHARED_MODE,
};

fn texts(items: &[&str]) -> Vec<String> {
    items.iter().map(|s| s.to_string()).collect()
}

fn direct() -> Config {
    let env = Environment { resource_path: Some("/res".to_string()), port: None, uid: None, gid: None };
    Config::init_from_env(env, 4, ProcessSupervisor::DirectLaunch).unwrap()
}

fn jailed() -> Config {
    let env = Environment {
        resource_path: Some("/res".to_string()),
        port: None,
        uid: Some("123".to_string()),
        gid: Some("456".to_string()),
    };
    Config::init_from_env(env, 4, ProcessSupervisor::JailedLaunch).unwrap()
}

fn document(name: &str, logged: bool) -> VmDocument {
    VmDocument {
        boot_source: BootSource {
            kernel_image_path: "kernel.bin".to_string(),
            boot_args: if logged {
                "init=/bin/pyrod console=ttyS0 reboot=k panic=1 pci=off".to_string()
            } else {
                "init=/bin/pyrod reboot=k panic=1 pci=off".to_string()
            },
        },
        drives: vec![Drive {
            drive_id: "rootfs".to_string(),
            path_on_host: name.to_string(),
            is_root_device: true,
            is_read_only: false,
        }],
        machine_config: MachineConfig { vcpu_count: 1, mem_size_mib: 1024, smt: false },
        vsock: Vsock {
            guest_cid: 3,
            uds_path: "pyrod.sock".to_string(),
            vsock_id: "vsock0".to_string(),
        },
        logger: if logged {
            Some(Logger {
                log_path: "firecracker.log".to_string(),
                level: "Debug".to_string(),
                show_level: true,
                show_log_origin: true,
            })
        } else {
            None
        },
    }
}

#[test]
fn machine_is_made_from_the_resource_directory() {
    let config = direct();
    let conf = VmConfig::for_language(&config, Language::Java);
    assert_eq!(conf.rootfs, "/res/rootfs-java.ext4");
    assert_eq!(conf.kernel, "/res/kernel.bin");
    assert_eq!(conf.runner, config.runner_config);
    assert_eq!(GUEST_CID, 3);
    assert_eq!(SHARED_MODE, 0o777);
}

#[test]
fn document_of_a_direct_launch_logs() {
    let config = direct();
    let conf = VmConfig::for_language(&config, Language::Python);
    let file = conf.write_to_file("/tmp/vm", ProcessSupervisor::DirectLaunch).unwrap();
    let text = "{\"boot-source\":{\"boot_args\":\"init=/bin/pyrod console=ttyS0 reboot=k panic=1 \
                pci=off\",\"kernel_image_path\":\"kernel.bin\"},\"drives\":[{\"drive_id\":\"rootfs\",\
                \"is_read_only\":false,\"is_root_device\":true,\"path_on_host\":\
                \"rootfs-python.ext4\"}],\"logger\":{\"level\":\"Debug\",\"log_path\":\
                \"firecracker.log\",\"show_level\":true,\"show_log_origin\":true},\
                \"machine-config\":{\"mem_size_mib\":1024,\"smt\":false,\"vcpu_count\":1},\
                \"vsock\":{\"guest_cid\":3,\"uds_path\":\"pyrod.sock\",\"vsock_id\":\"vsock0\"}}";
    assert_eq!(
        file,
        ConfigFile {
            path: "/tmp/vm/config.json".to_string(),
            document: document("rootfs-python.ext4", true),
            text: text.to_string(),
        }
    );
}

#[test]
fn document_text_is_json_with_every_member() {
    let config = jailed();
    let conf = VmConfig {
        rootfs: "/images/odd \"name\"\\.ext4".to_string(),
        kernel: "/res/kernel.bin".to_string(),
        runner: config.runner_config,
    };
    let file = conf.write_to_file("/jail/root", ProcessSupervisor::JailedLaunch).unwrap();
    assert_eq!(file.text, file.document.to_json());
    let value: serde_json::Value = serde_json::from_str(&file.text).unwrap();
    let top = value.as_object().unwrap();
    let names: Vec<&str> = top.keys().map(|k| k.as_str()).collect();
    assert_eq!(names, vec!["boot-source", "drives", "machine-config", "vsock"]);
    assert_eq!(value["boot-source"]["kernel_image_path"].as_str(), Some("kernel.bin"));
    assert_eq!(
        value["boot-source"]["boot_args"].as_str(),
        Some("init=/bin/pyrod reboot=k panic=1 pci=off")
    );
    assert_eq!(value["drives"].as_array().unwrap().len(), 1);
    assert_eq!(value["drives"][0]["drive_id"].as_str(), Some("rootfs"));
    assert_eq!(value["drives"][0]["path_on_host"].as_str(), Some("odd \"name\"\\.ext4"));
    assert_eq!(value["drives"][0]["is_root_device"].as_bool(), Some(true));
    assert_eq!(value["drives"][0]["is_read_only"].as_bool(), Some(false));
    assert_eq!(value["machine-config"]["vcpu_count"].as_u64(), Some(1));
    assert_eq!(value["machine-config"]["mem_size_mib"].as_u64(), Some(1024));
    assert_eq!(value["machine-config"]["smt"].as_bool(), Some(false));
    assert_eq!(value["vsock"]["guest_cid"].as_u64(), Some(3));
    assert_eq!(value["vsock"]["uds_path"].as_str(), Some("pyrod.sock"));
    assert_eq!(value["vsock"]["vsock_id"].as_str(), Some("vsock0"));
}

#[test]
fn document_of_a_jailed_launch_has_no_logger() {
    let config = jailed();
    let conf = VmConfig::for_language(&config, Language::Rust);
    let file = conf.write_to_file("/jail/root", ProcessSupervisor::JailedLaunch).unwrap();
    assert_eq!(file.path, "/jail/root/config.json");
    assert_eq!(file.document, document("rootfs-rust.ext4", false));
}

#[test]
fn document_names_the_last_component_only() {
    let config = direct();
    let conf = VmConfig {
        rootfs: "/a/b/../images/custom.img/".to_string(),
        kernel: "/res/kernel.bin".to_string(),
        runner: config.runner_config,
    };
    let file = conf.write_to_file("/tmp/vm", ProcessSupervisor::DirectLaunch).unwrap();
    assert_eq!(file.document.drives[0].path_on_host, "custom.img");
}

#[test]
fn image_path_without_file_name_is_refused() {
    let config = direct();
    for path in ["", "/", "..", "/images/.."] {
        let conf = VmConfig {
            rootfs: path.to_string(),
            kernel: "/res/kernel.bin".to_string(),
            runner: config.runner_config,
        };
        assert_eq!(
            conf.write_to_file("/tmp/vm", ProcessSupervisor::DirectLaunch),
            Err(VmSpawnError::RootfsName),
            "on {:?}",
            path
        );
        assert_eq!(Machine::spawn(&conf, &config, "/tmp/vm"), Err(VmSpawnError::RootfsName));
    }
}

#[test]
fn direct_launch_plan() {
    let config = direct();
    let conf = VmConfig::for_language(&config, Language::Python);
    let plan = Machine::spawn(&conf, &config, "/tmp/abc").unwrap();
    assert_eq!(plan.chroot, "/tmp/abc");
    assert_eq!(plan.config.path, "/tmp/abc/config.json");
    assert_eq!(plan.config.document, document("rootfs-python.ext4", true));
    assert_eq!(plan.config.text, document("rootfs-python.ext4", true).to_json());
    assert!(plan.config.text.starts_with("{\"boot-source\":{"));
    assert_eq!(plan.log_file, "/tmp/abc/firecracker.log");
    assert_eq!(plan.rootfs_source, "/res/rootfs-python.ext4");
    assert_eq!(plan.rootfs_copy, "/tmp/abc/rootfs-python.ext4");
    assert_eq!(plan.kernel_source, "/res/kernel.bin");
    assert_eq!(plan.kernel_link, "/tmp/abc/kernel.bin");
    assert_eq!(plan.mode, 0o777);
    assert_eq!(plan.socket, "/tmp/abc/pyrod.sock_5000");
    assert_eq!(
        plan.command,
        HostCommand {
            program: "/res/firecracker".to_string(),
            cwd: "/tmp/abc".to_string(),
            args: texts(&["--no-api", "--config-file", "/tmp/abc/config.json"]),
            stdout: Some("vm.out".to_string()),
            stderr: Some("vm.err".to_string()),
        }
    );
}

#[test]
fn jailed_launch_plan() {
    let config = jailed();
    let conf = VmConfig::for_language(&config, Language::Sh);
    let plan = Machine::spawn(&conf, &config, "/tmp/abc").unwrap();
    let chroot = "/tmp/abc/firecracker/1/root";
    assert_eq!(plan.chroot, chroot);
    assert_eq!(plan.config.path, format!("{}/config.json", chroot));
    assert_eq!(plan.config.document, document("rootfs-sh.ext4", false));
    assert_eq!(plan.log_file, format!("{}/firecracker.log", chroot));
    assert_eq!(plan.rootfs_source, "/res/rootfs-sh.ext4");
    assert_eq!(plan.rootfs_copy, format!("{}/rootfs-sh.ext4", chroot));
    assert_eq!(plan.kernel_source, "/res/kernel.bin");
    assert_eq!(plan.kernel_link, format!("{}/kernel.bin", chroot));
    assert_eq!(plan.socket, format!("{}/pyrod.sock_5000", chroot));
    assert_eq!(
        plan.command,
        HostCommand {
            program: "/res/jailer".to_string(),
            cwd: chroot.to_string(),
            args: texts(&[
                "--id",
                "1",
                "--exec-file",
                "/res/firecracker",
                "--uid",
                "123",
                "--gid",
                "456",
                "--chroot-base-dir",
                "/tmp/abc",
                "--",
                "--no-api",
                "--config-file",
                "config.json",
            ]),
            stdout: None,
            stderr: None,
        }
    );
}

#[test]
fn jailed_launch_without_identity_is_refused() {
    let mut config = jailed();
    let mut conf = VmConfig::for_language(&config, Language::Sh);
    conf.runner.gid = None;
    assert_eq!(Machine::spawn(&conf, &config, "/tmp/abc"), Err(VmSpawnError::MissingIdentity));
    conf.runner.gid = Some(1);
    conf.runner.uid = None;
    assert_eq!(Machine::spawn(&conf, &config, "/tmp/abc"), Err(VmSpawnError::MissingIdentity));
    config.supervisor = ProcessSupervisor::DirectLaunch;
    assert!(Machine::spawn(&conf, &config, "/tmp/abc").is_ok());
}

#[test]
fn run_code_plans_the_machine_of_the_language() {
    let config = direct();
    let plan = run_code(&config, Language::Bash, "/tmp/w").unwrap();
    let conf = VmConfig::for_language(&config, Language::Bash);
    assert_eq!(plan, Machine::spawn(&conf, &config, "/tmp/w").unwrap());
    assert_eq!(plan.rootfs_source, "/res/rootfs-bash.ext4");
    assert_eq!(plan.rootfs_copy, "/tmp/w/rootfs-bash.ext4");
}

#[test]
fn steps_follow_in_order() {
    let order = [
        SpawnStep::Workdir,
        SpawnStep::Chroot,
        SpawnStep::ConfigFile,
        SpawnStep::LogFile,
        SpawnStep::Rootfs,
        SpawnStep::Kernel,
        SpawnStep::Permissions,
        SpawnStep::Launch,
    ];
    for i in 0..7 {
        assert_eq!(order[i].next(), Some(order[i + 1]));
    }
    assert_eq!(SpawnStep::Launch.next(), None);
}

#[test]
fn fresh_machine_has_nothing() {
    let machine = Machine::new();
    assert_eq!(
        machine,
        Machine { state: ExecutorState::Booting, workdir: false, process: false }
    );
}

#[test]
fn machine_walks_through_its_life() {
    let mut machine = Machine::new();
    let mut step = Some(SpawnStep::Workdir);
    while let Some(now) = step {
        assert_eq!(machine.on(VmEvent::StepDone(now)), vec![]);
        step = now.next();
    }
    assert_eq!(machine, Machine { state: ExecutorState::Booting, workdir: true, process: true });
    assert_eq!(machine.on(VmEvent::RequestSent), vec![]);
    assert_eq!(machine.state, ExecutorState::Booting);
    assert_eq!(machine.on(VmEvent::GuestReady), vec![]);
    assert_eq!(machine.state, ExecutorState::Idling);
    assert_eq!(machine.on(VmEvent::GuestReady), vec![]);
    assert_eq!(machine.state, ExecutorState::Idling);
    assert_eq!(machine.on(VmEvent::RequestSent), vec![]);
    assert_eq!(machine.state, ExecutorState::Executing);
    assert_eq!(
        machine.on(VmEvent::Released),
        vec![Cleanup::KillProcess, Cleanup::RemoveWorkdir]
    );
    assert_eq!(
        machine,
        Machine { state: ExecutorState::Terminated, workdir: false, process: false }
    );
}

#[test]
fn failed_step_tears_down_what_exists() {
    let mut machine = Machine::new();
    assert_eq!(machine.on(VmEvent::StepFailed(SpawnStep::Workdir)), vec![]);
    assert_eq!(machine.state, ExecutorState::Terminated);

    let mut machine = Machine::new();
    machine.on(VmEvent::StepDone(SpawnStep::Workdir));
    machine.on(VmEvent::StepDone(SpawnStep::Chroot));
    assert_eq!(machine.on(VmEvent::StepFailed(SpawnStep::Rootfs)), vec![Cleanup::RemoveWorkdir]);
    assert_eq!(
        machine,
        Machine { state: ExecutorState::Terminated, workdir: false, process: false }
    );

    let mut machine = Machine::new();
    machine.on(VmEvent::StepDone(SpawnStep::Workdir));
    machine.on(VmEvent::StepDone(SpawnStep::Launch));
    assert_eq!(
        machine.teardown(),
        vec![Cleanup::KillProcess, Cleanup::RemoveWorkdir]
    );
    assert_eq!(machine.teardown(), vec![]);
}

#[test]
fn process_needs_its_directory() {
    let mut machine = Machine::new();
    machine.on(VmEvent::StepDone(SpawnStep::Launch));
    assert!(!machine.process);
    machine.on(VmEvent::GuestReady);
    assert_eq!(machine.state, ExecutorState::Booting);
}

#[test]
fn terminated_machine_is_not_revived() {
    let mut machine = Machine::new();
    machine.on(VmEvent::StepDone(SpawnStep::Workdir));
    machine.on(VmEvent::Released);
    let events = [
        VmEvent::StepDone(SpawnStep::Workdir),
        VmEvent::StepDone(SpawnStep::Launch),
        VmEvent::GuestReady,
        VmEvent::RequestSent,
        VmEvent::StepFailed(SpawnStep::Launch),
        VmEvent::Released,
    ];
    for event in events {
        assert_eq!(machine.on(event), vec![]);
        assert_eq!(
            machine,
            Machine { state: ExecutorState::Terminated, workdir: false, process: false }
        );
    }
}

#[test]
fn failed_step_is_a_spawn_error() {
    assert_eq!(
        VmEvent::StepFailed(SpawnStep::Kernel).error(),
        Some(VmSpawnError::Failed(SpawnStep::Kernel))
    );
    assert_eq!(VmEvent::StepDone(SpawnStep::Kernel).error(), None);
    assert_eq!(VmEvent::GuestReady.error(), None);
    assert_eq!(VmEvent::RequestSent.error(), None);
    assert_eq!(VmEvent::Released.error(), None);
}

#[test]
fn socket_is_named_after_the_port() {
    assert_eq!(socket_name(), "pyrod.sock_5000");
}
