use pyromaniac::config::{Config, Environment, ProcessSupervisor};
use pyromaniac::language::Language;
use pyromaniac::layout::{Block, Scalar, Section};
use pyromaniac::vm::{Drive, VmConfig};

fn text(key: &str, value: &str) -> (String, Scalar) {
    (key.to_string(), Scalar::Text(value.to_string()))
}

fn flag(key: &str, value: bool) -> (String, Scalar) {
    (key.to_string(), Scalar::Flag(value))
}

fn number(key: &str, value: u32) -> (String, Scalar) {
    (key.to_string(), Scalar::Number(value))
}

fn settings(supervisor: ProcessSupervisor) -> Config {
    let env = Environment {
        resource_path: Some("/res".to_string()),
        port: None,
        uid: Some("1".to_string()),
        gid: Some("2".to_string()),
    };
    Config::init_from_env(env, 4, supervisor).unwrap()
}

fn fixed(rootfs: &str, boot_args: &str) -> Vec<(String, Section)> {
    let drive: Block = vec![
        text("drive_id", "rootfs"),
        text("path_on_host", rootfs),
        flag("is_root_device", true),
        flag("is_read_only", false),
    ];
    vec![
        (
            "boot-source".to_string(),
            Section::Single(vec![
                text("kernel_image_path", "kernel.bin"),
                text("boot_args", boot_args),
            ]),
        ),
        ("drives".to_string(), Section::List(vec![drive])),
        (
            "machine-config".to_string(),
            Section::Single(vec![
                number("vcpu_count", 1),
                number("mem_size_mib", 1024),
                flag("smt", false),
            ]),
        ),
        (
            "vsock".to_string(),
            Section::Single(vec![
                number("guest_cid", 3),
                text("uds_path", "pyrod.sock"),
                text("vsock_id", "vsock0"),
            ]),
        ),
    ]
}

#[test]
fn layout_of_a_logged_machine() {
    let supervisor = ProcessSupervisor::DirectLaunch;
    let conf = VmConfig::for_language(&settings(supervisor), Language::Python);
    let file = conf.write_to_file("/w", supervisor).unwrap();
    let mut expected =
        fixed("rootfs-python.ext4", "init=/bin/pyrod console=ttyS0 reboot=k panic=1 pci=off");
    expected.push((
        "logger".to_string(),
        Section::Single(vec![
            text("log_path", "firecracker.log"),
            text("level", "Debug"),
            flag("show_level", true),
            flag("show_log_origin", true),
        ]),
    ));
    assert_eq!(file.document.layout(), expected);
}

#[test]
fn layout_of_a_jailed_machine_has_no_logger() {
    let supervisor = ProcessSupervisor::JailedLaunch;
    let conf = VmConfig::for_language(&settings(supervisor), Language::Java);
    let file = conf.write_to_file("/w", supervisor).unwrap();
    let expected = fixed("rootfs-java.ext4", "init=/bin/pyrod reboot=k panic=1 pci=off");
    assert_eq!(file.document.layout(), expected);
}

#[test]
fn layout_lists_every_drive_in_order() {
    let supervisor = ProcessSupervisor::JailedLaunch;
    let conf = VmConfig::for_language(&settings(supervisor), Language::Sh);
    let mut document = conf.write_to_file("/w", supervisor).unwrap().document;
    document.drives.push(Drive {
        drive_id: "scratch".to_string(),
        path_on_host: "scratch.ext4".to_string(),
        is_root_device: false,
        is_read_only: true,
    });
    let layout = document.layout();
    let drives = match &layout[1].1 {
        Section::List(blocks) => blocks.clone(),
        Section::Single(block) => panic!("drives are a list: {:?}", block),
    };
    assert_eq!(drives.len(), 2);
    assert_eq!(drives[0][0], text("drive_id", "rootfs"));
    assert_eq!(
        drives[1],
        vec![
            text("drive_id", "scratch"),
            text("path_on_host", "scratch.ext4"),
            flag("is_root_device", false),
            flag("is_read_only", true),
        ]
    );
    document.drives.clear();
    assert_eq!(document.layout()[1].1, Section::List(vec![]));
}
