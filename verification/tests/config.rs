use pyromaniac::config::{
    get, get_rootfs, max_vms, Config, ConfigError, Environment, ProcessSupervisor, RunnerConfig,
    DEFAULT_PORT,
};
use pyromaniac::language::Language;
use pyromaniac::span::Span;

fn empty() -> Environment {
    Environment { resource_path: None, port: None, uid: None, gid: None }
}

fn some(text: &str) -> Option<String> {
    Some(text.to_string())
}

#[test]
fn defaults_without_environment() {
    let config = Config::init_from_env(empty(), 4, ProcessSupervisor::DirectLaunch).unwrap();
    assert_eq!(
        config,
        Config {
            resource_path: "./resources".to_string(),
            port: 3000,
            supervisor: ProcessSupervisor::DirectLaunch,
            runner_config: RunnerConfig {
                cpus: 1,
                memory: 1024,
                max_vms: 8,
                compile_timeout: Span::from_secs(20),
                run_timeout: Span::from_secs(15),
                uid: None,
                gid: None,
            },
        }
    );
    assert_eq!(DEFAULT_PORT, 3000);
}

#[test]
fn environment_overrides_defaults() {
    let env = Environment {
        resource_path: some("/srv/pyro"),
        port: some("8080"),
        uid: some("1000"),
        gid: some("1001"),
    };
    let config = Config::init_from_env(env, 2, ProcessSupervisor::JailedLaunch).unwrap();
    assert_eq!(config.resource_path, "/srv/pyro");
    assert_eq!(config.port, 8080);
    assert_eq!(config.supervisor, ProcessSupervisor::JailedLaunch);
    assert_eq!(config.runner_config.uid, Some(1000));
    assert_eq!(config.runner_config.gid, Some(1001));
    assert_eq!(config.runner_config.max_vms, 4);
}

#[test]
fn port_that_is_no_number_falls_back() {
    for text in ["", "http", "70000", "-1", "80 "] {
        let env = Environment { port: some(text), ..empty() };
        let config = Config::init_from_env(env, 1, ProcessSupervisor::DirectLaunch).unwrap();
        assert_eq!(config.port, 3000, "on {:?}", text);
    }
}

#[test]
fn identity_that_is_no_number_is_absent() {
    let env = Environment { uid: some("root"), gid: some("65536"), ..empty() };
    let config = Config::init_from_env(env, 1, ProcessSupervisor::DirectLaunch).unwrap();
    assert_eq!(config.runner_config.uid, None);
    assert_eq!(config.runner_config.gid, None);
}

#[test]
fn jailed_launch_needs_both_ids() {
    let jailed = ProcessSupervisor::JailedLaunch;
    assert_eq!(Config::init_from_env(empty(), 4, jailed), Err(ConfigError::MissingIdentity));
    let only_uid = Environment { uid: some("111"), ..empty() };
    assert_eq!(Config::init_from_env(only_uid, 4, jailed), Err(ConfigError::MissingIdentity));
    let only_gid = Environment { gid: some("111"), ..empty() };
    assert_eq!(Config::init_from_env(only_gid, 4, jailed), Err(ConfigError::MissingIdentity));
    let bad_gid = Environment { uid: some("111"), gid: some("x"), ..empty() };
    assert_eq!(Config::init_from_env(bad_gid, 4, jailed), Err(ConfigError::MissingIdentity));
    let both = Environment { uid: some("111"), gid: some("112"), ..empty() };
    assert!(Config::init_from_env(both, 4, jailed).is_ok());
}

#[test]
fn max_vms_is_twice_the_processors() {
    assert_eq!(max_vms(0), 0);
    assert_eq!(max_vms(1), 2);
    assert_eq!(max_vms(16), 32);
    assert_eq!(max_vms(usize::MAX / 2), usize::MAX - 1);
    assert_eq!(max_vms(usize::MAX / 2 + 1), usize::MAX);
    assert_eq!(max_vms(usize::MAX), usize::MAX);
}

#[test]
fn get_keeps_the_first_settings() {
    let first = Config::init_from_env(empty(), 4, ProcessSupervisor::DirectLaunch).unwrap();
    let other = Environment { resource_path: some("/elsewhere"), port: some("1"), ..empty() };
    let again = get(Some(first), other, 64, ProcessSupervisor::JailedLaunch).unwrap();
    assert_eq!(again.resource_path, "./resources");
    assert_eq!(again.port, 3000);
    assert_eq!(again.supervisor, ProcessSupervisor::DirectLaunch);
    assert_eq!(again.runner_config.max_vms, 8);
}

#[test]
fn get_computes_what_is_missing() {
    let env = Environment { port: some("+4000"), ..empty() };
    let config = get(None, env, 3, ProcessSupervisor::DirectLaunch).unwrap();
    assert_eq!(config.port, 4000);
    assert_eq!(config.runner_config.max_vms, 6);
    assert_eq!(
        get(None, empty(), 3, ProcessSupervisor::JailedLaunch),
        Err(ConfigError::MissingIdentity)
    );
}

#[test]
fn rootfs_lies_in_the_resource_directory() {
    let config = Config::init_from_env(empty(), 4, ProcessSupervisor::DirectLaunch).unwrap();
    assert_eq!(get_rootfs(&config, Language::Python), "./resources/rootfs-python.ext4");
    assert_eq!(get_rootfs(&config, Language::Rust), "./resources/rootfs-rust.ext4");
    assert_eq!(get_rootfs(&config, Language::Java), "./resources/rootfs-java.ext4");
    assert_eq!(get_rootfs(&config, Language::Bash), "./resources/rootfs-bash.ext4");
    assert_eq!(get_rootfs(&config, Language::Sh), "./resources/rootfs-sh.ext4");
    let env = Environment { resource_path: some("/srv/pyro/"), ..empty() };
    let config = Config::init_from_env(env, 4, ProcessSupervisor::DirectLaunch).unwrap();
    assert_eq!(get_rootfs(&config, Language::Sh), "/srv/pyro/rootfs-sh.ext4");
}
