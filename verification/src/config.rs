//! The settings of the host service. They are computed once from the values
//! found in the environment and handed to whatever needs them.

use vstd::prelude::*;
use vstd::string::*;
use vstd::utf8::encode_utf8;
use crate::language::Language;
use crate::paths::{joined, path_join};
use crate::span::Span;
use crate::text::{owned, parse_u16, parse_u16_spec};

verus! {

/// The port that the service listens on unless told otherwise.
pub const DEFAULT_PORT: u16 = 3000;

/// How the hypervisor process is started.
#[derive(Debug, Clone, Copy, PartialEq, Eq, Structural)]
pub enum ProcessSupervisor {
    /// The hypervisor runs in place, under the service's own identity.
    DirectLaunch,
    /// The hypervisor runs through the launcher that confines it to its
    /// directory and drops to the sandbox identity.
    JailedLaunch,
}

/// What every machine is given.
#[derive(Debug, Clone, Copy, PartialEq, Eq)]
pub struct RunnerConfig {
    pub cpus: u32,
    /// Memory in MiB.
    pub memory: u32,
    pub max_vms: usize,
    pub compile_timeout: Span,
    pub run_timeout: Span,
    pub uid: Option<u16>,
    pub gid: Option<u16>,
}

/// The settings of the service.
#[derive(Debug, PartialEq, Eq)]
pub struct Config {
    /// The directory that holds kernel, images and hypervisor.
    pub resource_path: String,
    pub port: u16,
    pub supervisor: ProcessSupervisor,
    pub runner_config: RunnerConfig,
}

/// The raw values of the variables that the settings are read from; `None`
/// for one that is not set.
#[derive(Debug, PartialEq, Eq)]
pub struct Environment {
    pub resource_path: Option<String>,
    pub port: Option<String>,
    pub uid: Option<String>,
    pub gid: Option<String>,
}

/// Why the settings are unusable.
#[derive(Debug, Clone, Copy, PartialEq, Eq, Structural)]
pub enum ConfigError {
    /// A jailed launch needs both a user id and a group id.
    MissingIdentity,
}

/// The number that a variable holds, if it is set to one.
pub open spec fn number_in(raw: Option<String>) -> Option<u16> {
    match raw {
        Some(text) => parse_u16_spec(encode_utf8(text@)),
        None => None,
    }
}

/// The number of machines that may live at once on a host with `host_cpus`
/// processors: twice as many, as far as that fits.
pub open spec fn max_vms_for(host_cpus: usize) -> usize {
    if host_cpus <= usize::MAX / 2 {
        (2 * host_cpus) as usize
    } else {
        usize::MAX
    }
}

/// The limits and resources that every machine gets, given the sandbox
/// identity and the host's size.
pub open spec fn runner_config_for(
    uid: Option<u16>,
    gid: Option<u16>,
    host_cpus: usize,
) -> RunnerConfig {
    RunnerConfig {
        cpus: 1,
        memory: 1024,
        max_vms: max_vms_for(host_cpus),
        compile_timeout: Span { secs: 20, nanos: 0 },
        run_timeout: Span { secs: 15, nanos: 0 },
        uid,
        gid,
    }
}

/// Whether the environment gives what the way of launching needs.
pub open spec fn usable(env: Environment, supervisor: ProcessSupervisor) -> bool {
    supervisor is JailedLaunch ==> number_in(env.uid) is Some && number_in(env.gid) is Some
}

/// Whether `config` is what the environment says.
pub open spec fn loaded_from(
    config: Config,
    env: Environment,
    host_cpus: usize,
    supervisor: ProcessSupervisor,
) -> bool {
    &&& config.resource_path@ == match env.resource_path {
        Some(path) => path@,
        None => "./resources"@,
    }
    &&& config.port == match number_in(env.port) {
        Some(port) => port,
        None => 3000u16,
    }
    &&& config.supervisor == supervisor
    &&& config.runner_config == runner_config_for(
        number_in(env.uid),
        number_in(env.gid),
        host_cpus,
    )
}

/// Twice the number of processors, as far as that fits.
pub fn max_vms(host_cpus: usize) -> (r: usize)
    ensures
        r == max_vms_for(host_cpus),
{
    if host_cpus <= usize::MAX / 2 {
        2 * host_cpus
    } else {
        usize::MAX
    }
}

/// Reads a variable as a number.
fn number(raw: &Option<String>) -> (r: Option<u16>)
    ensures
        r == number_in(*raw),
{
    match raw {
        Some(text) => parse_u16(text.as_str()),
        None => None,
    }
}

impl Config {
    /// Computes the settings from the environment's values. The resource
    /// directory defaults to `./resources`. The port defaults to 3000, also
    /// where its variable holds no 16-bit number. User and group id are
    /// taken where their variables hold such a number. A jailed launch
    /// without both of them is refused.
    pub fn init_from_env(
        env: Environment,
        host_cpus: usize,
        supervisor: ProcessSupervisor,
    ) -> (r: Result<Config, ConfigError>)
        ensures
            r is Ok <==> usable(env, supervisor),
            r matches Ok(config) ==> loaded_from(config, env, host_cpus, supervisor),
            r matches Err(e) ==> e == ConfigError::MissingIdentity,
    {
        let uid = number(&env.uid);
        let gid = number(&env.gid);
        let port = match number(&env.port) {
            Some(port) => port,
            None => DEFAULT_PORT,
        };
        let jailed = match supervisor {
            ProcessSupervisor::JailedLaunch => true,
            ProcessSupervisor::DirectLaunch => false,
        };
        if jailed && (uid.is_none() || gid.is_none()) {
            return Err(ConfigError::MissingIdentity);
        }
        let resource_path = match env.resource_path {
            Some(path) => path,
            None => owned("./resources"),
        };
        Ok(
            Config {
                resource_path,
                port,
                supervisor,
                runner_config: RunnerConfig {
                    cpus: 1,
                    memory: 1024,
                    max_vms: max_vms(host_cpus),
                    compile_timeout: Span::from_secs(20),
                    run_timeout: Span::from_secs(15),
                    uid,
                    gid,
                },
            },
        )
    }
}

/// The settings of the process: those computed before, if there are any,
/// else those that the environment gives. The first settings stay: once
/// `cached` holds some, the environment no longer matters.
pub fn get(
    cached: Option<Config>,
    env: Environment,
    host_cpus: usize,
    supervisor: ProcessSupervisor,
) -> (r: Result<Config, ConfigError>)
    ensures
        cached matches Some(config) ==> r == Ok::<Config, ConfigError>(config),
        cached is None ==> {
            &&& r is Ok <==> usable(env, supervisor)
            &&& r matches Ok(config) ==> loaded_from(config, env, host_cpus, supervisor)
            &&& r matches Err(e) ==> e == ConfigError::MissingIdentity
        },
{
    match cached {
        Some(config) => Ok(config),
        None => Config::init_from_env(env, host_cpus, supervisor),
    }
}

/// The path of the root filesystem image for a language: the image's file
/// name joined to the resource directory.
pub fn get_rootfs(config: &Config, lang: Language) -> (r: String)
    ensures
        r@ == joined(config.resource_path@, lang.rootfs_name_spec()),
{
    let name = lang.rootfs_name();
    path_join(config.resource_path.as_str(), name.as_str())
}

} // verus!
