//! Process configuration as the orchestrator core sees it: the three port
//! spans, the runtime image and container-name prefix, and the instance
//! ceiling.  The CPU default is carried in thousandths of a core.

use vstd::prelude::*;
use vstd::string::*;

verus! {

/// The three configured port spans, each half-open.
#[derive(Debug, Clone, Copy, PartialEq, Eq, Structural)]
pub struct PortsConfig {
    pub rdp_start: u16,
    pub rdp_end: u16,
    pub console_start: u16,
    pub console_end: u16,
    pub xpra_start: u16,
    pub xpra_end: u16,
}

/// The runtime image to run and the name prefix of managed containers.
#[derive(Debug)]
pub struct DockerConfig {
    pub image: String,
    pub container_prefix: String,
}

/// Ceilings and defaults for instances.
#[derive(Debug, Clone, Copy, PartialEq, Eq, Structural)]
pub struct InstancesConfig {
    pub max_instances: usize,
    pub auto_cleanup_hours: u64,
    pub default_cpu_millis: u32,
}

/// API toggles.
#[derive(Debug, Clone, Copy, PartialEq, Eq, Structural)]
pub struct ApiConfig {
    pub enable_auth: bool,
}

/// Everything the orchestrator core is configured with.
#[derive(Debug)]
pub struct Config {
    pub ports: PortsConfig,
    pub docker: DockerConfig,
    pub instances: InstancesConfig,
    pub api: ApiConfig,
}

pub fn default_rdp_start() -> (r: u16)
    ensures
        r == 13390,
{
    13390
}

pub fn default_rdp_end() -> (r: u16)
    ensures
        r == 13490,
{
    13490
}

pub fn default_console_start() -> (r: u16)
    ensures
        r == 18081,
{
    18081
}

pub fn default_console_end() -> (r: u16)
    ensures
        r == 18181,
{
    18181
}

pub fn default_xpra_start() -> (r: u16)
    ensures
        r == 14500,
{
    14500
}

pub fn default_xpra_end() -> (r: u16)
    ensures
        r == 14600,
{
    14600
}

pub fn default_docker_image() -> (r: String)
    ensures
        r@ == "finn/winezt:latest"@,
{
    String::from_str("finn/winezt:latest")
}

pub fn default_container_prefix() -> (r: String)
    ensures
        r@ == "openzt-"@,
{
    String::from_str("openzt-")
}

pub fn default_max_instances() -> (r: usize)
    ensures
        r == 100,
{
    100
}

pub fn default_auto_cleanup_hours() -> (r: u64)
    ensures
        r == 24,
{
    24
}

/// The default CPU limit: half a core, in thousandths.
pub fn default_cpu_millis() -> (r: u32)
    ensures
        r == 500,
{
    500
}

impl Default for PortsConfig {
    fn default() -> (r: Self)
        ensures
            r == (PortsConfig {
                rdp_start: 13390,
                rdp_end: 13490,
                console_start: 18081,
                console_end: 18181,
                xpra_start: 14500,
                xpra_end: 14600,
            }),
    {
        PortsConfig {
            rdp_start: default_rdp_start(),
            rdp_end: default_rdp_end(),
            console_start: default_console_start(),
            console_end: default_console_end(),
            xpra_start: default_xpra_start(),
            xpra_end: default_xpra_end(),
        }
    }
}

impl Default for DockerConfig {
    fn default() -> (r: Self)
        ensures
            r.image@ == "finn/winezt:latest"@,
            r.container_prefix@ == "openzt-"@,
    {
        DockerConfig { image: default_docker_image(), container_prefix: default_container_prefix() }
    }
}

impl Default for InstancesConfig {
    fn default() -> (r: Self)
        ensures
            r == (InstancesConfig {
                max_instances: 100,
                auto_cleanup_hours: 24,
                default_cpu_millis: 500,
            }),
    {
        InstancesConfig {
            max_instances: default_max_instances(),
            auto_cleanup_hours: default_auto_cleanup_hours(),
            default_cpu_millis: default_cpu_millis(),
        }
    }
}

impl Default for ApiConfig {
    fn default() -> (r: Self)
        ensures
            r == (ApiConfig { enable_auth: false }),
    {
        ApiConfig { enable_auth: false }
    }
}

impl Default for Config {
    fn default() -> (r: Self)
        ensures
            r.ports == (PortsConfig {
                rdp_start: 13390,
                rdp_end: 13490,
                console_start: 18081,
                console_end: 18181,
                xpra_start: 14500,
                xpra_end: 14600,
            }),
            r.docker.image@ == "finn/winezt:latest"@,
            r.docker.container_prefix@ == "openzt-"@,
            r.instances == (InstancesConfig {
                max_instances: 100,
                auto_cleanup_hours: 24,
                default_cpu_millis: 500,
            }),
            r.api == (ApiConfig { enable_auth: false }),
    {
        Config {
            ports: PortsConfig::default(),
            docker: DockerConfig::default(),
            instances: InstancesConfig::default(),
            api: ApiConfig::default(),
        }
    }
}

impl Clone for DockerConfig {
    fn clone(&self) -> (r: Self)
        ensures
            r == *self,
    {
        DockerConfig { image: self.image.clone(), container_prefix: self.container_prefix.clone() }
    }
}

impl Clone for Config {
    fn clone(&self) -> (r: Self)
        ensures
            r == *self,
    {
        Config {
            ports: self.ports,
            docker: self.docker.clone(),
            instances: self.instances,
            api: self.api,
        }
    }
}

} // verus!
