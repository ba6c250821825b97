//! The instance data model: one managed sandbox, its status state machine,
//! and the plain request/response shapes of the API surface.
//!
//! Timestamps are carried as seconds since the Unix epoch, and the optional
//! CPU limit as thousandths of a core, so that every field is a plain value
//! the contracts can speak about.

use crate::strutil::dec_digits;
use crate::strutil::u16_to_string;
use vstd::prelude::*;
use vstd::string::*;

verus! {

/// Where an instance stands in its lifecycle.
#[derive(Debug, PartialEq, Eq)]
pub enum InstanceStatus {
    /// Accepted; provisioning has not finished.
    Creating,
    /// The container is running.
    Running,
    /// The container exists but is stopped.
    Stopped,
    /// Terminal failure, with its reason.
    Error(String),
}

impl InstanceStatus {
    /// The string this status renders as.
    pub open spec fn label(self) -> Seq<char> {
        match self {
            InstanceStatus::Creating => "creating"@,
            InstanceStatus::Running => "running"@,
            InstanceStatus::Stopped => "stopped"@,
            InstanceStatus::Error(m) => m@,
        }
    }

    /// Render the status as a string slice.
    pub fn as_str(&self) -> (r: &str)
        ensures
            r@ == self.label(),
    {
        match self {
            InstanceStatus::Creating => "creating",
            InstanceStatus::Running => "running",
            InstanceStatus::Stopped => "stopped",
            InstanceStatus::Error(m) => m.as_str(),
        }
    }
}

impl Clone for InstanceStatus {
    fn clone(&self) -> (r: Self)
        ensures
            r == *self,
    {
        match self {
            InstanceStatus::Creating => InstanceStatus::Creating,
            InstanceStatus::Running => InstanceStatus::Running,
            InstanceStatus::Stopped => InstanceStatus::Stopped,
            InstanceStatus::Error(m) => InstanceStatus::Error(m.clone()),
        }
    }
}

/// Per-instance overrides: an optional remote-desktop password, debug
/// level, and CPU limit in thousandths of a core.
#[derive(Debug, PartialEq, Eq)]
pub struct InstanceConfig {
    pub rdp_password: Option<String>,
    pub wine_debug_level: Option<String>,
    pub cpu_millis: Option<u32>,
}

impl Clone for InstanceConfig {
    fn clone(&self) -> (r: Self)
        ensures
            r == *self,
    {
        InstanceConfig {
            rdp_password: clone_opt_string(&self.rdp_password),
            wine_debug_level: clone_opt_string(&self.wine_debug_level),
            cpu_millis: match self.cpu_millis {
                Some(v) => Some(v),
                None => None,
            },
        }
    }
}

impl Default for InstanceConfig {
    fn default() -> (r: Self)
        ensures
            r.rdp_password is None,
            r.wine_debug_level is None,
            r.cpu_millis is None,
    {
        InstanceConfig { rdp_password: None, wine_debug_level: None, cpu_millis: None }
    }
}

/// Clone an optional string, preserving its value.
pub fn clone_opt_string(o: &Option<String>) -> (r: Option<String>)
    ensures
        r == *o,
{
    match o {
        Some(s) => Some(s.clone()),
        None => None,
    }
}

/// One managed sandbox: its identity, ports, status and configuration.
#[derive(Debug)]
pub struct Instance {
    pub id: String,
    pub container_id: String,
    pub rdp_port: u16,
    pub console_port: u16,
    pub xpra_port: u16,
    pub status: InstanceStatus,
    pub created_at: i64,
    pub config: InstanceConfig,
}

impl Clone for Instance {
    fn clone(&self) -> (r: Self)
        ensures
            r == *self,
    {
        Instance {
            id: self.id.clone(),
            container_id: self.container_id.clone(),
            rdp_port: self.rdp_port,
            console_port: self.console_port,
            xpra_port: self.xpra_port,
            status: self.status.clone(),
            created_at: self.created_at,
            config: self.config.clone(),
        }
    }
}

/// The remote-desktop URL an instance's port renders as.
pub open spec fn rdp_url_chars(port: u16) -> Seq<char> {
    "rdp://localhost:"@ + dec_digits(port as int)
}

/// The display URL an instance's auxiliary-display port renders as.
pub open spec fn xpra_url_chars(port: u16) -> Seq<char> {
    "http://localhost:"@ + dec_digits(port as int)
}

/// Build the remote-desktop URL for a port.
pub fn rdp_url_for(port: u16) -> (r: String)
    ensures
        r@ == rdp_url_chars(port),
{
    let mut s = String::from_str("rdp://localhost:");
    let d = u16_to_string(port);
    s.append(d.as_str());
    s
}

/// Build the display URL for an auxiliary-display port.
pub fn xpra_url_for(port: u16) -> (r: String)
    ensures
        r@ == xpra_url_chars(port),
{
    let mut s = String::from_str("http://localhost:");
    let d = u16_to_string(port);
    s.append(d.as_str());
    s
}

/// A creation request: the base64 payload, optional extra archives, and
/// optional per-instance overrides.
#[derive(Debug)]
pub struct CreateInstanceRequest {
    pub openzt_dll: String,
    pub mods: Vec<String>,
    pub config: Option<InstanceConfig>,
}

/// What a creation request is answered with.
#[derive(Debug, PartialEq, Eq)]
pub struct CreateInstanceResponse {
    pub instance_id: String,
    pub rdp_port: u16,
    pub console_port: u16,
    pub xpra_port: u16,
    pub rdp_url: String,
    pub xpra_url: String,
    pub status: String,
}

/// The detail view of one instance, as the list and get operations return
/// it.
#[derive(Debug)]
pub struct InstanceDetails {
    pub id: String,
    pub container_id: String,
    pub rdp_port: u16,
    pub console_port: u16,
    pub xpra_port: u16,
    pub rdp_url: String,
    pub xpra_url: String,
    pub status: String,
    pub created_at: i64,
    pub config: InstanceConfig,
}

/// The detail view renders exactly the record it was derived from.
pub open spec fn details_matches(inst: Instance, d: InstanceDetails) -> bool {
    &&& d.id@ == inst.id@
    &&& d.container_id@ == inst.container_id@
    &&& d.rdp_port == inst.rdp_port
    &&& d.console_port == inst.console_port
    &&& d.xpra_port == inst.xpra_port
    &&& d.rdp_url@ == rdp_url_chars(inst.rdp_port)
    &&& d.xpra_url@ == xpra_url_chars(inst.xpra_port)
    &&& d.status@ == inst.status.label()
    &&& d.created_at == inst.created_at
    &&& d.config == inst.config
}

impl Instance {
    /// The detail view of this record.
    pub fn to_details(&self) -> (r: InstanceDetails)
        ensures
            details_matches(*self, r),
    {
        InstanceDetails {
            id: self.id.clone(),
            container_id: self.container_id.clone(),
            rdp_port: self.rdp_port,
            console_port: self.console_port,
            xpra_port: self.xpra_port,
            rdp_url: rdp_url_for(self.rdp_port),
            xpra_url: xpra_url_for(self.xpra_port),
            status: String::from_str(self.status.as_str()),
            created_at: self.created_at,
            config: self.config.clone(),
        }
    }
}

impl Clone for InstanceDetails {
    fn clone(&self) -> (r: Self)
        ensures
            r == *self,
    {
        InstanceDetails {
            id: self.id.clone(),
            container_id: self.container_id.clone(),
            rdp_port: self.rdp_port,
            console_port: self.console_port,
            xpra_port: self.xpra_port,
            rdp_url: self.rdp_url.clone(),
            xpra_url: self.xpra_url.clone(),
            status: self.status.clone(),
            created_at: self.created_at,
            config: self.config.clone(),
        }
    }
}

/// The logs of one instance.
#[derive(Debug)]
pub struct LogsResponse {
    pub instance_id: String,
    pub logs: String,
}

/// The answer to a stop, start or restart operation.
#[derive(Debug)]
pub struct InstanceStatusResponse {
    pub id: String,
    pub status: String,
}

} // verus!
