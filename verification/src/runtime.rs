//! What the orchestrator reads out of the container runtime, as plain
//! values: the state and port bindings an inspection reports, the mapping
//! from runtime state to instance status, and the startup recovery that
//! rebuilds the registry from those readings.
//!
//! The runtime calls themselves happen outside this module; a caller
//! inspects each container and hands the readings in as an
//! [`InspectData`].

use crate::instance::Instance;
use crate::instance::InstanceConfig;
use crate::instance::InstanceStatus;
use crate::ports::in_span;
use crate::ports::PortPool;
use crate::state::AppState;
use crate::strutil::parse_u16;
use crate::strutil::spec_parse_u16;
use crate::strutil::str_eq;
use crate::trusted::parse_rfc3339_epoch;
use crate::trusted::rfc3339_epoch;
use crate::trusted::uuid_is_valid;
use crate::trusted::uuid_parses;
use vstd::prelude::*;
use vstd::string::*;

verus! {

/// The state block of an inspected container.
#[derive(Debug)]
pub struct StateData {
    pub running: Option<bool>,
    pub status: Option<String>,
}

/// One container inspection, reduced to the plain values recovery reads:
/// the state block, the creation timestamp, the host ports bound to the
/// three fixed in-container ports (live network bindings and the static
/// host configuration separately), and the CPU-limit label recorded at
/// creation, already in thousandths of a core.
#[derive(Debug)]
pub struct InspectData {
    pub state: Option<StateData>,
    pub created: Option<String>,
    pub live_rdp: Option<String>,
    pub live_console: Option<String>,
    pub live_xpra: Option<String>,
    pub static_rdp: Option<String>,
    pub static_console: Option<String>,
    pub static_xpra: Option<String>,
    pub cpu_millis_label: Option<u32>,
}

/// What recovery reconstructs for one container.
#[derive(Debug)]
pub struct RecoveredInstanceInfo {
    pub container_id: String,
    pub rdp_port: u16,
    pub console_port: u16,
    pub xpra_port: u16,
    pub status: InstanceStatus,
    pub created_at: i64,
    pub config: InstanceConfig,
}

/// Why one container could not be read for recovery.
#[derive(Debug, PartialEq, Eq, Structural)]
pub enum InspectError {
    /// Neither live nor static bindings give all three ports.
    MissingPorts,
    /// The inspection carries no state block.
    MissingState,
    /// The inspection carries no creation timestamp.
    MissingCreated,
    /// The creation timestamp does not parse.
    BadCreated,
}

/// The port a binding string parses to, if any.
pub open spec fn spec_opt_port(s: Option<String>) -> Option<u16> {
    match s {
        Some(t) => spec_parse_u16(t@),
        None => None,
    }
}

/// The port triplet an inspection yields: live network bindings where all
/// three parse, else the static host-configuration bindings.
pub open spec fn spec_extract_ports(d: InspectData) -> Option<(u16, u16, u16)> {
    match (spec_opt_port(d.live_rdp), spec_opt_port(d.live_console), spec_opt_port(d.live_xpra)) {
        (Some(a), Some(b), Some(c)) => Some((a, b, c)),
        _ => match (
            spec_opt_port(d.static_rdp),
            spec_opt_port(d.static_console),
            spec_opt_port(d.static_xpra),
        ) {
            (Some(a), Some(b), Some(c)) => Some((a, b, c)),
            _ => None,
        },
    }
}

/// The instance status a runtime state block maps to: running means
/// `Running`; exited or paused mean `Stopped`; created means `Creating`;
/// any other reported state is an error carrying it; a silent state block
/// means `Stopped`.
pub open spec fn status_mapping_ok(st: StateData, r: InstanceStatus) -> bool {
    match st.running {
        Some(true) => r is Running,
        Some(false) => match st.status {
            Some(s) => if s@ == "exited"@ || s@ == "paused"@ {
                r is Stopped
            } else if s@ == "created"@ {
                r is Creating
            } else {
                r matches InstanceStatus::Error(m) && m@ == "Container state: "@ + s@
            },
            None => r is Stopped,
        },
        None => r is Stopped,
    }
}

/// An inspection carries everything recovery needs.
pub open spec fn spec_inspect_viable(d: InspectData) -> bool {
    &&& spec_extract_ports(d) is Some
    &&& d.state is Some
    &&& d.created matches Some(c) && rfc3339_epoch(c@) is Some
}

/// The triplet lies inside the pool's three configured spans.
pub open spec fn spec_ports_in_spans(pool: PortPool, ports: (u16, u16, u16)) -> bool {
    &&& in_span(pool.rdp_span(), ports.0)
    &&& in_span(pool.console_span(), ports.1)
    &&& in_span(pool.xpra_span(), ports.2)
}

/// Parse one binding string.
fn parse_opt_port(s: &Option<String>) -> (r: Option<u16>)
    ensures
        r == spec_opt_port(*s),
{
    match s {
        Some(t) => parse_u16(t.as_str()),
        None => None,
    }
}

/// Extract the host port triplet from an inspection, preferring live
/// network bindings and falling back to the static host configuration.
pub fn extract_ports(d: &InspectData) -> (r: Option<(u16, u16, u16)>)
    ensures
        r == spec_extract_ports(*d),
{
    match (parse_opt_port(&d.live_rdp), parse_opt_port(&d.live_console), parse_opt_port(
        &d.live_xpra,
    )) {
        (Some(a), Some(b), Some(c)) => Some((a, b, c)),
        _ => match (parse_opt_port(&d.static_rdp), parse_opt_port(&d.static_console), parse_opt_port(
            &d.static_xpra,
        )) {
            (Some(a), Some(b), Some(c)) => Some((a, b, c)),
            _ => None,
        },
    }
}

/// Map a runtime state block to an instance status.
pub fn map_runtime_status(st: &StateData) -> (r: InstanceStatus)
    ensures
        status_mapping_ok(*st, r),
{
    match st.running {
        Some(true) => InstanceStatus::Running,
        Some(false) => match &st.status {
            Some(s) => {
                if str_eq(s.as_str(), "exited") || str_eq(s.as_str(), "paused") {
                    InstanceStatus::Stopped
                } else if str_eq(s.as_str(), "created") {
                    InstanceStatus::Creating
                } else {
                    let mut m = String::from_str("Container state: ");
                    m.append(s.as_str());
                    InstanceStatus::Error(m)
                }
            },
            None => InstanceStatus::Stopped,
        },
        None => InstanceStatus::Stopped,
    }
}

/// Reduce one inspection to the record recovery will import: ports
/// (live bindings first, static as fallback), mapped status, parsed
/// creation timestamp, and the recovered CPU limit.
pub fn inspect_to_info(container_id: &str, d: &InspectData) -> (r: Result<
    RecoveredInstanceInfo,
    InspectError,
>)
    ensures
        match r {
            Ok(info) => {
                &&& spec_inspect_viable(*d)
                &&& spec_extract_ports(*d) == Some(
                    (info.rdp_port, info.console_port, info.xpra_port),
                )
                &&& d.state matches Some(st) && status_mapping_ok(st, info.status)
                &&& d.created matches Some(c) && rfc3339_epoch(c@) == Some(info.created_at)
                &&& info.container_id@ == container_id@
                &&& info.config.cpu_millis == d.cpu_millis_label
                &&& info.config.rdp_password is None
                &&& info.config.wine_debug_level is None
            },
            Err(e) => {
                &&& !spec_inspect_viable(*d)
                &&& match e {
                    InspectError::MissingPorts => spec_extract_ports(*d) is None,
                    InspectError::MissingState => spec_extract_ports(*d) is Some && d.state
                        is None,
                    InspectError::MissingCreated => spec_extract_ports(*d) is Some && d.state
                        is Some && d.created is None,
                    InspectError::BadCreated => spec_extract_ports(*d) is Some && d.state is Some
                        && (d.created matches Some(c) && rfc3339_epoch(c@) is None),
                }
            },
        },
{
    let ports = match extract_ports(d) {
        Some(t) => t,
        None => {
            return Err(InspectError::MissingPorts);
        },
    };
    let status = match &d.state {
        Some(st) => map_runtime_status(st),
        None => {
            return Err(InspectError::MissingState);
        },
    };
    let created_at = match &d.created {
        Some(c) => match parse_rfc3339_epoch(c.as_str()) {
            Some(t) => t,
            None => {
                return Err(InspectError::BadCreated);
            },
        },
        None => {
            return Err(InspectError::MissingCreated);
        },
    };
    Ok(
        RecoveredInstanceInfo {
            container_id: String::from_str(container_id),
            rdp_port: ports.0,
            console_port: ports.1,
            xpra_port: ports.2,
            status,
            created_at,
            config: InstanceConfig {
                rdp_password: None,
                wine_debug_level: None,
                cpu_millis: match d.cpu_millis_label {
                    Some(v) => Some(v),
                    None => None,
                },
            },
        },
    )
}

/// The runtime's CPU-quota unit for a limit given in thousandths of a
/// core: nanoseconds of CPU time per second.
pub fn nano_cpus_for(cpu_millis: u32) -> (r: i64)
    ensures
        r == cpu_millis * 1_000_000int,
{
    cpu_millis as i64 * 1_000_000
}

/// Whether the runtime already holds the wanted image among its local
/// tags.
pub fn image_present(tags: &Vec<String>, image: &str) -> (r: bool)
    ensures
        r == (exists|i: int| 0 <= i < tags@.len() && (#[trigger] tags@[i])@ == image@),
{
    let mut i: usize = 0;
    while i < tags.len()
        invariant
            i <= tags@.len(),
            forall|j: int| 0 <= j < i ==> (#[trigger] tags@[j])@ != image@,
        decreases tags@.len() - i,
    {
        if str_eq(tags[i].as_str(), image) {
            return true;
        }
        i = i + 1;
    }
    false
}

/// The candidate instance identifier a container name carries: managed
/// names have the form `/<prefix><identifier>`.
pub fn managed_instance_id(prefix: &str, name: &str) -> (r: Option<String>)
    ensures
        match r {
            Some(id) => name@ == "/"@ + prefix@ + id@,
            None => forall|id: Seq<char>| name@ != "/"@ + prefix@ + id,
        },
{
    let mut full = String::from_str("/");
    full.append(prefix);
    let fl = full.as_str().unicode_len();
    if crate::strutil::str_starts_with(name, full.as_str()) {
        let id = name.substring_char(fl, name.unicode_len());
        proof {
            assert(name@ =~= name@.subrange(0, fl as int) + name@.subrange(
                fl as int,
                name@.len() as int,
            ));
        }
        Some(String::from_str(id))
    } else {
        proof {
            assert forall|id: Seq<char>| name@ != "/"@ + prefix@ + id by {
                if name@ == "/"@ + prefix@ + id {
                    assert(name@.subrange(0, fl as int) =~= full@);
                }
            };
        }
        None
    }
}

/// One container found at startup: the candidate identifier its name
/// carried after the configured prefix, its container identifier, and its
/// inspection (absent where the inspection call failed).
#[derive(Debug)]
pub struct ContainerSnapshot {
    pub instance_id: String,
    pub container_id: String,
    pub inspect: Option<InspectData>,
}

/// A container found at startup is imported exactly when its candidate
/// identifier parses, is new to the registry, its inspection is complete,
/// and its ports lie inside the configured spans.
pub open spec fn import_accepted(pre: AppState, snap: ContainerSnapshot) -> bool {
    &&& uuid_parses(snap.instance_id@)
    &&& !pre.contains_id(snap.instance_id@)
    &&& snap.inspect matches Some(d) && spec_inspect_viable(d) && spec_ports_in_spans(
        pre.port_pool,
        spec_extract_ports(d)->Some_0,
    )
}

/// What importing one container does to the state: where the snapshot is
/// accepted, exactly its record is appended — the candidate identifier,
/// the container, the extracted ports (registered in the pool), the mapped
/// status, the parsed creation timestamp and the recovered CPU limit —
/// and where it is not, nothing changes, the pool included.
pub open spec fn import_step(pre: AppState, snap: ContainerSnapshot, post: AppState) -> bool {
    &&& post.wf()
    &&& post.config == pre.config
    &&& post.port_pool.same_spans(pre.port_pool)
    &&& if import_accepted(pre, snap) {
        ({
            let rec = post.instances@.last();
            let d = snap.inspect->Some_0;
            let ports = spec_extract_ports(d)->Some_0;
            &&& post.instances@.len() == pre.instances@.len() + 1
            &&& post.instances@.drop_last() == pre.instances@
            &&& rec.id@ == snap.instance_id@
            &&& rec.container_id@ == snap.container_id@
            &&& (rec.rdp_port, rec.console_port, rec.xpra_port) == ports
            &&& d.state matches Some(st) && status_mapping_ok(st, rec.status)
            &&& d.created matches Some(c) && rfc3339_epoch(c@) == Some(rec.created_at)
            &&& rec.config.cpu_millis == d.cpu_millis_label
            &&& rec.config.rdp_password is None
            &&& rec.config.wine_debug_level is None
            &&& post.port_pool.rdp_allocated() == pre.port_pool.rdp_allocated().insert(ports.0)
            &&& post.port_pool.console_allocated() == pre.port_pool.console_allocated().insert(
                ports.1,
            )
            &&& post.port_pool.xpra_allocated() == pre.port_pool.xpra_allocated().insert(ports.2)
        })
    } else {
        post.instances == pre.instances && post.port_pool.same_allocations(pre.port_pool)
    }
}

/// `chain` witnesses that `post` is reached from `pre` by importing the
/// snapshots one after the other, each step as [`import_step`] says.
pub open spec fn recovery_trace(
    pre: AppState,
    snaps: Seq<ContainerSnapshot>,
    post: AppState,
    chain: Seq<AppState>,
) -> bool {
    &&& chain.len() == snaps.len() + 1
    &&& chain.first() == pre
    &&& chain.last() == post
    &&& forall|i: int|
        #![trigger snaps[i]]
        0 <= i < snaps.len() ==> import_step(chain[i], snaps[i], chain[i + 1])
}

impl AppState {
    /// Import one container found at startup.  The candidate identifier
    /// must parse, be new to the registry, carry a complete inspection,
    /// and bind ports inside the configured spans; anything else skips the
    /// container and changes nothing.
    pub fn import_snapshot(&mut self, snap: ContainerSnapshot) -> (r: bool)
        requires
            old(self).wf(),
        ensures
            r == import_accepted(*old(self), snap),
            import_step(*old(self), snap, *final(self)),
    {
        if !uuid_is_valid(snap.instance_id.as_str()) {
            return false;
        }
        let info = match &snap.inspect {
            Some(d) => match inspect_to_info(snap.container_id.as_str(), d) {
                Ok(info) => info,
                Err(_) => {
                    return false;
                },
            },
            None => {
                return false;
            },
        };
        if self.contains_instance(snap.instance_id.as_str()) {
            return false;
        }
        match self.port_pool.add_existing_triplet(info.rdp_port, info.console_port, info.xpra_port) {
            Ok(()) => {},
            Err(_) => {
                return false;
            },
        }
        let record = Instance {
            id: snap.instance_id,
            container_id: snap.container_id,
            rdp_port: info.rdp_port,
            console_port: info.console_port,
            xpra_port: info.xpra_port,
            status: info.status,
            created_at: info.created_at,
            config: info.config,
        };
        self.instances.push(record);
        proof {
            assert(self.instances@.drop_last() =~= old(self).instances@);
        }
        true
    }

    /// Rebuild the registry from the containers found at startup,
    /// importing each in turn and skipping, never aborting on, the ones
    /// that cannot be read.  Returns how many were recovered.
    ///
    /// The final state is reached from the old one by one [`import_step`]
    /// per snapshot, in order: each accepted snapshot appends exactly its
    /// record and registers exactly its ports, each rejected one changes
    /// nothing, and the count is the number of accepted snapshots (the
    /// registry's growth).
    pub fn recover_instances(&mut self, snapshots: Vec<ContainerSnapshot>) -> (count: usize)
        requires
            old(self).wf(),
        ensures
            final(self).wf(),
            final(self).config == old(self).config,
            final(self).port_pool.same_spans(old(self).port_pool),
            count <= snapshots@.len(),
            final(self).instances@.len() == old(self).instances@.len() + count,
            forall|k: int|
                0 <= k < old(self).instances@.len() ==> final(self).instances@[k] == old(
                    self,
                ).instances@[k],
            exists|chain: Seq<AppState>|
                recovery_trace(*old(self), snapshots@, *final(self), chain),
    {
        let mut rest = snapshots;
        let mut count: usize = 0;
        let total: usize = rest.len();
        let ghost mut chain: Seq<AppState> = seq![*old(self)];
        while rest.len() > 0
            invariant
                self.wf(),
                self.config == old(self).config,
                self.port_pool.same_spans(old(self).port_pool),
                total == snapshots@.len(),
                count + rest@.len() <= total,
                self.instances@.len() == old(self).instances@.len() + count,
                forall|k: int|
                    0 <= k < old(self).instances@.len() ==> self.instances@[k] == old(
                        self,
                    ).instances@[k],
                chain.len() == total - rest@.len() + 1,
                chain.first() == *old(self),
                chain.last() == *self,
                rest@ == snapshots@.skip(chain.len() - 1),
                forall|i: int|
                    #![trigger snapshots@[i]]
                    0 <= i < chain.len() - 1 ==> import_step(chain[i], snapshots@[i], chain[i + 1]),
            decreases rest@.len(),
        {
            let ghost done = chain.len() - 1;
            let ghost pre_rest = rest@;
            let ghost pre_state = *self;
            let snap = rest.remove(0);
            proof {
                pre_rest.remove_ensures(0);
                assert(snap == snapshots@[done]);
                assert(rest@ =~= snapshots@.skip(done + 1));
            }
            if self.import_snapshot(snap) {
                count = count + 1;
            }
            proof {
                chain = chain.push(*self);
                assert(chain.last() == *self);
                assert forall|i: int|
                    0 <= i < chain.len() - 1 implies import_step(
                    chain[i],
                    #[trigger] snapshots@[i],
                    chain[i + 1],
                ) by {
                    if i < done {
                        assert(chain[i] == chain.drop_last()[i]);
                        assert(chain[i + 1] == chain.drop_last()[i + 1]);
                    } else {
                        assert(chain[i] == pre_state && chain[i + 1] == *self);
                    }
                };
            }
        }
        proof {
            assert(snapshots@.skip(chain.len() - 1) =~= Seq::<ContainerSnapshot>::empty());
            assert(recovery_trace(*old(self), snapshots@, *self, chain));
        }
        count
    }
}

} // verus!
