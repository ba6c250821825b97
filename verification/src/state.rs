//! The authoritative registry: the instance map and the port pool as one
//! unit, with the lock-scoped steps of the provisioning protocol, explicit
//! stop/start/restart transitions, status reconciliation, and deletion.
//!
//! Every runtime call happens outside this module; each operation here is a
//! pure in-memory step that a caller runs between runtime calls.

use crate::config::Config;
use crate::errors::ApiError;
use crate::instance::clone_opt_string;
use crate::instance::details_matches;
use crate::instance::rdp_url_for;
use crate::instance::xpra_url_for;
use crate::instance::CreateInstanceResponse;
use crate::instance::Instance;
use crate::instance::InstanceConfig;
use crate::instance::InstanceDetails;
use crate::instance::InstanceStatus;
use crate::ports::PortPool;
use crate::strutil::str_eq;
use crate::trusted::base64_decoded;
use crate::trusted::decode_base64;
use crate::trusted::fresh_uuid_string;
use vstd::prelude::*;
use vstd::string::*;

verus! {

/// What the background provisioning step reports back.
#[derive(Debug)]
pub enum ProvisionOutcome {
    /// The container was created and started; here is its identifier.
    Started(String),
    /// Provisioning failed, with its reason.
    Failed(String),
}

/// What a status query against the runtime reported.
#[derive(Debug)]
pub enum RefreshOutcome {
    /// The runtime reported this status.
    Observed(InstanceStatus),
    /// The runtime knows no such container: it was deleted externally.
    Missing,
    /// The runtime could not be reached; keep the cached status.
    Unreachable,
}

/// How to answer a stop, start or restart request.
#[derive(Debug)]
pub enum OpPlan {
    /// No runtime call is needed; answer with this status label.
    Done(String),
    /// Call the runtime on this container, then commit the new status.
    Invoke(String),
}

/// The reason a supplied payload is rejected, if any: it must decode from
/// base64 and carry the two-byte executable magic header.
pub open spec fn payload_bytes_error(b: Seq<u8>) -> Option<Seq<char>> {
    if b.len() < 2 {
        Some("DLL data is too short"@)
    } else if b[0] != 77u8 || b[1] != 90u8 {
        Some("Invalid DLL format: missing MZ header"@)
    } else {
        None
    }
}

/// The reason a base64 payload string is rejected, if any.
pub open spec fn payload_error(s: Seq<char>) -> Option<Seq<char>> {
    match base64_decoded(s) {
        None => Some("Failed to decode base64 DLL"@),
        Some(b) => payload_bytes_error(b),
    }
}

/// Validate decoded payload bytes: a minimum length and the two-byte
/// magic-number header (ASCII `M`, `Z`).
pub fn validate_payload_bytes(bytes: &Vec<u8>) -> (r: Result<(), ApiError>)
    ensures
        match r {
            Ok(()) => payload_bytes_error(bytes@) is None,
            Err(e) => e matches ApiError::InvalidDll(s) && payload_bytes_error(bytes@) == Some(
                s@,
            ),
        },
{
    if bytes.len() < 2 {
        return Err(ApiError::InvalidDll(String::from_str("DLL data is too short")));
    }
    if bytes[0] != 77u8 || bytes[1] != 90u8 {
        return Err(
            ApiError::InvalidDll(String::from_str("Invalid DLL format: missing MZ header")),
        );
    }
    Ok(())
}

/// Decode a base64 payload and validate it, returning the bytes to
/// persist.
pub fn decode_and_validate_payload(payload_b64: &str) -> (r: Result<Vec<u8>, ApiError>)
    ensures
        match r {
            Ok(v) => payload_error(payload_b64@) is None && base64_decoded(payload_b64@) == Some(
                v@,
            ),
            Err(e) => e matches ApiError::InvalidDll(s) && payload_error(payload_b64@) == Some(
                s@,
            ),
        },
{
    match decode_base64(payload_b64) {
        None => Err(ApiError::InvalidDll(String::from_str("Failed to decode base64 DLL"))),
        Some(bytes) => {
            match validate_payload_bytes(&bytes) {
                Ok(()) => Ok(bytes),
                Err(e) => Err(e),
            }
        },
    }
}

/// Some allocation domain of the pool has every port of its span taken.
pub open spec fn some_span_full(pool: PortPool) -> bool {
    ||| crate::ports::span_full(pool.rdp_span(), pool.rdp_allocated())
    ||| crate::ports::span_full(pool.console_span(), pool.console_allocated())
    ||| crate::ports::span_full(pool.xpra_span(), pool.xpra_allocated())
}

/// A sequence equals another with one position overwritten.
pub open spec fn updated_at(pre: Seq<Instance>, post: Seq<Instance>, k: int) -> bool {
    &&& post.len() == pre.len()
    &&& forall|j: int| 0 <= j < pre.len() && j != k ==> post[j] == pre[j]
}

/// The shared application state: configuration, port pool and instance
/// map, mutated only as one unit.
#[derive(Debug)]
pub struct AppState {
    pub config: Config,
    pub port_pool: PortPool,
    pub instances: Vec<Instance>,
}

impl AppState {
    /// An identifier is registered.
    pub open spec fn contains_id(self, id: Seq<char>) -> bool {
        exists|k: int| 0 <= k < self.instances@.len() && self.instances@[k].id@ == id
    }

    /// The index of a registered identifier.
    pub open spec fn index_of_id(self, id: Seq<char>) -> int {
        choose|k: int| 0 <= k < self.instances@.len() && self.instances@[k].id@ == id
    }

    /// The registry invariant: the pool is well-formed and identifiers are
    /// unique for their entire lifetime.
    pub open spec fn wf(self) -> bool {
        &&& self.port_pool.wf()
        &&& forall|i: int, j: int|
            0 <= i < j < self.instances@.len() ==> self.instances@[i].id@ != self.instances@[j].id@
    }

    /// The registry part (instances and configuration) is unchanged.
    pub open spec fn same_registry(self, other: AppState) -> bool {
        self.instances == other.instances && self.config == other.config
    }

    /// A fresh state over a configuration: an empty registry and a pool
    /// over the configured spans.
    pub fn new(config: Config) -> (r: AppState)
        ensures
            r.wf(),
            r.instances@.len() == 0,
            r.config == config,
            r.port_pool.rdp_span() == (config.ports.rdp_start, config.ports.rdp_end),
            r.port_pool.console_span() == (config.ports.console_start, config.ports.console_end),
            r.port_pool.xpra_span() == (config.ports.xpra_start, config.ports.xpra_end),
            r.port_pool.rdp_allocated() == Set::<u16>::empty(),
            r.port_pool.console_allocated() == Set::<u16>::empty(),
            r.port_pool.xpra_allocated() == Set::<u16>::empty(),
    {
        let port_pool = PortPool::new(
            config.ports.rdp_start..config.ports.rdp_end,
            config.ports.console_start..config.ports.console_end,
            config.ports.xpra_start..config.ports.xpra_end,
        );
        AppState { config, port_pool, instances: Vec::new() }
    }

    /// The index of the record with this identifier, if any.
    fn find_index(&self, id: &str) -> (r: Option<usize>)
        ensures
            match r {
                Some(k) => k < self.instances@.len() && self.instances@[k as int].id@ == id@,
                None => !self.contains_id(id@),
            },
    {
        let mut i: usize = 0;
        while i < self.instances.len()
            invariant
                i <= self.instances@.len(),
                forall|j: int| 0 <= j < i ==> self.instances@[j].id@ != id@,
            decreases self.instances@.len() - i,
        {
            if str_eq(self.instances[i].id.as_str(), id) {
                return Some(i);
            }
            i = i + 1;
        }
        None
    }

    /// Whether an identifier is registered.
    pub fn contains_instance(&self, id: &str) -> (r: bool)
        ensures
            r == self.contains_id(id@),
    {
        self.find_index(id).is_some()
    }

    /// Overwrite one record.
    fn set_instance(&mut self, k: usize, inst: Instance)
        requires
            k < old(self).instances@.len(),
        ensures
            final(self).instances@ == old(self).instances@.update(k as int, inst),
            final(self).port_pool == old(self).port_pool,
            final(self).config == old(self).config,
    {
        let ghost pre = self.instances@;
        let _ = self.instances.remove(k);
        self.instances.insert(k, inst);
        proof {
            pre.remove_ensures(k as int);
            assert(self.instances@ =~= pre.update(k as int, inst));
        }
    }

    /// Accept a creation request: generate the identifier, atomically
    /// allocate the port triplet, and decode and validate the payload.
    /// On any failure nothing stays allocated.
    pub fn create_accept(&mut self, payload_b64: &str) -> (r: Result<
        (String, (u16, u16, u16), Vec<u8>),
        ApiError,
    >)
        requires
            old(self).wf(),
        ensures
            final(self).wf(),
            final(self).same_registry(*old(self)),
            final(self).port_pool.same_spans(old(self).port_pool),
            match r {
                Ok(t) => {
                    &&& t.0@.len() == 36
                    &&& payload_error(payload_b64@) is None
                    &&& base64_decoded(payload_b64@) == Some(t.2@)
                    &&& crate::ports::in_span(old(self).port_pool.rdp_span(), t.1.0)
                    &&& crate::ports::in_span(old(self).port_pool.console_span(), t.1.1)
                    &&& crate::ports::in_span(old(self).port_pool.xpra_span(), t.1.2)
                    &&& !old(self).port_pool.rdp_allocated().contains(t.1.0)
                    &&& !old(self).port_pool.console_allocated().contains(t.1.1)
                    &&& !old(self).port_pool.xpra_allocated().contains(t.1.2)
                    &&& forall|q: u16|
                        old(self).port_pool.rdp_span().0 <= q < t.1.0 ==> old(
                            self,
                        ).port_pool.rdp_allocated().contains(q)
                    &&& forall|q: u16|
                        old(self).port_pool.console_span().0 <= q < t.1.1 ==> old(
                            self,
                        ).port_pool.console_allocated().contains(q)
                    &&& forall|q: u16|
                        old(self).port_pool.xpra_span().0 <= q < t.1.2 ==> old(
                            self,
                        ).port_pool.xpra_allocated().contains(q)
                    &&& final(self).port_pool.rdp_allocated() == old(
                        self,
                    ).port_pool.rdp_allocated().insert(t.1.0)
                    &&& final(self).port_pool.console_allocated() == old(
                        self,
                    ).port_pool.console_allocated().insert(t.1.1)
                    &&& final(self).port_pool.xpra_allocated() == old(
                        self,
                    ).port_pool.xpra_allocated().insert(t.1.2)
                },
                Err(e) => {
                    &&& final(self).port_pool.same_allocations(old(self).port_pool)
                    &&& if some_span_full(old(self).port_pool) {
                        e == ApiError::PortsExhausted
                    } else {
                        e matches ApiError::InvalidDll(m) && payload_error(payload_b64@) == Some(
                            m@,
                        )
                    }
                },
            },
    {
        let ghost pre_pool = self.port_pool;
        let triplet = match self.port_pool.allocate_triplet() {
            Some(t) => t,
            None => {
                return Err(ApiError::PortsExhausted);
            },
        };
        match decode_and_validate_payload(payload_b64) {
            Ok(bytes) => {
                let id = fresh_uuid_string();
                Ok((id, triplet, bytes))
            },
            Err(e) => {
                self.port_pool.release_triplet(triplet.0, triplet.1, triplet.2);
                proof {
                    assert(!crate::ports::span_full(
                        pre_pool.rdp_span(),
                        pre_pool.rdp_allocated(),
                    )) by {
                        assert(crate::ports::in_span(pre_pool.rdp_span(), triplet.0));
                        assert(!pre_pool.rdp_allocated().contains(triplet.0));
                    }
                    assert(!crate::ports::span_full(
                        pre_pool.console_span(),
                        pre_pool.console_allocated(),
                    )) by {
                        assert(crate::ports::in_span(pre_pool.console_span(), triplet.1));
                        assert(!pre_pool.console_allocated().contains(triplet.1));
                    }
                    assert(!crate::ports::span_full(
                        pre_pool.xpra_span(),
                        pre_pool.xpra_allocated(),
                    )) by {
                        assert(crate::ports::in_span(pre_pool.xpra_span(), triplet.2));
                        assert(!pre_pool.xpra_allocated().contains(triplet.2));
                    }
                    assert(pre_pool.rdp_allocated().insert(triplet.0).remove(triplet.0)
                        =~= pre_pool.rdp_allocated());
                    assert(pre_pool.console_allocated().insert(triplet.1).remove(triplet.1)
                        =~= pre_pool.console_allocated());
                    assert(pre_pool.xpra_allocated().insert(triplet.2).remove(triplet.2)
                        =~= pre_pool.xpra_allocated());
                }
                Err(e)
            },
        }
    }

    /// Enforce the instance ceiling and insert the accepted record
    /// (status `Creating`, no container yet), answering the caller.  On
    /// refusal the ports of the request are released, so nothing leaks.
    pub fn commit_create(
        &mut self,
        id: String,
        ports: (u16, u16, u16),
        created_at: i64,
        config: InstanceConfig,
    ) -> (r: Result<CreateInstanceResponse, ApiError>)
        requires
            old(self).wf(),
        ensures
            final(self).wf(),
            final(self).config == old(self).config,
            final(self).port_pool.same_spans(old(self).port_pool),
            if old(self).instances@.len() >= old(self).config.instances.max_instances {
                &&& r == Err::<CreateInstanceResponse, ApiError>(ApiError::MaxInstancesReached)
                &&& final(self).instances == old(self).instances
                &&& triplet_released(old(self).port_pool, final(self).port_pool, ports)
            } else if old(self).contains_id(id@) {
                &&& r matches Err(e) && e is Internal
                &&& final(self).instances == old(self).instances
                &&& triplet_released(old(self).port_pool, final(self).port_pool, ports)
            } else {
                &&& final(self).port_pool.same_allocations(old(self).port_pool)
                &&& final(self).instances@.len() == old(self).instances@.len() + 1
                &&& final(self).instances@.drop_last() == old(self).instances@
                &&& final(self).instances@.len() <= old(self).config.instances.max_instances
                &&& ({
                    let rec = final(self).instances@.last();
                    &&& rec.id@ == id@
                    &&& rec.container_id@.len() == 0
                    &&& rec.rdp_port == ports.0
                    &&& rec.console_port == ports.1
                    &&& rec.xpra_port == ports.2
                    &&& rec.status is Creating
                    &&& rec.created_at == created_at
                    &&& rec.config == config
                })
                &&& r is Ok
                &&& ({
                    let resp = r->Ok_0;
                    &&& resp.instance_id@ == id@
                    &&& resp.rdp_port == ports.0
                    &&& resp.console_port == ports.1
                    &&& resp.xpra_port == ports.2
                    &&& resp.rdp_url@ == crate::instance::rdp_url_chars(ports.0)
                    &&& resp.xpra_url@ == crate::instance::xpra_url_chars(ports.2)
                    &&& resp.status@ == "creating"@
                })
            },
    {
        if self.instances.len() >= self.config.instances.max_instances {
            self.port_pool.release_triplet(ports.0, ports.1, ports.2);
            return Err(ApiError::MaxInstancesReached);
        }
        match self.find_index(id.as_str()) {
            Some(_) => {
                self.port_pool.release_triplet(ports.0, ports.1, ports.2);
                Err(ApiError::Internal(String::from_str("Identifier already registered")))
            },
            None => {
                let response = CreateInstanceResponse {
                    instance_id: id.clone(),
                    rdp_port: ports.0,
                    console_port: ports.1,
                    xpra_port: ports.2,
                    rdp_url: rdp_url_for(ports.0),
                    xpra_url: xpra_url_for(ports.2),
                    status: String::from_str("creating"),
                };
                let record = Instance {
                    id,
                    container_id: String::new(),
                    rdp_port: ports.0,
                    console_port: ports.1,
                    xpra_port: ports.2,
                    status: InstanceStatus::Creating,
                    created_at,
                    config,
                };
                self.instances.push(record);
                Ok(response)
            },
        }
    }

    /// The per-instance configuration the provisioning step runs with: the
    /// record's own, with the process-wide CPU default filled in.
    pub fn effective_config(&self, id: &str) -> (r: InstanceConfig)
        requires
            self.wf(),
        ensures
            ({
                let base = if self.contains_id(id@) {
                    self.instances@[self.index_of_id(id@)].config
                } else {
                    InstanceConfig { rdp_password: None, wine_debug_level: None, cpu_millis: None }
                };
                &&& r.rdp_password == base.rdp_password
                &&& r.wine_debug_level == base.wine_debug_level
                &&& r.cpu_millis == (if base.cpu_millis is Some {
                    base.cpu_millis
                } else {
                    Some(self.config.instances.default_cpu_millis)
                })
            }),
    {
        let base = match self.find_index(id) {
            Some(k) => {
                proof {
                    lemma_unique_index(*self, id@, k as int);
                }
                self.instances[k].config.clone()
            },
            None => InstanceConfig {
                rdp_password: None,
                wine_debug_level: None,
                cpu_millis: None,
            },
        };
        InstanceConfig {
            rdp_password: clone_opt_string(&base.rdp_password),
            wine_debug_level: clone_opt_string(&base.wine_debug_level),
            cpu_millis: match base.cpu_millis {
                Some(v) => Some(v),
                None => Some(self.config.instances.default_cpu_millis),
            },
        }
    }

    /// Commit what the background provisioning step reported.  On success
    /// the record gets its container and becomes `Running`; on failure the
    /// record becomes `Error(reason)` and the request's ports return to
    /// the pool.
    pub fn apply_provision_outcome(
        &mut self,
        id: &str,
        ports: (u16, u16, u16),
        outcome: ProvisionOutcome,
    )
        requires
            old(self).wf(),
            outcome matches ProvisionOutcome::Started(cid) ==> cid@.len() > 0,
        ensures
            final(self).wf(),
            final(self).config == old(self).config,
            final(self).port_pool.same_spans(old(self).port_pool),
            match outcome {
                ProvisionOutcome::Started(cid) => {
                    &&& final(self).port_pool.same_allocations(old(self).port_pool)
                    &&& if old(self).contains_id(id@) {
                        ({
                            let k = old(self).index_of_id(id@);
                            let pre = old(self).instances@[k];
                            let post = final(self).instances@[k];
                            &&& updated_at(old(self).instances@, final(self).instances@, k)
                            &&& post.container_id@ == cid@
                            &&& post.status is Running
                            &&& post.id@ == pre.id@
                            &&& post.rdp_port == pre.rdp_port
                            &&& post.console_port == pre.console_port
                            &&& post.xpra_port == pre.xpra_port
                            &&& post.created_at == pre.created_at
                            &&& post.config == pre.config
                        })
                    } else {
                        final(self).instances == old(self).instances
                    }
                },
                ProvisionOutcome::Failed(msg) => {
                    &&& triplet_released(old(self).port_pool, final(self).port_pool, ports)
                    &&& if old(self).contains_id(id@) {
                        ({
                            let k = old(self).index_of_id(id@);
                            let pre = old(self).instances@[k];
                            let post = final(self).instances@[k];
                            &&& updated_at(old(self).instances@, final(self).instances@, k)
                            &&& post.status == InstanceStatus::Error(msg)
                            &&& post.container_id@ == pre.container_id@
                            &&& post.id@ == pre.id@
                            &&& post.rdp_port == pre.rdp_port
                            &&& post.console_port == pre.console_port
                            &&& post.xpra_port == pre.xpra_port
                            &&& post.created_at == pre.created_at
                            &&& post.config == pre.config
                        })
                    } else {
                        final(self).instances == old(self).instances
                    }
                },
            },
    {
        match outcome {
            ProvisionOutcome::Started(cid) => {
                match self.find_index(id) {
                    Some(k) => {
                        proof {
                            lemma_unique_index(*self, id@, k as int);
                        }
                        let pre = &self.instances[k];
                        let updated = Instance {
                            id: pre.id.clone(),
                            container_id: cid,
                            rdp_port: pre.rdp_port,
                            console_port: pre.console_port,
                            xpra_port: pre.xpra_port,
                            status: InstanceStatus::Running,
                            created_at: pre.created_at,
                            config: pre.config.clone(),
                        };
                        self.set_instance(k, updated);
                        proof {
                            lemma_update_keeps_unique_ids(*old(self), *self, k as int);
                        }
                    },
                    None => {},
                }
            },
            ProvisionOutcome::Failed(msg) => {
                match self.find_index(id) {
                    Some(k) => {
                        proof {
                            lemma_unique_index(*self, id@, k as int);
                        }
                        let pre = &self.instances[k];
                        let updated = Instance {
                            id: pre.id.clone(),
                            container_id: pre.container_id.clone(),
                            rdp_port: pre.rdp_port,
                            console_port: pre.console_port,
                            xpra_port: pre.xpra_port,
                            status: InstanceStatus::Error(msg),
                            created_at: pre.created_at,
                            config: pre.config.clone(),
                        };
                        self.set_instance(k, updated);
                        proof {
                            lemma_update_keeps_unique_ids(*old(self), *self, k as int);
                        }
                    },
                    None => {},
                }
                self.port_pool.release_triplet(ports.0, ports.1, ports.2);
            },
        }
    }

    /// Overwrite the cached status of one instance; a no-op if the
    /// identifier is not registered.
    pub fn set_status_by_id(&mut self, id: &str, status: InstanceStatus) -> (r: bool)
        requires
            old(self).wf(),
        ensures
            final(self).wf(),
            final(self).config == old(self).config,
            final(self).port_pool == old(self).port_pool,
            r == old(self).contains_id(id@),
            if old(self).contains_id(id@) {
                ({
                    let k = old(self).index_of_id(id@);
                    let pre = old(self).instances@[k];
                    let post = final(self).instances@[k];
                    &&& updated_at(old(self).instances@, final(self).instances@, k)
                    &&& post.status == status
                    &&& post.container_id@ == pre.container_id@
                    &&& post.id@ == pre.id@
                    &&& post.rdp_port == pre.rdp_port
                    &&& post.console_port == pre.console_port
                    &&& post.xpra_port == pre.xpra_port
                    &&& post.created_at == pre.created_at
                    &&& post.config == pre.config
                })
            } else {
                final(self).instances == old(self).instances
            },
    {
        match self.find_index(id) {
            Some(k) => {
                proof {
                    lemma_unique_index(*self, id@, k as int);
                }
                let pre = &self.instances[k];
                let updated = Instance {
                    id: pre.id.clone(),
                    container_id: pre.container_id.clone(),
                    rdp_port: pre.rdp_port,
                    console_port: pre.console_port,
                    xpra_port: pre.xpra_port,
                    status,
                    created_at: pre.created_at,
                    config: pre.config.clone(),
                };
                self.set_instance(k, updated);
                proof {
                    lemma_update_keeps_unique_ids(*old(self), *self, k as int);
                }
                true
            },
            None => false,
        }
    }

    /// Merge one reconciliation result: an observed status overwrites the
    /// cache; a missing container marks the record as externally deleted;
    /// an unreachable runtime leaves the cache untouched.
    pub fn apply_refresh(&mut self, id: &str, outcome: RefreshOutcome)
        requires
            old(self).wf(),
        ensures
            final(self).wf(),
            final(self).config == old(self).config,
            final(self).port_pool == old(self).port_pool,
            match outcome {
                RefreshOutcome::Observed(status) => if old(self).contains_id(id@) {
                    ({
                        let k = old(self).index_of_id(id@);
                        &&& updated_at(old(self).instances@, final(self).instances@, k)
                        &&& final(self).instances@[k].status == status
                        &&& final(self).instances@[k].container_id@ == old(
                            self,
                        ).instances@[k].container_id@
                        &&& final(self).instances@[k].id@ == old(self).instances@[k].id@
                    })
                } else {
                    final(self).instances == old(self).instances
                },
                RefreshOutcome::Missing => if old(self).contains_id(id@) {
                    ({
                        let k = old(self).index_of_id(id@);
                        &&& updated_at(old(self).instances@, final(self).instances@, k)
                        &&& final(self).instances@[k].status.label()
                            == "Container deleted externally"@
                        &&& final(self).instances@[k].status is Error
                        &&& final(self).instances@[k].container_id@ == old(
                            self,
                        ).instances@[k].container_id@
                        &&& final(self).instances@[k].id@ == old(self).instances@[k].id@
                    })
                } else {
                    final(self).instances == old(self).instances
                },
                RefreshOutcome::Unreachable => final(self).instances == old(self).instances,
            },
    {
        match outcome {
            RefreshOutcome::Observed(status) => {
                let _ = self.set_status_by_id(id, status);
            },
            RefreshOutcome::Missing => {
                let _ = self.set_status_by_id(
                    id,
                    InstanceStatus::Error(String::from_str("Container deleted externally")),
                );
            },
            RefreshOutcome::Unreachable => {},
        }
    }

    /// Snapshot the identifier and container of every record, for
    /// reconciliation outside the lock.
    pub fn snapshot_ids(&self) -> (r: Vec<(String, String)>)
        ensures
            r@.len() == self.instances@.len(),
            forall|k: int|
                0 <= k < r@.len() ==> (#[trigger] r@[k]).0@ == self.instances@[k].id@ && r@[k].1@
                    == self.instances@[k].container_id@,
    {
        let mut out: Vec<(String, String)> = Vec::new();
        let mut i: usize = 0;
        while i < self.instances.len()
            invariant
                i <= self.instances@.len(),
                out@.len() == i,
                forall|k: int|
                    0 <= k < i ==> (#[trigger] out@[k]).0@ == self.instances@[k].id@ && out@[k].1@
                        == self.instances@[k].container_id@,
            decreases self.instances@.len() - i,
        {
            let inst = &self.instances[i];
            out.push((inst.id.clone(), inst.container_id.clone()));
            i = i + 1;
        }
        out
    }

    /// The detail view of every record, in registry order.
    pub fn list_details(&self) -> (r: Vec<InstanceDetails>)
        ensures
            r@.len() == self.instances@.len(),
            forall|k: int|
                0 <= k < r@.len() ==> details_matches(self.instances@[k], #[trigger] r@[k]),
    {
        let mut out: Vec<InstanceDetails> = Vec::new();
        let mut i: usize = 0;
        while i < self.instances.len()
            invariant
                i <= self.instances@.len(),
                out@.len() == i,
                forall|k: int|
                    0 <= k < i ==> details_matches(self.instances@[k], #[trigger] out@[k]),
            decreases self.instances@.len() - i,
        {
            out.push(self.instances[i].to_details());
            i = i + 1;
        }
        out
    }

    /// The detail view of one record, or `NotFound`.
    pub fn get_details(&self, id: &str) -> (r: Result<InstanceDetails, ApiError>)
        requires
            self.wf(),
        ensures
            r is Ok <==> self.contains_id(id@),
            r matches Ok(d) ==> details_matches(self.instances@[self.index_of_id(id@)], d),
            r is Err ==> r == Err::<InstanceDetails, ApiError>(ApiError::NotFound),
    {
        match self.find_index(id) {
            Some(k) => {
                proof {
                    lemma_unique_index(*self, id@, k as int);
                }
                Ok(self.instances[k].to_details())
            },
            None => Err(ApiError::NotFound),
        }
    }

    /// The container and ports a deletion must clean up, or `NotFound`.
    pub fn delete_info(&self, id: &str) -> (r: Result<(String, (u16, u16, u16)), ApiError>)
        requires
            self.wf(),
        ensures
            r is Ok <==> self.contains_id(id@),
            r matches Ok(t) ==> ({
                let rec = self.instances@[self.index_of_id(id@)];
                &&& t.0@ == rec.container_id@
                &&& t.1 == (rec.rdp_port, rec.console_port, rec.xpra_port)
            }),
            r is Err ==> r == Err::<(String, (u16, u16, u16)), ApiError>(ApiError::NotFound),
    {
        match self.find_index(id) {
            Some(k) => {
                proof {
                    lemma_unique_index(*self, id@, k as int);
                }
                let rec = &self.instances[k];
                Ok(
                    (
                        rec.container_id.clone(),
                        (rec.rdp_port, rec.console_port, rec.xpra_port),
                    ),
                )
            },
            None => Err(ApiError::NotFound),
        }
    }

    /// Atomically drop one record and release its port triplet; a no-op if
    /// the identifier is not registered.
    pub fn finish_delete(&mut self, id: &str) -> (r: bool)
        requires
            old(self).wf(),
        ensures
            final(self).wf(),
            final(self).config == old(self).config,
            final(self).port_pool.same_spans(old(self).port_pool),
            r == old(self).contains_id(id@),
            !final(self).contains_id(id@),
            if old(self).contains_id(id@) {
                ({
                    let k = old(self).index_of_id(id@);
                    let rec = old(self).instances@[k];
                    &&& final(self).instances@ == old(self).instances@.remove(k)
                    &&& triplet_released(
                        old(self).port_pool,
                        final(self).port_pool,
                        (rec.rdp_port, rec.console_port, rec.xpra_port),
                    )
                })
            } else {
                final(self).instances == old(self).instances
                    && final(self).port_pool.same_allocations(old(self).port_pool)
            },
    {
        match self.find_index(id) {
            Some(k) => {
                proof {
                    lemma_unique_index(*self, id@, k as int);
                }
                let rec = self.instances.remove(k);
                self.port_pool.release_triplet(rec.rdp_port, rec.console_port, rec.xpra_port);
                proof {
                    old(self).instances@.remove_ensures(k as int);
                    assert forall|i: int, j: int|
                        0 <= i < j < self.instances@.len() implies self.instances@[i].id@
                        != self.instances@[j].id@ by {
                        let oi = if i < k { i } else { i + 1 };
                        let oj = if j < k { j } else { j + 1 };
                        assert(self.instances@[i] == old(self).instances@[oi]);
                        assert(self.instances@[j] == old(self).instances@[oj]);
                    };
                    assert forall|i: int|
                        0 <= i < self.instances@.len() implies self.instances@[i].id@ != id@ by {
                        let oi = if i < k { i } else { i + 1 };
                        assert(self.instances@[i] == old(self).instances@[oi]);
                    };
                }
                true
            },
            None => false,
        }
    }

    /// How to answer a stop request: `NotFound` for an unknown identifier,
    /// the current label if already stopped, an error while no container
    /// exists, else the container to stop.
    pub fn stop_plan(&self, id: &str) -> (r: Result<OpPlan, ApiError>)
        requires
            self.wf(),
        ensures
            plan_spec(*self, id@, r, InstanceStatus::Stopped),
    {
        self.op_plan(id, true)
    }

    /// How to answer a start request, symmetrically to `stop_plan`.
    pub fn start_plan(&self, id: &str) -> (r: Result<OpPlan, ApiError>)
        requires
            self.wf(),
        ensures
            plan_spec(*self, id@, r, InstanceStatus::Running),
    {
        self.op_plan(id, false)
    }

    /// How to answer a restart request: `NotFound` for an unknown
    /// identifier, an error while no container exists, else the container
    /// to restart (a restart is never answered locally).
    pub fn restart_plan(&self, id: &str) -> (r: Result<OpPlan, ApiError>)
        requires
            self.wf(),
        ensures
            !self.contains_id(id@) ==> r == Err::<OpPlan, ApiError>(ApiError::NotFound),
            self.contains_id(id@) ==> ({
                let rec = self.instances@[self.index_of_id(id@)];
                if rec.container_id@.len() == 0 {
                    r matches Err(e) && e is Internal && e.spec_message()
                        == "Container not yet created"@
                } else {
                    r matches Ok(p) && p matches OpPlan::Invoke(c) && c@ == rec.container_id@
                }
            }),
    {
        match self.find_index(id) {
            Some(k) => {
                proof {
                    lemma_unique_index(*self, id@, k as int);
                }
                let rec = &self.instances[k];
                if rec.container_id.as_str().is_empty() {
                    Err(ApiError::Internal(String::from_str("Container not yet created")))
                } else {
                    Ok(OpPlan::Invoke(rec.container_id.clone()))
                }
            },
            None => Err(ApiError::NotFound),
        }
    }

    /// Shared body of the stop and start plans; `settle_stopped` selects
    /// which status is already settled.
    fn op_plan(&self, id: &str, settle_stopped: bool) -> (r: Result<OpPlan, ApiError>)
        requires
            self.wf(),
        ensures
            plan_spec(
                *self,
                id@,
                r,
                if settle_stopped {
                    InstanceStatus::Stopped
                } else {
                    InstanceStatus::Running
                },
            ),
    {
        match self.find_index(id) {
            Some(k) => {
                proof {
                    lemma_unique_index(*self, id@, k as int);
                }
                let rec = &self.instances[k];
                let settled = match (&rec.status, settle_stopped) {
                    (InstanceStatus::Stopped, true) => true,
                    (InstanceStatus::Running, false) => true,
                    _ => false,
                };
                if settled {
                    Ok(OpPlan::Done(String::from_str(rec.status.as_str())))
                } else if rec.container_id.as_str().is_empty() {
                    Err(ApiError::Internal(String::from_str("Container not yet created")))
                } else {
                    Ok(OpPlan::Invoke(rec.container_id.clone()))
                }
            },
            None => Err(ApiError::NotFound),
        }
    }

    /// How to answer a logs request: `NotFound` for an unknown identifier,
    /// a fixed note while no container exists, else the container to query.
    pub fn logs_query(&self, id: &str) -> (r: Result<OpPlan, ApiError>)
        requires
            self.wf(),
        ensures
            !self.contains_id(id@) ==> r == Err::<OpPlan, ApiError>(ApiError::NotFound),
            self.contains_id(id@) ==> ({
                let rec = self.instances@[self.index_of_id(id@)];
                if rec.container_id@.len() == 0 {
                    r matches Ok(p) && p matches OpPlan::Done(m) && m@
                        == "Container not yet created"@
                } else {
                    r matches Ok(p) && p matches OpPlan::Invoke(c) && c@ == rec.container_id@
                }
            }),
    {
        match self.find_index(id) {
            Some(k) => {
                proof {
                    lemma_unique_index(*self, id@, k as int);
                }
                let rec = &self.instances[k];
                if rec.container_id.as_str().is_empty() {
                    Ok(OpPlan::Done(String::from_str("Container not yet created")))
                } else {
                    Ok(OpPlan::Invoke(rec.container_id.clone()))
                }
            },
            None => Err(ApiError::NotFound),
        }
    }
}

/// The answer a stop or start plan owes: `NotFound` for an unknown
/// identifier; the settled label where the record already has the target
/// status; an error while no container exists; else the container to act
/// on.
pub open spec fn plan_spec(
    s: AppState,
    id: Seq<char>,
    r: Result<OpPlan, ApiError>,
    settled: InstanceStatus,
) -> bool {
    if !s.contains_id(id) {
        r == Err::<OpPlan, ApiError>(ApiError::NotFound)
    } else {
        let rec = s.instances@[s.index_of_id(id)];
        if rec.status == settled {
            r matches Ok(p) && p matches OpPlan::Done(m) && m@ == rec.status.label()
        } else if rec.container_id@.len() == 0 {
            r matches Err(e) && e is Internal && e.spec_message() == "Container not yet created"@
        } else {
            r matches Ok(p) && p matches OpPlan::Invoke(c) && c@ == rec.container_id@
        }
    }
}

/// The pool after releasing a request's triplet.
pub open spec fn triplet_released(pre: PortPool, post: PortPool, ports: (u16, u16, u16)) -> bool {
    &&& post.rdp_allocated() == pre.rdp_allocated().remove(ports.0)
    &&& post.console_allocated() == pre.console_allocated().remove(ports.1)
    &&& post.xpra_allocated() == pre.xpra_allocated().remove(ports.2)
}

/// With unique identifiers, the index a search found is the index.
proof fn lemma_unique_index(s: AppState, id: Seq<char>, k: int)
    requires
        s.wf(),
        0 <= k < s.instances@.len(),
        s.instances@[k].id@ == id,
    ensures
        s.contains_id(id),
        s.index_of_id(id) == k,
{
    assert(s.contains_id(id));
    let j = s.index_of_id(id);
    if j != k {
        if j < k {
            assert(s.instances@[j].id@ != s.instances@[k].id@);
        } else {
            assert(s.instances@[k].id@ != s.instances@[j].id@);
        }
    }
}

/// Overwriting a record without changing its identifier keeps the
/// identifiers unique.
proof fn lemma_update_keeps_unique_ids(pre: AppState, post: AppState, k: int)
    requires
        pre.wf(),
        0 <= k < pre.instances@.len(),
        updated_at(pre.instances@, post.instances@, k),
        post.instances@[k].id@ == pre.instances@[k].id@,
    ensures
        forall|i: int, j: int|
            0 <= i < j < post.instances@.len() ==> post.instances@[i].id@
                != post.instances@[j].id@,
{
    assert forall|i: int, j: int|
        0 <= i < j < post.instances@.len() implies post.instances@[i].id@
        != post.instances@[j].id@ by {
        assert(post.instances@[i].id@ == pre.instances@[i].id@);
        assert(post.instances@[j].id@ == pre.instances@[j].id@);
    };
}

} // verus!
