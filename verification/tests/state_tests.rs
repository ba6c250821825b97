use base64::Engine;
use openzt_instance_manager::config::ApiConfig;
use openzt_instance_manager::config::Config;
use openzt_instance_manager::config::DockerConfig;
use openzt_instance_manager::config::InstancesConfig;
use openzt_instance_manager::config::PortsConfig;
use openzt_instance_manager::errors::ApiError;
use openzt_instance_manager::instance::InstanceConfig;
use openzt_instance_manager::instance::InstanceStatus;
use openzt_instance_manager::runtime::ContainerSnapshot;
use openzt_instance_manager::runtime::InspectData;
use openzt_instance_manager::runtime::InspectError;
use openzt_instance_manager::runtime::StateData;
use openzt_instance_manager::runtime::inspect_to_info;
use openzt_instance_manager::runtime::managed_instance_id;
use openzt_instance_manager::runtime::image_present;
use openzt_instance_manager::state::AppState;
use openzt_instance_manager::state::OpPlan;
use openzt_instance_manager::state::ProvisionOutcome;
use openzt_instance_manager::state::RefreshOutcome;
use openzt_instance_manager::state::decode_and_validate_payload;

fn small_config(max_instances: usize) -> Config {
    Config {
        ports: PortsConfig {
            rdp_start: 13390,
            rdp_end: 13392,
            console_start: 18081,
            console_end: 18083,
            xpra_start: 14500,
            xpra_end: 14502,
        },
        docker: DockerConfig {
            image: "finn/winezt:latest".to_string(),
            container_prefix: "openzt-".to_string(),
        },
        instances: InstancesConfig {
            max_instances,
            auto_cleanup_hours: 24,
            default_cpu_millis: 500,
        },
        api: ApiConfig { enable_auth: false },
    }
}

fn valid_payload() -> String {
    base64::prelude::BASE64_STANDARD.encode(b"MZ\x90\x00\x03")
}

fn default_inspect(host_rdp: &str, host_console: &str, host_xpra: &str) -> InspectData {
    InspectData {
        state: Some(StateData {
            running: Some(true),
            status: Some("running".to_string()),
        }),
        created: Some("2024-01-02T03:04:05Z".to_string()),
        live_rdp: Some(host_rdp.to_string()),
        live_console: Some(host_console.to_string()),
        live_xpra: Some(host_xpra.to_string()),
        static_rdp: None,
        static_console: None,
        static_xpra: None,
        cpu_millis_label: None,
    }
}

#[test]
fn test_payload_validation() {
    // A well-formed payload decodes to its bytes.
    let ok = decode_and_validate_payload(&valid_payload()).unwrap();
    assert_eq!(&ok[..2], b"MZ");

    // Not base64 at all.
    match decode_and_validate_payload("!!!not-base64!!!") {
        Err(ApiError::InvalidDll(m)) => assert_eq!(m, "Failed to decode base64 DLL"),
        _ => panic!("expected a decode failure"),
    }

    // Decodes, but too short.
    let short = base64::prelude::BASE64_STANDARD.encode(b"M");
    match decode_and_validate_payload(&short) {
        Err(ApiError::InvalidDll(m)) => assert_eq!(m, "DLL data is too short"),
        _ => panic!("expected a length failure"),
    }

    // Decodes, but lacks the magic header.
    let bad = base64::prelude::BASE64_STANDARD.encode(b"XX123");
    match decode_and_validate_payload(&bad) {
        Err(ApiError::InvalidDll(m)) => assert_eq!(m, "Invalid DLL format: missing MZ header"),
        _ => panic!("expected a header failure"),
    }
}

#[test]
fn test_create_flow_success() {
    let mut state = AppState::new(small_config(10));
    let (id, ports, bytes) = state.create_accept(&valid_payload()).unwrap();
    assert_eq!(id.len(), 36);
    assert_eq!(ports, (13390, 18081, 14500));
    assert_eq!(&bytes[..2], b"MZ");

    let resp = state
        .commit_create(id.clone(), ports, 1_700_000_000, InstanceConfig::default())
        .unwrap();
    assert_eq!(resp.instance_id, id);
    assert_eq!(resp.rdp_port, 13390);
    assert_eq!(resp.console_port, 18081);
    assert_eq!(resp.xpra_port, 14500);
    assert_eq!(resp.rdp_url, "rdp://localhost:13390");
    assert_eq!(resp.xpra_url, "http://localhost:14500");
    assert_eq!(resp.status, "creating");

    // The record is pending, with no container yet.
    let details = state.get_details(&id).unwrap();
    assert_eq!(details.status, "creating");
    assert_eq!(details.container_id, "");
}

#[test]
fn test_create_rejects_invalid_payload_without_leak() {
    let mut state = AppState::new(small_config(10));
    let before = state.port_pool.rdp_available();
    match state.create_accept("###") {
        Err(ApiError::InvalidDll(_)) => {}
        _ => panic!("expected an invalid payload error"),
    }
    assert_eq!(state.port_pool.rdp_available(), before);
    assert_eq!(state.instances.len(), 0);
}

#[test]
fn test_create_at_capacity_leaves_pool_unchanged() {
    // Capacity is zero: the request is accepted for validation, but the
    // commit refuses it and every allocated port returns to the pool.
    let mut state = AppState::new(small_config(0));
    let rdp_before = state.port_pool.rdp_available();
    let console_before = state.port_pool.console_available();
    let xpra_before = state.port_pool.xpra_available();

    let (id, ports, _bytes) = state.create_accept(&valid_payload()).unwrap();
    let err = state
        .commit_create(id, ports, 1_700_000_000, InstanceConfig::default())
        .unwrap_err();
    assert!(matches!(err, ApiError::MaxInstancesReached));

    assert_eq!(state.port_pool.rdp_available(), rdp_before);
    assert_eq!(state.port_pool.console_available(), console_before);
    assert_eq!(state.port_pool.xpra_available(), xpra_before);
    assert_eq!(state.instances.len(), 0);
}

#[test]
fn test_ports_exhausted() {
    let mut state = AppState::new(small_config(10));
    for _ in 0..2 {
        let (id, ports, _) = state.create_accept(&valid_payload()).unwrap();
        state
            .commit_create(id, ports, 0, InstanceConfig::default())
            .unwrap();
    }
    match state.create_accept(&valid_payload()) {
        Err(ApiError::PortsExhausted) => {}
        _ => panic!("expected port exhaustion"),
    }
    // With the pool exhausted the port error takes priority, even over an
    // invalid payload.
    match state.create_accept("###") {
        Err(ApiError::PortsExhausted) => {}
        _ => panic!("expected port exhaustion to come first"),
    }
}

#[test]
fn test_provision_failure_reaches_error_and_frees_ports() {
    let mut state = AppState::new(small_config(10));
    let (id, ports, _) = state.create_accept(&valid_payload()).unwrap();
    state
        .commit_create(id.clone(), ports, 0, InstanceConfig::default())
        .unwrap();
    assert_eq!(state.port_pool.rdp_available(), 1);

    state.apply_provision_outcome(
        &id,
        ports,
        ProvisionOutcome::Failed("Failed to start container".to_string()),
    );

    let details = state.get_details(&id).unwrap();
    assert_eq!(details.status, "Failed to start container");
    assert_eq!(details.container_id, "");

    // Its ports are available again.
    assert_eq!(state.port_pool.rdp_available(), 2);
    assert_eq!(state.port_pool.console_available(), 2);
    assert_eq!(state.port_pool.xpra_available(), 2);
}

#[test]
fn test_provision_success_commits_container() {
    let mut state = AppState::new(small_config(10));
    let (id, ports, _) = state.create_accept(&valid_payload()).unwrap();
    state
        .commit_create(id.clone(), ports, 0, InstanceConfig::default())
        .unwrap();
    state.apply_provision_outcome(&id, ports, ProvisionOutcome::Started("cafebabe12".to_string()));

    let details = state.get_details(&id).unwrap();
    assert_eq!(details.status, "running");
    assert_eq!(details.container_id, "cafebabe12");
    // A success keeps the ports allocated.
    assert_eq!(state.port_pool.rdp_available(), 1);
}

#[test]
fn test_stop_start_plans() {
    let mut state = AppState::new(small_config(10));
    let (id, ports, _) = state.create_accept(&valid_payload()).unwrap();
    state
        .commit_create(id.clone(), ports, 0, InstanceConfig::default())
        .unwrap();

    // No container yet: stop cannot be served.
    match state.stop_plan(&id) {
        Err(ApiError::Internal(m)) => assert_eq!(m, "Container not yet created"),
        _ => panic!("expected an internal error"),
    }

    state.apply_provision_outcome(&id, ports, ProvisionOutcome::Started("c0".to_string()));

    // Running: stop must invoke the runtime on the container.
    match state.stop_plan(&id).unwrap() {
        OpPlan::Invoke(cid) => assert_eq!(cid, "c0"),
        _ => panic!("expected a runtime call"),
    }
    // Running: start is already settled.
    match state.start_plan(&id).unwrap() {
        OpPlan::Done(label) => assert_eq!(label, "running"),
        _ => panic!("expected a settled answer"),
    }

    assert!(state.set_status_by_id(&id, InstanceStatus::Stopped));

    // Stopped: stop is already settled, start invokes.
    match state.stop_plan(&id).unwrap() {
        OpPlan::Done(label) => assert_eq!(label, "stopped"),
        _ => panic!("expected a settled answer"),
    }
    match state.start_plan(&id).unwrap() {
        OpPlan::Invoke(cid) => assert_eq!(cid, "c0"),
        _ => panic!("expected a runtime call"),
    }
    match state.restart_plan(&id).unwrap() {
        OpPlan::Invoke(cid) => assert_eq!(cid, "c0"),
        _ => panic!("expected a runtime call"),
    }

    // Unknown identifiers are not found.
    assert!(matches!(state.stop_plan("missing"), Err(ApiError::NotFound)));
}

#[test]
fn test_refresh_outcomes() {
    let mut state = AppState::new(small_config(10));
    let (id, ports, _) = state.create_accept(&valid_payload()).unwrap();
    state
        .commit_create(id.clone(), ports, 0, InstanceConfig::default())
        .unwrap();
    state.apply_provision_outcome(&id, ports, ProvisionOutcome::Started("c1".to_string()));

    // An observed status overwrites the cache.
    state.apply_refresh(&id, RefreshOutcome::Observed(InstanceStatus::Stopped));
    assert_eq!(state.get_details(&id).unwrap().status, "stopped");

    // An unreachable runtime keeps the cached status.
    state.apply_refresh(&id, RefreshOutcome::Unreachable);
    assert_eq!(state.get_details(&id).unwrap().status, "stopped");

    // A missing container marks the record, but keeps it.
    state.apply_refresh(&id, RefreshOutcome::Missing);
    assert_eq!(
        state.get_details(&id).unwrap().status,
        "Container deleted externally"
    );
    assert_eq!(state.instances.len(), 1);
}

#[test]
fn test_delete_releases_ports() {
    let mut state = AppState::new(small_config(10));
    let (id, ports, _) = state.create_accept(&valid_payload()).unwrap();
    state
        .commit_create(id.clone(), ports, 0, InstanceConfig::default())
        .unwrap();
    state.apply_provision_outcome(&id, ports, ProvisionOutcome::Started("c2".to_string()));

    let (cid, got_ports) = state.delete_info(&id).unwrap();
    assert_eq!(cid, "c2");
    assert_eq!(got_ports, ports);

    assert!(state.finish_delete(&id));
    assert_eq!(state.instances.len(), 0);
    assert_eq!(state.port_pool.rdp_available(), 2);
    assert!(matches!(state.delete_info(&id), Err(ApiError::NotFound)));
    assert!(!state.finish_delete(&id));
}

#[test]
fn test_effective_config_fills_cpu_default() {
    let mut state = AppState::new(small_config(10));
    let (id, ports, _) = state.create_accept(&valid_payload()).unwrap();
    state
        .commit_create(id.clone(), ports, 0, InstanceConfig::default())
        .unwrap();

    let effective = state.effective_config(&id);
    assert_eq!(effective.cpu_millis, Some(500));

    // An explicit limit wins over the default.
    let (id2, ports2, _) = state.create_accept(&valid_payload()).unwrap();
    let own = InstanceConfig {
        rdp_password: Some("pw-example".to_string()),
        wine_debug_level: None,
        cpu_millis: Some(2000),
    };
    state.commit_create(id2.clone(), ports2, 0, own).unwrap();
    let effective2 = state.effective_config(&id2);
    assert_eq!(effective2.cpu_millis, Some(2000));
    assert_eq!(effective2.rdp_password.as_deref(), Some("pw-example"));
}

#[test]
fn test_recovery_rebuilds_running_instance() {
    let mut state = AppState::new(small_config(10));
    let snapshot = ContainerSnapshot {
        instance_id: "ba4fc512-3d48-4f9e-9a1b-123456789abc".to_string(),
        container_id: "deadbeef42".to_string(),
        inspect: Some(default_inspect("13390", "18081", "14500")),
    };
    assert_eq!(state.recover_instances(vec![snapshot]), 1);

    let details = state
        .get_details("ba4fc512-3d48-4f9e-9a1b-123456789abc")
        .unwrap();
    assert_eq!(details.status, "running");
    assert_eq!(details.rdp_port, 13390);
    assert_eq!(details.console_port, 18081);
    assert_eq!(details.xpra_port, 14500);
    assert_eq!(details.container_id, "deadbeef42");

    // The recovered ports are registered as allocated: the next
    // allocation skips them.
    assert_eq!(state.port_pool.rdp_available(), 1);
    let mut pool = state.port_pool.clone();
    assert_eq!(pool.allocate_triplet().unwrap(), (13391, 18082, 14501));
}

#[test]
fn test_recovery_skips_bad_candidates() {
    let mut state = AppState::new(small_config(10));
    let snapshots = vec![
        // Not a valid identifier.
        ContainerSnapshot {
            instance_id: "not-a-uuid".to_string(),
            container_id: "c0".to_string(),
            inspect: Some(default_inspect("13390", "18081", "14500")),
        },
        // The inspection call failed.
        ContainerSnapshot {
            instance_id: "ba4fc512-3d48-4f9e-9a1b-123456789abc".to_string(),
            container_id: "c1".to_string(),
            inspect: None,
        },
        // A port outside the configured spans.
        ContainerSnapshot {
            instance_id: "c9bb925d-a9b2-4f9e-9a1b-123456789abc".to_string(),
            container_id: "c2".to_string(),
            inspect: Some(default_inspect("5", "18081", "14500")),
        },
        // A sound one: recovered.
        ContainerSnapshot {
            instance_id: "d11bc512-a9b2-4f9e-9a1b-123456789abc".to_string(),
            container_id: "c3".to_string(),
            inspect: Some(default_inspect("13391", "18082", "14501")),
        },
    ];
    assert_eq!(state.recover_instances(snapshots), 1);
    assert_eq!(state.instances.len(), 1);
    assert_eq!(state.instances[0].container_id, "c3");
    // The skipped out-of-span snapshot registered nothing.
    assert_eq!(state.port_pool.rdp_available(), 1);
}

#[test]
fn test_inspect_reading() {
    // Live bindings win; the timestamp parses to epoch seconds; the CPU
    // label is carried over.
    let mut data = default_inspect("13390", "18081", "14500");
    data.cpu_millis_label = Some(750);
    let info = inspect_to_info("feed42", &data).unwrap();
    assert_eq!(info.container_id, "feed42");
    assert_eq!(
        (info.rdp_port, info.console_port, info.xpra_port),
        (13390, 18081, 14500)
    );
    assert!(matches!(info.status, InstanceStatus::Running));
    assert_eq!(info.created_at, 1_704_164_645);
    assert_eq!(info.config.cpu_millis, Some(750));

    // Static bindings serve as the fallback for stopped containers.
    let stopped = InspectData {
        state: Some(StateData {
            running: Some(false),
            status: Some("exited".to_string()),
        }),
        created: Some("2024-01-02T03:04:05Z".to_string()),
        live_rdp: None,
        live_console: None,
        live_xpra: None,
        static_rdp: Some("13391".to_string()),
        static_console: Some("18082".to_string()),
        static_xpra: Some("14501".to_string()),
        cpu_millis_label: None,
    };
    let info2 = inspect_to_info("feed43", &stopped).unwrap();
    assert_eq!(info2.rdp_port, 13391);
    assert!(matches!(info2.status, InstanceStatus::Stopped));

    // Failure cases, in reading order.
    let mut no_ports = default_inspect("13390", "18081", "14500");
    no_ports.live_rdp = None;
    assert_eq!(
        inspect_to_info("x", &no_ports).unwrap_err(),
        InspectError::MissingPorts
    );
    let mut no_state = default_inspect("13390", "18081", "14500");
    no_state.state = None;
    assert_eq!(
        inspect_to_info("x", &no_state).unwrap_err(),
        InspectError::MissingState
    );
    let mut no_created = default_inspect("13390", "18081", "14500");
    no_created.created = None;
    assert_eq!(
        inspect_to_info("x", &no_created).unwrap_err(),
        InspectError::MissingCreated
    );
    let mut bad_created = default_inspect("13390", "18081", "14500");
    bad_created.created = Some("yesterday".to_string());
    assert_eq!(
        inspect_to_info("x", &bad_created).unwrap_err(),
        InspectError::BadCreated
    );

    // An unrecognised state is surfaced as an error status.
    let mut odd = default_inspect("13390", "18081", "14500");
    odd.state = Some(StateData {
        running: Some(false),
        status: Some("restarting".to_string()),
    });
    match inspect_to_info("x", &odd).unwrap().status {
        InstanceStatus::Error(m) => assert_eq!(m, "Container state: restarting"),
        _ => panic!("expected an error status"),
    }
}

#[test]
fn test_managed_name_parsing() {
    assert_eq!(
        managed_instance_id("openzt-", "/openzt-ba4fc512-3d48-4f9e-9a1b-123456789abc").as_deref(),
        Some("ba4fc512-3d48-4f9e-9a1b-123456789abc")
    );
    assert_eq!(managed_instance_id("openzt-", "/something-else"), None);
    assert_eq!(managed_instance_id("openzt-", "openzt-x"), None);
}

#[test]
fn test_image_presence() {
    let tags = vec!["debian:stable".to_string(), "finn/winezt:latest".to_string()];
    assert!(image_present(&tags, "finn/winezt:latest"));
    assert!(!image_present(&tags, "finn/winezt:v2"));
}

#[test]
fn test_logs_query() {
    let mut state = AppState::new(small_config(10));
    let (id, ports, _) = state.create_accept(&valid_payload()).unwrap();
    state
        .commit_create(id.clone(), ports, 0, InstanceConfig::default())
        .unwrap();
    match state.logs_query(&id).unwrap() {
        OpPlan::Done(note) => assert_eq!(note, "Container not yet created"),
        _ => panic!("expected the local note"),
    }
    state.apply_provision_outcome(&id, ports, ProvisionOutcome::Started("c9".to_string()));
    match state.logs_query(&id).unwrap() {
        OpPlan::Invoke(cid) => assert_eq!(cid, "c9"),
        _ => panic!("expected a runtime call"),
    }
    assert!(matches!(state.logs_query("nope"), Err(ApiError::NotFound)));
}

#[test]
fn test_cpu_quota_unit() {
    assert_eq!(openzt_instance_manager::runtime::nano_cpus_for(500), 500_000_000);
    assert_eq!(
        openzt_instance_manager::runtime::nano_cpus_for(2000),
        2_000_000_000
    );
    assert_eq!(openzt_instance_manager::runtime::nano_cpus_for(0), 0);
}

#[test]
fn test_error_mapping() {
    assert_eq!(ApiError::NotFound.status_code(), 404);
    assert_eq!(ApiError::PortsExhausted.status_code(), 503);
    assert_eq!(ApiError::MaxInstancesReached.status_code(), 503);
    assert_eq!(ApiError::InvalidDll("x".to_string()).status_code(), 400);
    assert_eq!(ApiError::Internal("y".to_string()).status_code(), 500);

    assert_eq!(ApiError::NotFound.message(), "Instance not found");
    assert_eq!(ApiError::PortsExhausted.message(), "No ports available");
    assert_eq!(
        ApiError::MaxInstancesReached.message(),
        "Maximum instances reached"
    );
    assert_eq!(ApiError::InvalidDll("bad".to_string()).message(), "bad");
    assert_eq!(ApiError::Internal("oops".to_string()).message(), "oops");
}

#[test]
fn test_snapshot_and_listing() {
    let mut state = AppState::new(small_config(10));
    let (id, ports, _) = state.create_accept(&valid_payload()).unwrap();
    state
        .commit_create(id.clone(), ports, 7, InstanceConfig::default())
        .unwrap();
    state.apply_provision_outcome(&id, ports, ProvisionOutcome::Started("c7".to_string()));

    let snap = state.snapshot_ids();
    assert_eq!(snap.len(), 1);
    assert_eq!(snap[0].0, id);
    assert_eq!(snap[0].1, "c7");

    let all = state.list_details();
    assert_eq!(all.len(), 1);
    assert_eq!(all[0].id, id);
    assert_eq!(all[0].created_at, 7);
    assert_eq!(all[0].rdp_url, "rdp://localhost:13390");
    assert_eq!(all[0].xpra_url, "http://localhost:14500");
}
