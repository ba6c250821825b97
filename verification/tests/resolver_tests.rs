use openzt_instance_manager::id_resolver::calculate_safe_id_length;
use openzt_instance_manager::id_resolver::resolve_instance_id;
use openzt_instance_manager::id_resolver::suggest_min_length;
use openzt_instance_manager::id_resolver::ResolutionError;
use openzt_instance_manager::instance::InstanceConfig;
use openzt_instance_manager::instance::InstanceDetails;

fn create_test_instance(id: &str) -> InstanceDetails {
    InstanceDetails {
        id: id.to_string(),
        container_id: "container-123".to_string(),
        rdp_port: 13390,
        console_port: 13391,
        xpra_port: 14500,
        rdp_url: "rdp://localhost:13390".to_string(),
        xpra_url: "http://localhost:14500".to_string(),
        status: "running".to_string(),
        created_at: 0,
        config: InstanceConfig {
            rdp_password: None,
            wine_debug_level: None,
            cpu_millis: None,
        },
    }
}

#[test]
fn test_calculate_safe_id_length_empty() {
    let instances: Vec<InstanceDetails> = vec![];
    assert_eq!(calculate_safe_id_length(&instances), 8);
}

#[test]
fn test_calculate_safe_id_length_no_conflicts() {
    let instances = vec![
        create_test_instance("ba4fc512-3d48-4f9e-9a1b-123456789abc"),
        create_test_instance("c9bb925d-a9b2-4f9e-9a1b-123456789abc"),
    ];
    assert_eq!(calculate_safe_id_length(&instances), 8);
}

#[test]
fn test_calculate_safe_id_length_with_conflicts() {
    let instances = vec![
        create_test_instance("ba4fc512-3d48-4f9e-9a1b-123456789abc"),
        create_test_instance("ba4fc512-a9b2-4f9e-9a1b-123456789abc"),
        create_test_instance("c9bb925d-a9b2-4f9e-9a1b-123456789abc"),
    ];
    // First two share "ba4fc512", need 12 chars to differentiate
    assert_eq!(calculate_safe_id_length(&instances), 12);
}

#[test]
fn test_suggest_min_length_single() {
    let instances = vec![create_test_instance("ba4fc512-3d48-4f9e-9a1b-123456789abc")];
    assert_eq!(suggest_min_length(&instances), 1);
}

#[test]
fn test_suggest_min_length_conflicting() {
    let instances = vec![
        create_test_instance("ba4fc512-3d48-4f9e-9a1b-123456789abc"),
        create_test_instance("ba4fc512-a9b2-4f9e-9a1b-123456789abc"),
    ];
    // Need at least 10 characters to differentiate
    assert_eq!(suggest_min_length(&instances), 10);
}

#[test]
fn test_resolution_error_messages() {
    let err = ResolutionError::NotFound("abc123".to_string());
    assert!(err.message().contains("No instance found"));
    assert!(err.message().contains("abc123"));
}

#[test]
fn test_single_char_id_works() {
    // Single character 'a' should uniquely identify the 'a1b2...' instance
    let instances = vec![
        create_test_instance("a1b2c3d4-5e6f-7a8b-9c0d-123456789abc"),
        create_test_instance("b2c3d4e5-6f7a-8b9c-0d1e-234567890bcd"),
    ];

    let prefixes: Vec<&str> = instances
        .iter()
        .filter(|i| i.id.starts_with("a"))
        .map(|i| &i.id[..1])
        .collect();

    assert_eq!(prefixes.len(), 1);
    assert_eq!(prefixes[0], "a");
}

#[test]
fn test_two_char_id_works() {
    // Two character 'a1' should uniquely identify the 'a1b2...' instance
    let instances = vec![
        create_test_instance("a1b2c3d4-5e6f-7a8b-9c0d-123456789abc"),
        create_test_instance("a2b3c4d5-6f7a-8b9c-0d1e-234567890bcd"),
        create_test_instance("b2c3d4e5-6f7a-8b9c-0d1e-234567890bcd"),
    ];

    let matching: Vec<&InstanceDetails> = instances
        .iter()
        .filter(|i| i.id.starts_with("a1"))
        .collect();

    assert_eq!(matching.len(), 1);
    assert!(matching[0].id.starts_with("a1b2"));
}

#[test]
fn test_ambiguous_short_id() {
    // Single character 'a' should match multiple instances starting with 'a'
    let instances = vec![
        create_test_instance("a1b2c3d4-5e6f-7a8b-9c0d-123456789abc"),
        create_test_instance("a2b3c4d5-6f7a-8b9c-0d1e-234567890bcd"),
    ];

    let matching: Vec<&InstanceDetails> = instances
        .iter()
        .filter(|i| i.id.starts_with("a"))
        .collect();

    assert_eq!(matching.len(), 2);
}

#[test]
fn test_resolution_prefix_outcomes() {
    let instances = vec![
        create_test_instance("ab1fc512-3d48-4f9e-9a1b-123456789abc"),
        create_test_instance("ab2fc512-a9b2-4f9e-9a1b-123456789abc"),
        create_test_instance("cc4fc512-a9b2-4f9e-9a1b-123456789abc"),
    ];

    // An ambiguous prefix yields both matches, in order.
    match resolve_instance_id("ab", &instances) {
        Err(ResolutionError::Ambiguous { prefix, matches }) => {
            assert_eq!(prefix, "ab");
            assert_eq!(matches.len(), 2);
            assert_eq!(matches[0].id, instances[0].id);
            assert_eq!(matches[1].id, instances[1].id);
        }
        _ => panic!("expected an ambiguous match"),
    }

    // A unique prefix resolves.
    assert_eq!(
        resolve_instance_id("cc", &instances).unwrap(),
        "cc4fc512-a9b2-4f9e-9a1b-123456789abc"
    );

    // A full 36-character identifier passes through, even against an
    // empty list.
    let none: Vec<InstanceDetails> = vec![];
    assert_eq!(
        resolve_instance_id("ab1fc512-3d48-4f9e-9a1b-123456789abc", &none).unwrap(),
        "ab1fc512-3d48-4f9e-9a1b-123456789abc"
    );

    // No match at all.
    match resolve_instance_id("zz", &instances) {
        Err(ResolutionError::NotFound(prefix)) => assert_eq!(prefix, "zz"),
        _ => panic!("expected not-found"),
    }
}

#[test]
fn test_safe_length_grows_past_shared_prefix() {
    // All instances share an 8-character prefix: the display length must
    // grow to at least 12 and actually tell them apart.
    let instances = vec![
        create_test_instance("ba4fc512-3d48-4f9e-9a1b-123456789abc"),
        create_test_instance("ba4fc512-a9b2-4f9e-9a1b-123456789abc"),
    ];
    let len = calculate_safe_id_length(&instances);
    assert!(len >= 12);
    let prefixes: Vec<&str> = instances.iter().map(|i| &i.id[..len]).collect();
    assert_ne!(prefixes[0], prefixes[1]);
}

#[test]
fn test_ambiguous_message_counts_matches() {
    let err = ResolutionError::Ambiguous {
        prefix: "ab".to_string(),
        matches: vec![
            create_test_instance("ab1fc512-3d48-4f9e-9a1b-123456789abc"),
            create_test_instance("ab2fc512-a9b2-4f9e-9a1b-123456789abc"),
        ],
    };
    assert_eq!(err.message(), "Ambiguous ID prefix 'ab' matches 2 instances");
}
