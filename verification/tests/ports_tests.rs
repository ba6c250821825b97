use openzt_instance_manager::ports::PortPool;

#[test]
fn test_allocate_pair() {
    let mut pool = PortPool::new(3390..3395, 8081..8086, 14500..14505);
    let (rdp, console) = pool.allocate_pair().unwrap();
    assert_eq!(rdp, 3390);
    assert_eq!(console, 8081);
}

#[test]
fn test_exhaustion() {
    let mut pool = PortPool::new(3390..3392, 8081..8083, 14500..14502);
    pool.allocate_triplet().unwrap();
    pool.allocate_triplet().unwrap();
    assert!(pool.allocate_triplet().is_none());
}

#[test]
fn test_release() {
    let mut pool = PortPool::new(3390..3392, 8081..8083, 14500..14502);
    let (rdp, console, xpra) = pool.allocate_triplet().unwrap();
    pool.release_triplet(rdp, console, xpra);
    assert_eq!(pool.allocate_triplet().unwrap(), (rdp, console, xpra));
}

#[test]
fn test_allocate_triplet() {
    let mut pool = PortPool::new(3390..3395, 8081..8086, 14500..14505);
    let (rdp, console, xpra) = pool.allocate_triplet().unwrap();
    assert_eq!(rdp, 3390);
    assert_eq!(console, 8081);
    assert_eq!(xpra, 14500);
}

#[test]
fn test_pair_failure_keeps_nothing() {
    // Console span is empty, so a pair allocation must fail and leave the
    // remote-desktop span untouched.
    let mut pool = PortPool::new(3390..3392, 8081..8081, 14500..14502);
    assert_eq!(pool.rdp_available(), 2);
    assert!(pool.allocate_pair().is_none());
    assert_eq!(pool.rdp_available(), 2);
    assert_eq!(pool.console_available(), 0);
}

#[test]
fn test_triplet_failure_keeps_nothing() {
    // Display span is empty, so a triplet allocation must fail and leave
    // both other spans untouched.
    let mut pool = PortPool::new(3390..3392, 8081..8083, 14500..14500);
    assert!(pool.allocate_triplet().is_none());
    assert_eq!(pool.rdp_available(), 2);
    assert_eq!(pool.console_available(), 2);
}

#[test]
fn test_release_is_idempotent() {
    let mut pool = PortPool::new(3390..3392, 8081..8083, 14500..14502);
    let (rdp, console, xpra) = pool.allocate_triplet().unwrap();
    pool.release_triplet(rdp, console, xpra);
    pool.release_triplet(rdp, console, xpra);
    assert_eq!(pool.rdp_available(), 2);
    assert_eq!(pool.console_available(), 2);
    assert_eq!(pool.xpra_available(), 2);
}

#[test]
fn test_add_existing_rejects_out_of_range() {
    let mut pool = PortPool::new(3390..3392, 8081..8083, 14500..14502);
    let err = pool.add_existing_rdp(5000).unwrap_err();
    assert_eq!(err.port, 5000);
    assert_eq!(err.lo, 3390);
    assert_eq!(err.hi, 3392);
    // Nothing was registered.
    assert_eq!(pool.rdp_available(), 2);
}

#[test]
fn test_add_existing_triplet_all_or_nothing() {
    let mut pool = PortPool::new(3390..3392, 8081..8083, 14500..14502);
    // The display port is out of range: nothing may be registered.
    assert!(pool.add_existing_triplet(3390, 8081, 9999).is_err());
    assert_eq!(pool.rdp_available(), 2);
    assert_eq!(pool.console_available(), 2);
    assert_eq!(pool.xpra_available(), 2);
    // A fully in-range triplet registers all three.
    assert!(pool.add_existing_triplet(3390, 8081, 14500).is_ok());
    assert_eq!(pool.rdp_available(), 1);
    assert_eq!(pool.console_available(), 1);
    assert_eq!(pool.xpra_available(), 1);
}

#[test]
fn test_allocation_skips_registered_ports() {
    let mut pool = PortPool::new(3390..3392, 8081..8083, 14500..14502);
    pool.add_existing_triplet(3390, 8081, 14500).unwrap();
    // The lowest free ports come next: nothing is handed out twice.
    assert_eq!(pool.allocate_triplet().unwrap(), (3391, 8082, 14501));
    assert!(pool.allocate_triplet().is_none());
}
