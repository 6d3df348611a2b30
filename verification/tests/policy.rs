use rcxcore::device::DeviceRegistry;
use rcxcore::keystore::master::KillFuse;
use rcxcore::logging::encrypted::LogRoot;
use rcxcore::policy::{Capability, CapabilitySet, Operation, PolicyEnforcer};

fn empty_root() -> LogRoot {
    LogRoot::new(Some(Vec::new()), Some(Vec::new()), Some(Vec::new()))
}

const STANDARD: &[Capability] = &[
    Capability::Encrypt,
    Capability::Decrypt,
    Capability::Upload,
    Capability::Download,
    Capability::ViewStatus,
];

const ADMIN: &[Capability] = &[
    Capability::Upload,
    Capability::Download,
    Capability::Restore,
    Capability::RouteContent,
    Capability::ViewStatus,
    Capability::RegisterDevice,
    Capability::RemoveDevice,
    Capability::IssueKill,
];

const ALL_OPERATIONS: [Operation; 8] = [
    Operation::Upload,
    Operation::Download,
    Operation::Restore,
    Operation::Route,
    Operation::ViewStatus,
    Operation::RegisterDevice,
    Operation::RemoveDevice,
    Operation::IssueKill,
];

#[test]
fn a_capability_set_allows_what_it_lists() {
    let set = CapabilitySet::new(STANDARD);
    assert!(set.allows(Capability::Upload));
    assert!(set.allows(Capability::Encrypt));
    assert!(!set.allows(Capability::IssueKill));
    assert!(!set.allows(Capability::ViewLogs));
    assert!(!CapabilitySet::new(&[]).allows(Capability::Upload));
}

#[test]
fn operations_need_their_capability() {
    let fuse = KillFuse::new();
    let mut root = empty_root();
    let registry = DeviceRegistry::load_or_init(&fuse, &mut root, b"device").unwrap();
    let standard = PolicyEnforcer::new(&registry, CapabilitySet::new(STANDARD));
    assert!(standard.allow(&fuse, &root, Operation::Upload));
    assert!(standard.allow(&fuse, &root, Operation::Download));
    assert!(standard.allow(&fuse, &root, Operation::ViewStatus));
    assert!(!standard.allow(&fuse, &root, Operation::Restore));
    assert!(!standard.allow(&fuse, &root, Operation::Route));
    assert!(!standard.allow(&fuse, &root, Operation::RegisterDevice));
    assert!(!standard.allow(&fuse, &root, Operation::RemoveDevice));
    assert!(!standard.allow(&fuse, &root, Operation::IssueKill));
    let admin = PolicyEnforcer::new(&registry, CapabilitySet::new(ADMIN));
    for op in ALL_OPERATIONS {
        assert!(admin.allow(&fuse, &root, op));
    }
    let locked = PolicyEnforcer::new(&registry, CapabilitySet::new(&[]));
    for op in ALL_OPERATIONS {
        assert!(!locked.allow(&fuse, &root, op));
    }
}

#[test]
fn route_needs_route_content_and_nothing_else() {
    let fuse = KillFuse::new();
    let mut root = empty_root();
    let registry = DeviceRegistry::load_or_init(&fuse, &mut root, b"device").unwrap();
    let only = PolicyEnforcer::new(&registry, CapabilitySet::new(&[Capability::RouteContent]));
    for op in ALL_OPERATIONS {
        assert_eq!(only.allow(&fuse, &root, op), op == Operation::Route);
    }
}

#[test]
fn a_killed_device_is_denied_everything() {
    let mut fuse = KillFuse::new();
    let mut root = empty_root();
    let registry = DeviceRegistry::load_or_init(&fuse, &mut root, b"device").unwrap();
    let admin = PolicyEnforcer::new(&registry, CapabilitySet::new(ADMIN));

    let mut marked = empty_root();
    registry.mark_this_device_killed(&fuse, &mut marked).unwrap();
    let missing = LogRoot::new(Some(Vec::new()), None, Some(Vec::new()));
    for op in ALL_OPERATIONS {
        assert!(!admin.allow(&fuse, &marked, op));
        assert!(!admin.allow(&fuse, &missing, op));
    }
    fuse.blow();
    for op in ALL_OPERATIONS {
        assert!(!admin.allow(&fuse, &root, op));
    }
}
