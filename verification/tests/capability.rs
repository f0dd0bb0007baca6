use mnu::capability::{
    capability_implies, kernel_authority_implies, parse_kernel_authority_spec, Capability,
    CapabilityParseError, CapabilitySet, DynamicCapabilityRegistry, KernelAuthority,
    KernelAuthoritySet, KernelCapability, KernelObjectRef,
};

#[test]
fn kernel_capability_names_round_trip() {
    for cap in [
        KernelCapability::ProcessKill,
        KernelCapability::IpcEndpointSend,
        KernelCapability::PhysMap,
        KernelCapability::KernelDebug,
    ] {
        assert_eq!(KernelCapability::from_str(cap.as_str()), Some(cap));
    }
    assert_eq!(KernelCapability::PhysMap.as_str(), "memory.phys.map");
    assert_eq!(KernelCapability::from_str("memory.phys.unknown"), None);
}

#[test]
fn parses_phys_map_authority() {
    let parsed = parse_kernel_authority_spec("memory.phys.map@0x1000:0x2000");
    assert_eq!(
        parsed,
        Some(KernelAuthority::new(
            KernelCapability::PhysMap,
            KernelObjectRef::MmioRegion { base: 0x1000, size: 0x2000 }
        ))
    );
    let decimal = parse_kernel_authority_spec("memory.phys.map@ 4096 : 8192 ");
    assert_eq!(
        decimal,
        Some(KernelAuthority::new(
            KernelCapability::PhysMap,
            KernelObjectRef::MmioRegion { base: 4096, size: 8192 }
        ))
    );
}

#[test]
fn rejects_malformed_authorities() {
    assert_eq!(parse_kernel_authority_spec("memory.phys.map@0x1000:0"), None);
    assert_eq!(parse_kernel_authority_spec("memory.phys.map@0x1000"), None);
    assert_eq!(parse_kernel_authority_spec("vm.map@0x1000:0x10"), None);
    assert_eq!(parse_kernel_authority_spec("memory.phys.map@zz:0x10"), None);
}

#[test]
fn mmio_authority_implies_contained_regions_only() {
    let parent = KernelAuthority::new(
        KernelCapability::PhysMap,
        KernelObjectRef::MmioRegion { base: 0x1000, size: 0x1000 },
    );
    let inside = KernelAuthority::new(
        KernelCapability::PhysMap,
        KernelObjectRef::MmioRegion { base: 0x1800, size: 0x800 },
    );
    let outside = KernelAuthority::new(
        KernelCapability::PhysMap,
        KernelObjectRef::MmioRegion { base: 0x1800, size: 0x801 },
    );
    let other_cap = KernelAuthority::new(
        KernelCapability::MmioMap,
        KernelObjectRef::MmioRegion { base: 0x1800, size: 0x10 },
    );
    let overflowing = KernelAuthority::new(
        KernelCapability::PhysMap,
        KernelObjectRef::MmioRegion { base: u64::MAX, size: 2 },
    );
    assert!(kernel_authority_implies(&parent, &inside));
    assert!(!kernel_authority_implies(&parent, &outside));
    assert!(!kernel_authority_implies(&parent, &other_cap));
    assert!(!kernel_authority_implies(&overflowing, &overflowing));
    let process = KernelAuthority::new(KernelCapability::ProcessKill, KernelObjectRef::Process(7));
    assert!(kernel_authority_implies(&process, &process));
}

#[test]
fn builtin_and_dynamic_names_intern() {
    let mut registry = DynamicCapabilityRegistry::new();
    assert_eq!(
        Capability::intern("fs.read.user.documents", &mut registry),
        Some(Capability::FsReadUserDocuments)
    );
    let first = Capability::intern("vendor.camera", &mut registry);
    assert_eq!(first, Some(Capability::Dynamic(0)));
    assert_eq!(Capability::intern("vendor.camera", &mut registry), first);
    assert_eq!(Capability::intern("vendor.mic", &mut registry), Some(Capability::Dynamic(1)));
    assert_eq!(Capability::from_str("vendor.mic", &registry), Some(Capability::Dynamic(1)));
    assert_eq!(Capability::from_str("vendor.unknown", &registry), None);
    assert_eq!(Capability::from_str("settings.read", &registry), Some(Capability::SettingsRead));
}

#[test]
fn rejects_invalid_capability_names() {
    let mut registry = DynamicCapabilityRegistry::new();
    assert_eq!(Capability::intern("", &mut registry), None);
    assert_eq!(Capability::intern("Upper.case", &mut registry), None);
    assert_eq!(Capability::intern("a..b", &mut registry), None);
    assert_eq!(Capability::intern(".leading", &mut registry), None);
    assert_eq!(Capability::intern("trailing-", &mut registry), None);
    assert_eq!(Capability::intern("a-b_c.d9", &mut registry), Some(Capability::Dynamic(0)));
}

#[test]
fn delegable_capabilities() {
    assert!(Capability::FsReadUserDocuments.is_delegable());
    assert!(Capability::Dynamic(3).is_delegable());
    assert!(Capability::SettingsRead.is_delegable());
    assert!(!Capability::SettingsWrite.is_delegable());
    assert!(!Capability::Unsandboxed.is_delegable());
}

#[test]
fn bootstrap_lists_every_builtin_once() {
    let all = Capability::bootstrap_capabilities();
    assert_eq!(all.len(), 46);
    assert_eq!(all[0], Capability::FsReadUserDocuments);
    assert!(all.contains(&Capability::SignatureWrite));
    for (i, a) in all.iter().enumerate() {
        for b in &all[i + 1..] {
            assert_ne!(a, b);
        }
    }
}

#[test]
fn hierarchy_implications() {
    assert!(capability_implies(Capability::FsReadAll, Capability::FsReadUserDocuments));
    assert!(capability_implies(Capability::FsReadAll, Capability::FsReadTmp));
    assert!(capability_implies(Capability::FsWriteUser, Capability::FsWriteUserMusic));
    assert!(!capability_implies(Capability::FsWriteUser, Capability::FsWriteTmp));
    assert!(!capability_implies(Capability::FsReadAll, Capability::FsWriteTmp));
    assert!(capability_implies(Capability::Unsandboxed, Capability::KernelDebug));
    assert!(capability_implies(Capability::Dynamic(4), Capability::Dynamic(4)));
    assert!(!capability_implies(Capability::Dynamic(4), Capability::Dynamic(5)));
}

#[test]
fn capability_set_operations() {
    let mut set = CapabilitySet::empty();
    assert!(set.is_empty());
    set.insert(Capability::FsReadUser);
    set.insert(Capability::IpcClient);
    set.insert(Capability::FsReadUser);
    assert_eq!(set.len(), 2);
    assert!(set.contains_exact(Capability::FsReadUser));
    assert!(!set.contains_exact(Capability::FsReadUserMusic));
    assert!(set.implies(Capability::FsReadUserMusic));
    assert!(set.contains(Capability::FsReadUserMusic));
    assert!(!set.implies(Capability::FsWriteUserMusic));
    assert!(set.remove(Capability::IpcClient));
    assert!(!set.remove(Capability::IpcClient));
    assert_eq!(set.iter(), vec![Capability::FsReadUser]);
}

#[test]
fn subset_respects_hierarchy() {
    let mut small = CapabilitySet::empty();
    small.insert(Capability::FsReadUserDocuments);
    small.insert(Capability::FsReadTmp);
    let mut big = CapabilitySet::empty();
    big.insert(Capability::FsReadAll);
    assert!(small.is_subset_of(&big));
    assert!(!big.is_subset_of(&small));
    assert!(CapabilitySet::empty().is_subset_of(&small));
}

#[test]
fn from_strings_reports_the_bad_name() {
    let mut registry = DynamicCapabilityRegistry::new();
    let good = vec!["fs.read.tmp".to_string(), "vendor.x".to_string()];
    let set = match CapabilitySet::from_strings(&good, &mut registry) {
        Ok(set) => set,
        Err(error) => panic!("{error:?}"),
    };
    assert_eq!(set.len(), 2);
    assert!(set.contains_exact(Capability::FsReadTmp));
    assert!(set.contains_exact(Capability::Dynamic(0)));
    let bad = vec!["fs.read.tmp".to_string(), "Bad Name".to_string()];
    match CapabilitySet::from_strings(&bad, &mut registry) {
        Ok(_) => panic!("an invalid name was accepted"),
        Err(error) => assert_eq!(error, CapabilityParseError::InvalidCapability { name: "Bad Name".to_string() }),
    }
}

#[test]
fn kernel_authority_set_operations() {
    let region = KernelAuthority::new(
        KernelCapability::PhysMap,
        KernelObjectRef::MmioRegion { base: 0, size: 0x1000 },
    );
    let part = KernelAuthority::new(
        KernelCapability::PhysMap,
        KernelObjectRef::MmioRegion { base: 0x100, size: 0x100 },
    );
    let mut set = KernelAuthoritySet::empty();
    assert!(set.is_empty());
    set.insert(region);
    set.insert(region);
    assert_eq!(set.len(), 1);
    assert!(set.contains_exact(&region));
    assert!(!set.contains_exact(&part));
    assert!(set.implies(&part));
    assert!(set.contains_capability(KernelCapability::PhysMap));
    assert!(!set.contains_capability(KernelCapability::VmMap));
    let mut sub = KernelAuthoritySet::empty();
    sub.insert(part);
    assert!(sub.is_subset_of(&set));
    assert!(!set.is_subset_of(&sub));
    assert_eq!(set.iter(), vec![region]);
    assert!(set.remove_exact(&region));
    assert!(!set.remove_exact(&region));
}
