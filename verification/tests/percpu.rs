use mnu::percpu::{
    current_cpu_id, current_cpu_syscall_state_vaddr, is_syscall_shared_vaddr, PerCpuTable, SyscallRegions, MAX_CPUS,
    SYSCALL_SHARED_BASE, SYSCALL_SHARED_STACK_BASE,
};

#[test]
fn shared_syscall_pages() {
    assert!(is_syscall_shared_vaddr(SYSCALL_SHARED_BASE));
    assert!(is_syscall_shared_vaddr(SYSCALL_SHARED_BASE + 0x123));
    assert!(is_syscall_shared_vaddr(SYSCALL_SHARED_BASE + (MAX_CPUS as u64) * 4096 - 1));
    assert!(!is_syscall_shared_vaddr(SYSCALL_SHARED_STACK_BASE + (MAX_CPUS as u64) * 4096));
    assert!(is_syscall_shared_vaddr(SYSCALL_SHARED_STACK_BASE + 5 * 4096 + 8));
    assert!(!is_syscall_shared_vaddr(SYSCALL_SHARED_BASE - 1));
    assert_eq!(current_cpu_syscall_state_vaddr(0), SYSCALL_SHARED_BASE);
    assert_eq!(current_cpu_syscall_state_vaddr(3), SYSCALL_SHARED_BASE + 3 * 4096);
    assert_eq!(current_cpu_id(7), 7);
}

#[test]
fn per_cpu_state_updates() {
    let mut table = PerCpuTable::new();
    table.init_boot_cpu(0, 0x1000, 0xffff_8000_0000_0000);
    assert_eq!(table.kernel_cr3(0), 0x1000);
    assert_eq!(table.syscall_kernel_rsp(0), 0xffff_8000_0000_0000);
    assert_eq!(table.current_thread_raw_id(0), 0);
    assert_eq!(table.current_thread_slot(0), None);
    table.set_syscall_kernel_rsp(1, 0x2000);
    assert_eq!(table.syscall_kernel_rsp(1), 0x2000);
    assert_eq!(table.kernel_cr3(1), 0);
    table.set_current_thread_raw_id(0, 42);
    assert_eq!(table.current_thread_raw_id(0), 42);
    table.set_current_thread_slot(0, Some(5));
    assert_eq!(table.current_thread_slot(0), Some(5));
    table.set_current_thread_slot(0, None);
    assert_eq!(table.current_thread_slot(0), None);
    assert_eq!(table.current_thread_raw_id(0), 42);
}

#[test]
fn shared_mappings_list_cpus_with_both_pages() {
    let mut regions = SyscallRegions::new();
    assert!(regions.needs_region(0));
    assert!(regions.shared_mappings().is_empty());
    regions.record_region(2, 0x5000, 0x6000);
    regions.record_region(0, 0x1000, 0);
    regions.record_region(5, 0x7000, 0x8000);
    assert!(!regions.needs_region(2));
    assert!(regions.needs_region(0));
    assert_eq!(
        regions.shared_mappings(),
        vec![
            (SYSCALL_SHARED_BASE + 2 * 4096, 0x5000),
            (SYSCALL_SHARED_STACK_BASE + 2 * 4096, 0x6000),
            (SYSCALL_SHARED_BASE + 5 * 4096, 0x7000),
            (SYSCALL_SHARED_STACK_BASE + 5 * 4096, 0x8000),
        ]
    );
}
