use mnu::abi::hypervisor::{
    PciDeviceInfo, PciDeviceResource, DOMAIN_CAPABILITY_DEVICE_CLAIM, HYPERCALL_INVALID_ARGUMENT, HYPERCALL_SUCCESS,
    PCI_DEVICE_FLAG_CLAIMABLE, PCI_DEVICE_STATE_ACTIVE, PCI_DEVICE_STATE_CLAIMED_DISABLED, PCI_DEVICE_STATE_QUARANTINED,
};
use mnu::abi::mdriver_block::{MdriverBlockResponse, MDRIVER_BLOCK_STATUS_OK, MDRIVER_BLOCK_STATUS_OUT_OF_RANGE};
use mnu::abi::mdriver_control::{
    MdriverControlResponse, MDRIVER_CONTROL_BLOCK_READ, MDRIVER_CONTROL_BLOCK_WRITE, MDRIVER_CONTROL_CLOSE_DEVICE,
    MDRIVER_CONTROL_OPEN_DEVICE, MDRIVER_CONTROL_STATUS_OK, MDRIVER_CONTROL_STATUS_OUT_OF_RANGE,
    MDRIVER_DEVICE_FEATURE_BLOCK_FLUSH, MDRIVER_DEVICE_FEATURE_BLOCK_READ, MDRIVER_DEVICE_FEATURE_BLOCK_WRITE,
    MDRIVER_DEVICE_FEATURE_EPHEMERAL,
};
use mnu::block_check::{
    block_path_possible, block_test_byte, pattern_matches, test_pattern, AsyncQueueCheck, BlockPathCheck,
    BlockPathError, PathStage, QueueCheckError, QueueWriteCheck,
};
use mnu::abi::mdriver_block::{MDRIVER_BLOCK_FLUSH, MDRIVER_BLOCK_WRITE};
use mnu::abi::hypervisor::DOMAIN_ROLE_SYSTEM;
use mnu::bring_up::{system_boot_ok, SYSTEM_REQUIRED_FEATURES};
use mnu::mdriver::{summarize, BlockCandidate, PartitionSearch, Summary};
use mnu::bring_up::{
    bring_up_start, bring_up_step, hardware_boot_ok, BringUpAction, BringUpEvent, BringUpStage, ACTIVATION_ARGUMENT,
    HARDWARE_REQUIRED_FEATURES,
};
use mnu::mdriver::{check_display, DisplayInfo, Error};

const FEATURES: u64 =
    MDRIVER_DEVICE_FEATURE_BLOCK_READ | MDRIVER_DEVICE_FEATURE_BLOCK_WRITE | MDRIVER_DEVICE_FEATURE_BLOCK_FLUSH;

fn answer(status: u32, values: [u64; 4]) -> MdriverControlResponse {
    MdriverControlResponse::new(0, status, 5, values)
}

#[test]
fn test_bytes_follow_the_pattern() {
    assert_eq!(block_test_byte(0), 0x5a);
    assert_eq!(block_test_byte(1), 0x7f);
    assert_eq!(block_test_byte(256), 0x5a);
    let pattern = test_pattern(4);
    assert_eq!(pattern, vec![0x5a, 0x7f, 0xa4, 0xc9]);
    assert!(pattern_matches(&pattern, 4));
    assert!(!pattern_matches(&pattern, 5));
    assert!(!pattern_matches(&[0x5a, 0], 2));
}

#[test]
fn async_completions_arrive_in_any_order_once_each() {
    let mut check = AsyncQueueCheck::new(5, 64, 512, u64::MAX - 1).unwrap();
    assert_eq!(check.request(1).sector, 1);
    assert_eq!(check.request(2).sector, 64);
    assert_eq!(check.request(3).sector, 2);
    let refused = MdriverBlockResponse::new(check.request(2), MDRIVER_BLOCK_STATUS_OUT_OF_RANGE, 0);
    // Ids wrap: slot 2 went out under id 0.
    assert_eq!(check.accept_completion(0, &refused), Ok(()));
    assert_eq!(check.accept_completion(0, &refused), Err(QueueCheckError::Duplicate));
    assert_eq!(check.accept_completion(3, &refused), Err(QueueCheckError::UnknownId));
    let wrong = MdriverBlockResponse::new(check.request(0), MDRIVER_BLOCK_STATUS_OK, 100);
    assert_eq!(check.accept_completion(u64::MAX - 1, &wrong), Err(QueueCheckError::BadCompletion));
    assert!(!check.finished());
    for (slot, id) in [(0usize, u64::MAX - 1), (1, u64::MAX), (3, 1)] {
        let done = MdriverBlockResponse::new(check.request(slot), MDRIVER_BLOCK_STATUS_OK, 512);
        assert_eq!(check.accept_completion(id, &done), Ok(()));
    }
    assert!(check.finished());
}

#[test]
fn async_check_needs_three_blocks() {
    assert!(matches!(AsyncQueueCheck::new(5, 23, 4096, 0), Err(QueueCheckError::TooSmall)));
    assert!(AsyncQueueCheck::new(5, 24, 4096, 0).is_ok());
}

#[test]
fn data_path_check_runs_every_step_on_an_ephemeral_device() {
    assert!(block_path_possible(FEATURES, 2 * 4096));
    assert!(!block_path_possible(FEATURES, 4096));
    assert!(!block_path_possible(MDRIVER_DEVICE_FEATURE_BLOCK_READ, 2 * 4096));
    assert!(matches!(BlockPathCheck::new(5, FEATURES, 0), Err(BlockPathError::Grant)));
    let mut check = BlockPathCheck::new(5, FEATURES | MDRIVER_DEVICE_FEATURE_EPHEMERAL, 9).unwrap();
    let open = check.request().unwrap();
    assert_eq!(open.operation, MDRIVER_CONTROL_OPEN_DEVICE);
    assert_eq!(open.arguments, [9, 4096, 0, 0]);
    assert_eq!(check.accept(&answer(MDRIVER_CONTROL_STATUS_OK, [64, 1000, 4096, FEATURES]), &[]), Err(BlockPathError::Refused));
    assert_eq!(check.accept(&answer(MDRIVER_CONTROL_STATUS_OK, [64, 1024, 4096, FEATURES]), &[]), Ok(()));
    assert_eq!(check.request().unwrap().arguments, [0, 1024, 0, 0]);
    assert_eq!(check.accept(&answer(MDRIVER_CONTROL_STATUS_OK, [1024, 0, 0, 0]), &[]), Ok(()));
    let outside = check.request().unwrap();
    assert_eq!((outside.operation, outside.arguments), (MDRIVER_CONTROL_BLOCK_READ, [64, 1024, 0, 0]));
    assert_eq!(check.accept(&answer(MDRIVER_CONTROL_STATUS_OUT_OF_RANGE, [0; 4]), &[]), Ok(()));
    let write = check.request().unwrap();
    assert_eq!((write.operation, write.arguments), (MDRIVER_CONTROL_BLOCK_WRITE, [16, 1024, 0, 0]));
    assert_eq!(check.accept(&answer(MDRIVER_CONTROL_STATUS_OK, [1024, 0, 0, 0]), &[]), Ok(()));
    assert_eq!(check.accept(&answer(MDRIVER_CONTROL_STATUS_OK, [0; 4]), &[]), Ok(()));
    assert_eq!(check.current_stage(), PathStage::Reread);
    let mut page = test_pattern(1024);
    page[7] ^= 1;
    assert_eq!(check.accept(&answer(MDRIVER_CONTROL_STATUS_OK, [1024, 0, 0, 0]), &page), Err(BlockPathError::DataMismatch));
    assert_eq!(check.accept(&answer(MDRIVER_CONTROL_STATUS_OK, [1024, 0, 0, 0]), &test_pattern(1024)), Ok(()));
    assert_eq!(check.request().unwrap().operation, MDRIVER_CONTROL_CLOSE_DEVICE);
    assert_eq!(check.accept(&answer(MDRIVER_CONTROL_STATUS_OK, [0; 4]), &[]), Ok(()));
    assert!(check.is_done());
    assert!(check.request().is_none());
}

#[test]
fn data_path_check_skips_writes_on_a_persistent_device() {
    let mut check = BlockPathCheck::new(5, FEATURES, 9).unwrap();
    assert_eq!(check.accept(&answer(MDRIVER_CONTROL_STATUS_OK, [8, 512, 512, FEATURES]), &[]), Ok(()));
    assert_eq!(check.accept(&answer(MDRIVER_CONTROL_STATUS_OK, [512, 0, 0, 0]), &[]), Ok(()));
    assert_eq!(check.accept(&answer(MDRIVER_CONTROL_STATUS_OK, [0; 4]), &[]), Err(BlockPathError::Refused));
    assert_eq!(check.accept(&answer(MDRIVER_CONTROL_STATUS_OUT_OF_RANGE, [0; 4]), &[]), Ok(()));
    assert_eq!(check.request().unwrap().operation, MDRIVER_CONTROL_CLOSE_DEVICE);
}

#[test]
fn data_path_check_needs_room_for_the_test_sector() {
    let mut check = BlockPathCheck::new(5, FEATURES | MDRIVER_DEVICE_FEATURE_EPHEMERAL, 9).unwrap();
    assert_eq!(check.accept(&answer(MDRIVER_CONTROL_STATUS_OK, [16, 512, 512, FEATURES]), &[]), Ok(()));
    assert_eq!(check.accept(&answer(MDRIVER_CONTROL_STATUS_OK, [512, 0, 0, 0]), &[]), Ok(()));
    assert_eq!(check.accept(&answer(MDRIVER_CONTROL_STATUS_OUT_OF_RANGE, [0; 4]), &[]), Err(BlockPathError::TooSmall));
}

#[test]
fn display_answers_give_the_geometry() {
    let opened = answer(MDRIVER_CONTROL_STATUS_OK, [4096, 4, 0, 0]);
    let format = 32 | (16 << 8) | (8 << 16);
    let info = answer(MDRIVER_CONTROL_STATUS_OK, [640, 480, 2560, format]);
    assert_eq!(
        check_display(&opened, &info, 4096, 4),
        Ok(DisplayInfo { width: 640, height: 480, stride: 640, red_offset: 16, green_offset: 8, blue_offset: 0 })
    );
    assert_eq!(check_display(&answer(MDRIVER_CONTROL_STATUS_OK, [4096, 3, 0, 0]), &info, 4096, 4), Err(Error::Device));
    let narrow = answer(MDRIVER_CONTROL_STATUS_OK, [640, 480, 2556, format]);
    assert_eq!(check_display(&opened, &narrow, 4096, 4), Err(Error::Protocol));
    let huge = answer(MDRIVER_CONTROL_STATUS_OK, [1 << 32, 480, 2560, format]);
    assert_eq!(check_display(&opened, &huge, 4096, 4), Err(Error::Protocol));
    let bgr = answer(MDRIVER_CONTROL_STATUS_OK, [640, 480, 2560, 32 | (8 << 16)]);
    assert_eq!(check_display(&opened, &bgr, 4096, 4), Err(Error::Protocol));
}

fn device(state: u8, flags: u32, owner: u32) -> PciDeviceInfo {
    PciDeviceInfo {
        requester: 0x18,
        class: 1,
        subclass: 0,
        state,
        _reserved0: [0; 3],
        owner_domain: owner,
        flags,
        storage_disk_guid: [0; 16],
        storage_partition_type_guid: [0; 16],
        storage_partition_guid: [0; 16],
    }
}

#[test]
fn bring_up_claims_checks_and_returns_a_device() {
    assert!(hardware_boot_ok(true, 2, HARDWARE_REQUIRED_FEATURES, 1));
    assert!(!hardware_boot_ok(true, 1, HARDWARE_REQUIRED_FEATURES, 1));
    let (s, a) = bring_up_start(7, DOMAIN_CAPABILITY_DEVICE_CLAIM, 0x1000_0000, 0x10_0000);
    assert_eq!(a, BringUpAction::QueryDevice(0));
    let (s, a) = bring_up_step(s, BringUpEvent::Queried { result: HYPERCALL_SUCCESS, info: device(1, PCI_DEVICE_FLAG_CLAIMABLE, 0) });
    assert_eq!(a, BringUpAction::Claim(0x18));
    let (s, a) = bring_up_step(s, BringUpEvent::Answer(HYPERCALL_SUCCESS));
    assert_eq!(a, BringUpAction::QueryDevice(0));
    let (s, a) = bring_up_step(s, BringUpEvent::Queried { result: HYPERCALL_SUCCESS, info: device(PCI_DEVICE_STATE_CLAIMED_DISABLED, 0, 7) });
    assert_eq!(a, BringUpAction::ConfigRead(0x18, 0));
    let (s, a) = bring_up_step(s, BringUpEvent::Answer(0x1001_1af4));
    assert_eq!(a, BringUpAction::QueryResource(0x18, 0));
    let resource = PciDeviceResource {
        requester: 0x18,
        bar_index: 0,
        kind: 1,
        flags: 1,
        guest_address: 0x1000_0000,
        length: 0x1000,
        _reserved0: 0,
    };
    let (s, a) = bring_up_step(s, BringUpEvent::Resource { result: HYPERCALL_SUCCESS, resource });
    assert_eq!(a, BringUpAction::QueryResource(0x18, 1));
    let (s, a) = bring_up_step(s, BringUpEvent::Resource { result: HYPERCALL_INVALID_ARGUMENT, resource });
    assert_eq!(a, BringUpAction::Activate(0x18, ACTIVATION_ARGUMENT));
    let (s, a) = bring_up_step(s, BringUpEvent::Answer(HYPERCALL_SUCCESS));
    assert_eq!(a, BringUpAction::QueryDevice(0));
    let (s, a) = bring_up_step(s, BringUpEvent::Queried { result: HYPERCALL_SUCCESS, info: device(PCI_DEVICE_STATE_ACTIVE, 0, 7) });
    assert_eq!(a, BringUpAction::ConfigRead(0x18, 4));
    let (s, a) = bring_up_step(s, BringUpEvent::Answer(0x6));
    assert_eq!(a, BringUpAction::Verify(0x18, 0x1001_1af4));
    let (s, a) = bring_up_step(s, BringUpEvent::Verified(true));
    assert_eq!(a, BringUpAction::Release(0x18));
    let (s, a) = bring_up_step(s, BringUpEvent::Answer(HYPERCALL_SUCCESS));
    assert_eq!(a, BringUpAction::QueryDevice(0));
    let (s, a) = bring_up_step(s, BringUpEvent::Queried { result: HYPERCALL_SUCCESS, info: device(PCI_DEVICE_STATE_QUARANTINED, 0, 0) });
    assert_eq!(a, BringUpAction::QueryDevice(1));
    let (s, a) = bring_up_step(s, BringUpEvent::Queried { result: HYPERCALL_INVALID_ARGUMENT, info: device(1, 0, 0) });
    assert_eq!(a, BringUpAction::Ready);
    let (s, a) = bring_up_step(s, BringUpEvent::Answer(HYPERCALL_SUCCESS));
    assert_eq!((s.stage, a), (BringUpStage::Running, BringUpAction::Wait));
}

#[test]
fn bring_up_fails_on_a_resource_outside_the_window() {
    let (s, _) = bring_up_start(7, DOMAIN_CAPABILITY_DEVICE_CLAIM, 0x1000_0000, 0x10_0000);
    let (s, _) = bring_up_step(s, BringUpEvent::Queried { result: HYPERCALL_SUCCESS, info: device(1, PCI_DEVICE_FLAG_CLAIMABLE, 0) });
    let (s, _) = bring_up_step(s, BringUpEvent::Answer(HYPERCALL_SUCCESS));
    let (s, _) = bring_up_step(s, BringUpEvent::Queried { result: HYPERCALL_SUCCESS, info: device(PCI_DEVICE_STATE_CLAIMED_DISABLED, 0, 7) });
    let (s, _) = bring_up_step(s, BringUpEvent::Answer(0x1001_1af4));
    let resource = PciDeviceResource {
        requester: 0x18,
        bar_index: 0,
        kind: 1,
        flags: 1,
        guest_address: 0x1010_0000,
        length: 0x1000,
        _reserved0: 0,
    };
    let (s, a) = bring_up_step(s, BringUpEvent::Resource { result: HYPERCALL_SUCCESS, resource });
    assert_eq!((s.stage, a), (BringUpStage::Failed, BringUpAction::Fail));
}

#[test]
fn bring_up_refuses_a_claim_without_the_capability() {
    let (s, _) = bring_up_start(7, 0, 0x1000_0000, 0x10_0000);
    let (s, a) = bring_up_step(s, BringUpEvent::Queried { result: HYPERCALL_SUCCESS, info: device(1, PCI_DEVICE_FLAG_CLAIMABLE, 0) });
    assert_eq!((s.stage, a), (BringUpStage::Failed, BringUpAction::Fail));
    let (s, _) = bring_up_start(7, 0, 0x1000_0000, 0x10_0000);
    let (_, a) = bring_up_step(s, BringUpEvent::Queried { result: HYPERCALL_SUCCESS, info: device(1, 0, 0) });
    assert_eq!(a, BringUpAction::QueryDevice(1));
}

#[test]
fn async_check_refuses_an_odd_block_size() {
    assert!(matches!(AsyncQueueCheck::new(5, 64, 1000, 0), Err(QueueCheckError::BadBlockSize)));
    assert!(matches!(AsyncQueueCheck::new(5, 64, 8192, 0), Err(QueueCheckError::BadBlockSize)));
}

#[test]
fn queue_write_test_writes_flushes_and_reads_back() {
    assert!(matches!(QueueWriteCheck::new(5, 16, 512), Err(QueueCheckError::TooSmall)));
    let mut check = QueueWriteCheck::new(5, 17, 512).unwrap();
    let write = check.request().unwrap();
    assert_eq!((write.operation, write.sector, write.length), (MDRIVER_BLOCK_WRITE, 16, 512));
    let done = MdriverBlockResponse::new(write, MDRIVER_BLOCK_STATUS_OK, 512);
    assert_eq!(check.accept(7, 8, &done, &[]), Err(QueueCheckError::UnknownId));
    assert_eq!(check.accept(7, 7, &done, &[]), Ok(()));
    let flush = check.request().unwrap();
    assert_eq!((flush.operation, flush.length), (MDRIVER_BLOCK_FLUSH, 0));
    assert_eq!(check.accept(8, 8, &MdriverBlockResponse::new(flush, MDRIVER_BLOCK_STATUS_OK, 0), &[]), Ok(()));
    let read = check.request().unwrap();
    let answer = MdriverBlockResponse::new(read, MDRIVER_BLOCK_STATUS_OK, 512);
    assert_eq!(check.accept(9, 9, &answer, &[0u8; 512]), Err(QueueCheckError::DataMismatch));
    assert_eq!(check.accept(9, 9, &answer, &test_pattern(512)), Ok(()));
    assert!(check.is_done());
    assert!(check.request().is_none());
}

#[test]
fn system_domain_needs_its_role_and_features() {
    assert!(system_boot_ok(true, DOMAIN_ROLE_SYSTEM, SYSTEM_REQUIRED_FEATURES));
    assert!(!system_boot_ok(false, DOMAIN_ROLE_SYSTEM, SYSTEM_REQUIRED_FEATURES));
    assert!(!system_boot_ok(true, DOMAIN_ROLE_SYSTEM, SYSTEM_REQUIRED_FEATURES & !(1 << 9)));
    assert!(!system_boot_ok(true, 2, SYSTEM_REQUIRED_FEATURES));
}

const PARTITION_TYPE: [u64; 2] = [0x1111, 0x2222];

#[test]
fn partition_search_finds_the_only_installed_partition() {
    let candidates = [BlockCandidate { device_id: 3, features: 0 }, BlockCandidate { device_id: 4, features: 1 }];
    let mut search = PartitionSearch::new(&candidates, PARTITION_TYPE);
    assert_eq!(search.next_query(), Some((3, 0)));
    search.accept(true, true, [0; 4]);
    assert_eq!(search.next_query(), Some((4, 0)));
    search.accept(true, false, [9, 9, 0, 0]);
    assert_eq!(search.next_query(), Some((4, 1)));
    search.accept(true, false, [0x1111, 0x2222, 0xaa, 0xbb]);
    assert_eq!(search.next_query(), Some((4, 2)));
    search.accept(false, false, [0; 4]);
    assert!(search.is_done());
    assert_eq!(search.chosen(), Some((candidates[1], [0xaa, 0xbb])));
}

#[test]
fn partition_search_gives_up_on_two_installed_partitions() {
    let candidates = [BlockCandidate { device_id: 3, features: 0 }, BlockCandidate { device_id: 4, features: 0 }];
    let mut search = PartitionSearch::new(&candidates, PARTITION_TYPE);
    search.accept(true, false, [0x1111, 0x2222, 1, 2]);
    search.accept(true, true, [0; 4]);
    search.accept(true, false, [0x1111, 0x2222, 3, 4]);
    assert!(search.is_done());
    assert_eq!(search.chosen(), None);
}

#[test]
fn summary_reports_read_only_storage_and_tiles() {
    let candidates = [BlockCandidate { device_id: 3, features: 4 }, BlockCandidate { device_id: 4, features: 5 }];
    assert_eq!(
        summarize(6, &candidates, None, Some((9, 2)), 4, 2),
        Summary { device_count: 6, block_device: false, block_read_only: true, display_device: true }
    );
    assert_eq!(
        summarize(6, &candidates, Some(0), Some((9, 1)), 4, 2),
        Summary { device_count: 6, block_device: true, block_read_only: false, display_device: false }
    );
    assert_eq!(
        summarize(0, &[], None, None, 4, 2),
        Summary { device_count: 0, block_device: false, block_read_only: false, display_device: false }
    );
}
