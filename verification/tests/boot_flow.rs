use boot_handoff::config::Arch;
use boot_handoff::handoff::FramebufferInfo;
use boot_handoff::sequencer::{Action, Event, MapInfo, Phase, Sequencer, EXIT_RETRIES};
use boot_handoff::status::BootStatus;

fn put_le16(buf: &mut Vec<u8>, off: usize, v: u16) {
    let b = v.to_le_bytes();
    buf[off] = b[0];
    buf[off + 1] = b[1];
}

fn put_le32(buf: &mut Vec<u8>, off: usize, v: u32) {
    let b = v.to_le_bytes();
    for i in 0..4 {
        buf[off + i] = b[i];
    }
}

fn put_le64(buf: &mut Vec<u8>, off: usize, v: u64) {
    let b = v.to_le_bytes();
    for i in 0..8 {
        buf[off + i] = b[i];
    }
}

/// A two-entry image for the end-to-end scenario: entry point `0x200000`,
/// one loadable segment (4096 bytes on disk, 8192 in memory) and one
/// non-loadable note entry.
fn two_segment_image() -> Vec<u8> {
    let payload_off = 64 + 2 * 56;
    let mut buf = vec![0u8; payload_off + 4096];
    let ident = [0x7fu8, 0x45, 0x4c, 0x46, 2, 1, 1, 0];
    for i in 0..8 {
        buf[i] = ident[i];
    }
    put_le16(&mut buf, 16, 2);
    put_le16(&mut buf, 18, 62);
    put_le32(&mut buf, 20, 1);
    put_le64(&mut buf, 24, 0x200000);
    put_le64(&mut buf, 32, 64);
    put_le16(&mut buf, 52, 64);
    put_le16(&mut buf, 54, 56);
    put_le16(&mut buf, 56, 2);
    // Loadable segment.
    put_le32(&mut buf, 64, 1);
    put_le32(&mut buf, 68, 5);
    put_le64(&mut buf, 72, payload_off as u64);
    put_le64(&mut buf, 80, 0x200000);
    put_le64(&mut buf, 96, 4096);
    put_le64(&mut buf, 104, 8192);
    put_le64(&mut buf, 112, 0x1000);
    // Note entry.
    put_le32(&mut buf, 120, 4);
    for i in 0..4096 {
        buf[payload_off + i] = (i % 251) as u8;
    }
    buf
}

fn sample_fb() -> FramebufferInfo {
    FramebufferInfo {
        addr: 0x8000_0000,
        width: 1024,
        height: 768,
        stride: 1056,
    }
}

/// Whether performing this action invokes a firmware service, as an
/// instrumented adapter would classify its calls.
fn needs_firmware(a: &Action) -> bool {
    !matches!(
        a,
        Action::FinalizeRecord { .. } | Action::Jump { .. } | Action::Halt
    )
}

#[test]
fn two_segment_boot_allocates_once_and_jumps_to_the_entry() {
    let image = two_segment_image();
    let mut seq = Sequencer::new(Arch::X86_64);
    assert!(matches!(seq.initial_action(), Action::QueryGraphics));

    // Instrumentation an adapter would carry: every page allocation, and
    // whether any service is asked for after the successful exit.
    let mut page_allocations: Vec<u64> = Vec::new();
    let mut exited = false;

    let a = seq.step(Event::GraphicsMode(Some(sample_fb())));
    assert!(!exited || !needs_firmware(&a));
    assert!(matches!(a, Action::AcquireImage));
    assert_eq!(seq.phase, Phase::GraphicsReady);

    let a = seq.step(Event::FileRead(Ok(image.clone())));
    assert!(!exited || !needs_firmware(&a));
    let segments = match a {
        Action::PlaceSegments { segments } => segments,
        other => panic!("expected PlaceSegments, got {:?}", other),
    };
    assert_eq!(seq.phase, Phase::ImageLoaded);
    assert_eq!(segments.len(), 1);
    for seg in &segments {
        page_allocations.push(seg.pages);
    }
    // Exactly one allocation of two pages; 4096 bytes copied verbatim and
    // 4096 zero-filled.
    assert_eq!(page_allocations, vec![2]);
    assert_eq!(segments[0].vaddr, 0x200000);
    assert_eq!(segments[0].bytes.len(), 8192);
    let payload_off = 64 + 2 * 56;
    assert_eq!(
        &segments[0].bytes[..4096],
        &image[payload_off..payload_off + 4096]
    );
    assert!(segments[0].bytes[4096..].iter().all(|&b| b == 0));

    let a = seq.step(Event::SegmentsPlaced(Ok(())));
    assert!(!exited || !needs_firmware(&a));
    assert!(matches!(a, Action::AllocateRecord { bytes: 56 }));

    let a = seq.step(Event::RecordSlot(Ok(0xb000)));
    assert!(!exited || !needs_firmware(&a));
    match a {
        Action::SnapshotMap { record_addr, record } => {
            assert_eq!(record_addr, 0xb000);
            assert_eq!(record.framebuffer_addr, 0x8000_0000);
            assert_eq!(record.framebuffer_width, 1024);
            assert_eq!(record.framebuffer_height, 768);
            assert_eq!(record.framebuffer_stride, 1056);
            assert_eq!(record.memory_map_size, 0);
        }
        other => panic!("expected SnapshotMap, got {:?}", other),
    }
    assert_eq!(seq.phase, Phase::RecordAllocated);

    let a = seq.step(Event::MapPrepared(Ok(MapInfo {
        buffer_addr: 0x9000,
        entry_size: 48,
    })));
    assert!(!exited || !needs_firmware(&a));
    match a {
        Action::ExitEnvironment { record_addr, record } => {
            assert_eq!(record_addr, 0xb000);
            assert_eq!(record.memory_map_addr, 0x9000);
            assert_eq!(record.memory_map_entry_size, 48);
            assert_eq!(record.memory_map_size, 0);
        }
        other => panic!("expected ExitEnvironment, got {:?}", other),
    }
    assert_eq!(seq.phase, Phase::MapSnapshotted);

    let a = seq.step(Event::ExitOutcome(Ok(20)));
    exited = true;
    assert!(!needs_firmware(&a));
    match a {
        Action::FinalizeRecord { record_addr, record } => {
            assert_eq!(record_addr, 0xb000);
            // The final byte length is the post-exit count times the
            // stride, not the provisional value.
            assert_eq!(record.memory_map_size, 960);
            assert_eq!(record.memory_map_addr, 0x9000);
            assert_eq!(record.framebuffer_addr, 0x8000_0000);
        }
        other => panic!("expected FinalizeRecord, got {:?}", other),
    }
    assert_eq!(seq.phase, Phase::EnvironmentExited);

    let a = seq.step(Event::RecordPatched);
    assert!(!needs_firmware(&a));
    match a {
        Action::Jump { entry, record_addr } => {
            assert_eq!(entry, 0x200000);
            assert_eq!(record_addr, 0xb000);
        }
        other => panic!("expected Jump, got {:?}", other),
    }
    assert_eq!(seq.phase, Phase::Dispatched);
    assert_eq!(page_allocations.len(), 1);
    assert!(exited);
}

#[test]
fn empty_kernel_file_aborts_with_invalid_parameter_and_no_allocation() {
    let mut seq = Sequencer::new(Arch::X86_64);
    seq.step(Event::GraphicsMode(Some(sample_fb())));
    let a = seq.step(Event::FileRead(Ok(Vec::new())));
    // No PlaceSegments action was ever emitted, so nothing allocates pages.
    match a {
        Action::Report { status } => assert_eq!(status, BootStatus::InvalidParameter),
        other => panic!("expected Report, got {:?}", other),
    }
    assert_eq!(seq.phase, Phase::Aborted);
    assert_eq!(seq.status, BootStatus::InvalidParameter);
}

#[test]
fn missing_graphics_protocol_aborts_with_device_error() {
    let mut seq = Sequencer::new(Arch::X86_64);
    let a = seq.step(Event::GraphicsMode(None));
    match a {
        Action::Report { status } => assert_eq!(status, BootStatus::DeviceError),
        other => panic!("expected Report, got {:?}", other),
    }
    assert_eq!(seq.phase, Phase::Aborted);
}

#[test]
fn failed_file_read_aborts_with_its_status() {
    let mut seq = Sequencer::new(Arch::X86_64);
    seq.step(Event::GraphicsMode(Some(sample_fb())));
    let a = seq.step(Event::FileRead(Err(BootStatus::NotFound)));
    match a {
        Action::Report { status } => assert_eq!(status, BootStatus::NotFound),
        other => panic!("expected Report, got {:?}", other),
    }
    assert_eq!(seq.phase, Phase::Aborted);
    assert_eq!(seq.status, BootStatus::NotFound);
}

#[test]
fn failed_segment_placement_aborts_with_its_status() {
    let mut seq = Sequencer::new(Arch::X86_64);
    seq.step(Event::GraphicsMode(Some(sample_fb())));
    seq.step(Event::FileRead(Ok(two_segment_image())));
    let a = seq.step(Event::SegmentsPlaced(Err(BootStatus::OutOfResources)));
    match a {
        Action::Report { status } => assert_eq!(status, BootStatus::OutOfResources),
        other => panic!("expected Report, got {:?}", other),
    }
    assert_eq!(seq.phase, Phase::Aborted);
}

/// Drives a fresh sequencer through a whole successful boot up to the
/// successful environment exit.
fn boot_to_exited() -> Sequencer {
    let mut seq = Sequencer::new(Arch::X86_64);
    seq.step(Event::GraphicsMode(Some(sample_fb())));
    seq.step(Event::FileRead(Ok(two_segment_image())));
    seq.step(Event::SegmentsPlaced(Ok(())));
    seq.step(Event::RecordSlot(Ok(0xb000)));
    seq.step(Event::MapPrepared(Ok(MapInfo {
        buffer_addr: 0x9000,
        entry_size: 48,
    })));
    seq.step(Event::ExitOutcome(Ok(20)));
    assert_eq!(seq.phase, Phase::EnvironmentExited);
    seq
}

#[test]
fn no_firmware_service_is_asked_for_after_the_exit() {
    // Whatever event arrives once the environment exit has succeeded —
    // including events that would earlier have led to queries or
    // allocations — the emitted action never touches a firmware service.
    for i in 0..8 {
        let mut seq = boot_to_exited();
        let stray = match i {
            0 => Event::GraphicsMode(Some(sample_fb())),
            1 => Event::FileRead(Ok(two_segment_image())),
            2 => Event::SegmentsPlaced(Ok(())),
            3 => Event::RecordSlot(Ok(0xc000)),
            4 => Event::MapPrepared(Ok(MapInfo {
                buffer_addr: 0x9000,
                entry_size: 48,
            })),
            5 => Event::ExitOutcome(Ok(5)),
            6 => Event::RecordPatched,
            _ => Event::KernelReturned,
        };
        let a = seq.step(stray);
        assert!(!needs_firmware(&a), "firmware action after exit: {:?}", a);
        // And the machine never falls back before the exit.
        assert!(matches!(
            seq.phase,
            Phase::EnvironmentExited | Phase::Dispatched | Phase::Halted
        ));
    }
}

#[test]
fn kernel_return_after_dispatch_halts() {
    let mut seq = boot_to_exited();
    seq.step(Event::RecordPatched);
    assert_eq!(seq.phase, Phase::Dispatched);
    let a = seq.step(Event::KernelReturned);
    assert!(matches!(a, Action::Halt));
    assert_eq!(seq.phase, Phase::Halted);
}

#[test]
fn exit_race_is_retried_and_bounded() {
    let mut seq = Sequencer::new(Arch::X86_64);
    seq.step(Event::GraphicsMode(Some(sample_fb())));
    seq.step(Event::FileRead(Ok(two_segment_image())));
    seq.step(Event::SegmentsPlaced(Ok(())));
    seq.step(Event::RecordSlot(Ok(0xb000)));
    seq.step(Event::MapPrepared(Ok(MapInfo {
        buffer_addr: 0x9000,
        entry_size: 48,
    })));
    assert_eq!(seq.phase, Phase::MapSnapshotted);
    // The map-changed race is retried with a fresh exit attempt, each time
    // keeping the machine in place...
    for _ in 0..EXIT_RETRIES {
        let a = seq.step(Event::ExitOutcome(Err(BootStatus::BufferTooSmall)));
        assert!(matches!(a, Action::ExitEnvironment { .. }));
        assert_eq!(seq.phase, Phase::MapSnapshotted);
    }
    // ...until the bound is spent; then the attempt is fatal.
    let a = seq.step(Event::ExitOutcome(Err(BootStatus::BufferTooSmall)));
    match a {
        Action::Report { status } => assert_eq!(status, BootStatus::BufferTooSmall),
        other => panic!("expected Report, got {:?}", other),
    }
    assert_eq!(seq.phase, Phase::Aborted);
}

#[test]
fn retry_then_successful_exit_still_finalizes_exactly() {
    let mut seq = Sequencer::new(Arch::X86_64);
    seq.step(Event::GraphicsMode(Some(sample_fb())));
    seq.step(Event::FileRead(Ok(two_segment_image())));
    seq.step(Event::SegmentsPlaced(Ok(())));
    seq.step(Event::RecordSlot(Ok(0xb000)));
    seq.step(Event::MapPrepared(Ok(MapInfo {
        buffer_addr: 0x9000,
        entry_size: 48,
    })));
    seq.step(Event::ExitOutcome(Err(BootStatus::BufferTooSmall)));
    let a = seq.step(Event::ExitOutcome(Ok(21)));
    match a {
        Action::FinalizeRecord { record, .. } => {
            assert_eq!(record.memory_map_size, 21 * 48);
        }
        other => panic!("expected FinalizeRecord, got {:?}", other),
    }
    assert_eq!(seq.phase, Phase::EnvironmentExited);
}

#[test]
fn event_out_of_order_before_exit_is_fatal_but_reported() {
    let mut seq = Sequencer::new(Arch::X86_64);
    let a = seq.step(Event::RecordPatched);
    match a {
        Action::Report { status } => assert_eq!(status, BootStatus::InvalidParameter),
        other => panic!("expected Report, got {:?}", other),
    }
    assert_eq!(seq.phase, Phase::Aborted);
}

#[test]
fn aborted_attempt_keeps_reporting_its_status() {
    let mut seq = Sequencer::new(Arch::X86_64);
    seq.step(Event::GraphicsMode(None));
    let a = seq.step(Event::RecordPatched);
    match a {
        Action::Report { status } => assert_eq!(status, BootStatus::DeviceError),
        other => panic!("expected Report, got {:?}", other),
    }
    assert_eq!(seq.phase, Phase::Aborted);
}

#[test]
fn unrepresentable_final_map_length_halts_after_exit() {
    let mut seq = Sequencer::new(Arch::X86_64);
    seq.step(Event::GraphicsMode(Some(sample_fb())));
    seq.step(Event::FileRead(Ok(two_segment_image())));
    seq.step(Event::SegmentsPlaced(Ok(())));
    seq.step(Event::RecordSlot(Ok(0xb000)));
    seq.step(Event::MapPrepared(Ok(MapInfo {
        buffer_addr: 0x9000,
        entry_size: usize::MAX,
    })));
    let a = seq.step(Event::ExitOutcome(Ok(2)));
    assert!(matches!(a, Action::Halt));
    assert_eq!(seq.phase, Phase::Halted);
}
