use vstd::prelude::*;

use crate::config::Arch;
use crate::handoff::{BootInfo, FramebufferInfo, HandoffBuilder, RECORD_BYTES};
use crate::loader::{seg_views, spec_stage_image, stage_image, LoadedSegment, SegModel};
use crate::status::BootStatus;

verus! {

/// Bound on retries of the query-and-exit pair when the memory map changes
/// size between the query and the exit call (a known benign firmware race).
/// Exceeding it is fatal.
pub const EXIT_RETRIES: u32 = 4;

/// The strictly ordered stations of one boot attempt. `Aborted` is the
/// pre-exit failure sink (a status can still be reported to the firmware);
/// `Halted` is the post-exit one (nothing can be reported any more).
#[derive(Clone, Copy, Debug, PartialEq, Eq, Structural)]
pub enum Phase {
    Start,
    GraphicsReady,
    ImageLoaded,
    RecordAllocated,
    MapSnapshotted,
    EnvironmentExited,
    Dispatched,
    Aborted,
    Halted,
}

/// Where the permanent memory-map buffer was placed and the per-entry
/// stride the firmware reported for it.
#[derive(Clone, Copy, Debug, PartialEq, Eq, Structural)]
pub struct MapInfo {
    pub buffer_addr: u64,
    pub entry_size: usize,
}

/// What the driving loop reports back after performing the last action:
/// each variant answers one action, carrying either the values the
/// firmware produced or the status it failed with.
#[derive(Debug)]
pub enum Event {
    /// The display-mode query answered, or nothing when no graphics
    /// protocol is present.
    GraphicsMode(Option<FramebufferInfo>),
    /// The kernel file read fully into memory, or the status of the failed
    /// acquisition.
    FileRead(Result<Vec<u8>, BootStatus>),
    /// Every materialized segment copied into freshly allocated pages, or
    /// the status of the failed allocation.
    SegmentsPlaced(Result<(), BootStatus>),
    /// The handoff record's permanent slot allocated at this address.
    RecordSlot(Result<u64, BootStatus>),
    /// The memory map queried and its permanent buffer allocated.
    MapPrepared(Result<MapInfo, BootStatus>),
    /// The exit call's outcome: the authoritative entry count of the final
    /// memory map, or the status of a failed exit (the map-changed race).
    ExitOutcome(Result<usize, BootStatus>),
    /// The final record value written to its slot.
    RecordPatched,
    /// The kernel entry returned control, which it never may.
    KernelReturned,
}

/// The next piece of outside work the driving loop must perform for the
/// boot attempt to advance.
#[derive(Debug)]
pub enum Action {
    /// Query the active display mode and report `GraphicsMode`.
    QueryGraphics,
    /// Open the kernel file under the architecture's fixed path, read it
    /// fully, and report `FileRead`.
    AcquireImage,
    /// For each materialized segment in order: allocate its page count of
    /// fresh physical pages and copy its bytes there. Report
    /// `SegmentsPlaced`.
    PlaceSegments { segments: Vec<LoadedSegment> },
    /// Allocate this many bytes for the handoff record, in a memory class
    /// that survives the environment exit. Report `RecordSlot`.
    AllocateRecord { bytes: usize },
    /// Write `record` at `record_addr`, then query the memory-map size and
    /// allocate its permanent buffer. Report `MapPrepared`.
    SnapshotMap { record_addr: u64, record: BootInfo },
    /// Write `record` at `record_addr`, then invoke the environment exit.
    /// Report `ExitOutcome`.
    ExitEnvironment { record_addr: u64, record: BootInfo },
    /// Write the finalized `record` at `record_addr` — a direct memory
    /// write, the only kind of work still allowed. Report `RecordPatched`.
    FinalizeRecord { record_addr: u64, record: BootInfo },
    /// Jump to the entry point with the record's address as the one
    /// argument. This transfer never returns.
    Jump { entry: u64, record_addr: u64 },
    /// Report the failed attempt to the firmware with this status.
    Report { status: BootStatus },
    /// Halt the processor; nothing can be reported any more.
    Halt,
}

/// The kind of an action, payload-free.
#[derive(Clone, Copy, Debug, PartialEq, Eq, Structural)]
pub enum ActionKind {
    QueryGraphics,
    AcquireImage,
    PlaceSegments,
    AllocateRecord,
    SnapshotMap,
    ExitEnvironment,
    FinalizeRecord,
    Jump,
    Report,
    Halt,
}

/// The mathematical image of an action: its kind and every payload field,
/// with a zero default for the fields its kind does not carry.
pub ghost struct ActionModel {
    pub kind: ActionKind,
    pub segments: Seq<SegModel>,
    pub bytes: usize,
    pub record_addr: u64,
    pub record: BootInfo,
    pub entry: u64,
    pub status: BootStatus,
}

/// The model of an action of kind `kind` with every payload field at its
/// zero default.
pub open spec fn blank_model(kind: ActionKind) -> ActionModel {
    ActionModel {
        kind,
        segments: Seq::empty(),
        bytes: 0,
        record_addr: 0,
        record: BootInfo {
            memory_map_addr: 0,
            memory_map_size: 0,
            memory_map_entry_size: 0,
            framebuffer_addr: 0,
            framebuffer_width: 0,
            framebuffer_height: 0,
            framebuffer_stride: 0,
        },
        entry: 0,
        status: BootStatus::InvalidParameter,
    }
}

impl Action {
    /// The model of this action.
    pub open spec fn model(self) -> ActionModel {
        match self {
            Action::QueryGraphics => blank_model(ActionKind::QueryGraphics),
            Action::AcquireImage => blank_model(ActionKind::AcquireImage),
            Action::PlaceSegments { segments } => ActionModel {
                segments: seg_views(segments@),
                ..blank_model(ActionKind::PlaceSegments)
            },
            Action::AllocateRecord { bytes } => ActionModel {
                bytes,
                ..blank_model(ActionKind::AllocateRecord)
            },
            Action::SnapshotMap { record_addr, record } => ActionModel {
                record_addr,
                record,
                ..blank_model(ActionKind::SnapshotMap)
            },
            Action::ExitEnvironment { record_addr, record } => ActionModel {
                record_addr,
                record,
                ..blank_model(ActionKind::ExitEnvironment)
            },
            Action::FinalizeRecord { record_addr, record } => ActionModel {
                record_addr,
                record,
                ..blank_model(ActionKind::FinalizeRecord)
            },
            Action::Jump { entry, record_addr } => ActionModel {
                entry,
                record_addr,
                ..blank_model(ActionKind::Jump)
            },
            Action::Report { status } => ActionModel {
                status,
                ..blank_model(ActionKind::Report)
            },
            Action::Halt => blank_model(ActionKind::Halt),
        }
    }
}

/// Whether an action of this kind invokes a firmware service: a query, an
/// allocation, a file read, the exit call itself, or returning a status
/// into the firmware. Only direct memory writes (`FinalizeRecord`), the
/// final jump, and halting the processor work without one.
pub open spec fn uses_firmware_services(k: ActionKind) -> bool {
    match k {
        ActionKind::QueryGraphics => true,
        ActionKind::AcquireImage => true,
        ActionKind::PlaceSegments => true,
        ActionKind::AllocateRecord => true,
        ActionKind::SnapshotMap => true,
        ActionKind::ExitEnvironment => true,
        ActionKind::Report => true,
        ActionKind::FinalizeRecord => false,
        ActionKind::Jump => false,
        ActionKind::Halt => false,
    }
}

/// Whether this phase lies at or past the successful environment exit.
pub open spec fn past_exit(p: Phase) -> bool {
    p == Phase::EnvironmentExited || p == Phase::Dispatched || p == Phase::Halted
}

/// How far along the forward chain a phase lies; the two failure sinks
/// rank past every station.
pub open spec fn phase_rank(p: Phase) -> int {
    match p {
        Phase::Start => 0,
        Phase::GraphicsReady => 1,
        Phase::ImageLoaded => 2,
        Phase::RecordAllocated => 3,
        Phase::MapSnapshotted => 4,
        Phase::EnvironmentExited => 5,
        Phase::Dispatched => 6,
        Phase::Aborted => 7,
        Phase::Halted => 7,
    }
}

/// The ordering-critical driver of one boot attempt. It owns no firmware
/// handle: it consumes the events the driving loop reports and decides,
/// from phase and event alone, the next state and the next action, so that
/// the whole schedule — and in particular that nothing asks the firmware
/// for anything once the environment exit has succeeded — is decided here
/// and nowhere else.
pub struct Sequencer {
    pub arch: Arch,
    pub phase: Phase,
    pub fb: FramebufferInfo,
    pub entry: u64,
    pub record_addr: u64,
    pub builder: HandoffBuilder,
    pub retries_left: u32,
    pub status: BootStatus,
}

/// The state and action-model of a pre-exit abort: the phase falls to
/// `Aborted` and the status is reported to the firmware.
pub open spec fn abort_model(s: Sequencer, st: BootStatus) -> (Sequencer, ActionModel) {
    (
        Sequencer { phase: Phase::Aborted, status: st, ..s },
        ActionModel { status: st, ..blank_model(ActionKind::Report) },
    )
}

/// The state and action-model of a post-exit failure: the phase falls to
/// `Halted` and the processor is halted.
pub open spec fn halt_model(s: Sequencer) -> (Sequencer, ActionModel) {
    (Sequencer { phase: Phase::Halted, ..s }, blank_model(ActionKind::Halt))
}

/// The record value the first write pass carries: framebuffer fields from
/// the queried mode, every memory-map field a zero placeholder.
pub open spec fn fresh_builder(fb: FramebufferInfo) -> HandoffBuilder {
    HandoffBuilder {
        record: BootInfo {
            memory_map_addr: 0,
            memory_map_size: 0,
            memory_map_entry_size: 0,
            framebuffer_addr: fb.addr,
            framebuffer_width: fb.width,
            framebuffer_height: fb.height,
            framebuffer_stride: fb.stride,
        },
        finalized: false,
    }
}

/// The whole transition relation of the sequencer: for every state and
/// every event, the successor state and the model of the action emitted.
/// An event that does not answer the phase's pending action is a protocol
/// violation: fatal, reported while the firmware can still hear it, a halt
/// afterwards.
pub open spec fn spec_step(s: Sequencer, e: Event) -> (Sequencer, ActionModel) {
    match (s.phase, e) {
        (Phase::Start, Event::GraphicsMode(Some(fb))) => (
            Sequencer { phase: Phase::GraphicsReady, fb, builder: fresh_builder(fb), ..s },
            blank_model(ActionKind::AcquireImage),
        ),
        (Phase::Start, Event::GraphicsMode(None)) => abort_model(s, BootStatus::DeviceError),
        (Phase::GraphicsReady, Event::FileRead(Ok(bytes))) => match spec_stage_image(
            bytes@,
            s.arch,
        ) {
            Err(st) => abort_model(s, st),
            Ok(m) => (
                Sequencer { phase: Phase::ImageLoaded, entry: m.1, ..s },
                ActionModel { segments: m.0, ..blank_model(ActionKind::PlaceSegments) },
            ),
        },
        (Phase::GraphicsReady, Event::FileRead(Err(st))) => abort_model(s, st),
        (Phase::ImageLoaded, Event::SegmentsPlaced(Ok(_))) => (
            s,
            ActionModel { bytes: RECORD_BYTES, ..blank_model(ActionKind::AllocateRecord) },
        ),
        (Phase::ImageLoaded, Event::SegmentsPlaced(Err(st))) => abort_model(s, st),
        (Phase::ImageLoaded, Event::RecordSlot(Ok(addr))) => (
            Sequencer { phase: Phase::RecordAllocated, record_addr: addr, ..s },
            ActionModel {
                record_addr: addr,
                record: s.builder.record,
                ..blank_model(ActionKind::SnapshotMap)
            },
        ),
        (Phase::ImageLoaded, Event::RecordSlot(Err(st))) => abort_model(s, st),
        (Phase::RecordAllocated, Event::MapPrepared(Ok(mi))) => if s.builder.finalized {
            abort_model(s, BootStatus::InvalidParameter)
        } else {
            (
                Sequencer {
                    phase: Phase::MapSnapshotted,
                    builder: HandoffBuilder {
                        record: BootInfo {
                            memory_map_addr: mi.buffer_addr,
                            memory_map_entry_size: mi.entry_size,
                            ..s.builder.record
                        },
                        finalized: false,
                    },
                    ..s
                },
                ActionModel {
                    record_addr: s.record_addr,
                    record: BootInfo {
                        memory_map_addr: mi.buffer_addr,
                        memory_map_entry_size: mi.entry_size,
                        ..s.builder.record
                    },
                    ..blank_model(ActionKind::ExitEnvironment)
                },
            )
        },
        (Phase::RecordAllocated, Event::MapPrepared(Err(st))) => abort_model(s, st),
        (Phase::MapSnapshotted, Event::ExitOutcome(Ok(count))) => if s.builder.finalized {
            abort_model(s, BootStatus::InvalidParameter)
        } else if count * s.builder.record.memory_map_entry_size <= usize::MAX {
            (
                Sequencer {
                    phase: Phase::EnvironmentExited,
                    builder: HandoffBuilder {
                        record: BootInfo {
                            memory_map_size: (count
                                * s.builder.record.memory_map_entry_size) as usize,
                            ..s.builder.record
                        },
                        finalized: true,
                    },
                    ..s
                },
                ActionModel {
                    record_addr: s.record_addr,
                    record: BootInfo {
                        memory_map_size: (count
                            * s.builder.record.memory_map_entry_size) as usize,
                        ..s.builder.record
                    },
                    ..blank_model(ActionKind::FinalizeRecord)
                },
            )
        } else {
            halt_model(s)
        },
        (Phase::MapSnapshotted, Event::ExitOutcome(Err(st))) => if s.retries_left > 0 {
            (
                Sequencer { retries_left: (s.retries_left - 1) as u32, ..s },
                ActionModel {
                    record_addr: s.record_addr,
                    record: s.builder.record,
                    ..blank_model(ActionKind::ExitEnvironment)
                },
            )
        } else {
            abort_model(s, st)
        },
        (Phase::EnvironmentExited, Event::RecordPatched) => (
            Sequencer { phase: Phase::Dispatched, ..s },
            ActionModel {
                entry: s.entry,
                record_addr: s.record_addr,
                ..blank_model(ActionKind::Jump)
            },
        ),
        (Phase::Aborted, _) => (
            s,
            ActionModel { status: s.status, ..blank_model(ActionKind::Report) },
        ),
        (Phase::Halted, _) => (s, blank_model(ActionKind::Halt)),
        (Phase::EnvironmentExited, _) => halt_model(s),
        (Phase::Dispatched, _) => halt_model(s),
        (_, _) => abort_model(s, BootStatus::InvalidParameter),
    }
}

impl Sequencer {
    /// Starts a boot attempt for `arch`: phase `Start`, every captured
    /// value still zero, the full retry budget for the exit race.
    pub fn new(arch: Arch) -> (r: Sequencer)
        ensures
            r == (Sequencer {
                arch,
                phase: Phase::Start,
                fb: FramebufferInfo { addr: 0, width: 0, height: 0, stride: 0 },
                entry: 0,
                record_addr: 0,
                builder: fresh_builder(FramebufferInfo { addr: 0, width: 0, height: 0, stride: 0 }),
                retries_left: EXIT_RETRIES,
                status: BootStatus::InvalidParameter,
            }),
    {
        Sequencer {
            arch,
            phase: Phase::Start,
            fb: FramebufferInfo::zeroed(),
            entry: 0,
            record_addr: 0,
            builder: HandoffBuilder::new(FramebufferInfo::zeroed()),
            retries_left: EXIT_RETRIES,
            status: BootStatus::InvalidParameter,
        }
    }

    /// The first piece of outside work of every boot attempt: query the
    /// display mode. With no display there is no way to report anything,
    /// so the attempt cannot begin anywhere else.
    pub fn initial_action(&self) -> (r: Action)
        ensures
            r is QueryGraphics,
    {
        Action::QueryGraphics
    }

    /// Advances the boot attempt by one event, exactly as the transition
    /// relation `spec_step` prescribes, and returns the next action for
    /// the driving loop.
    pub fn step(&mut self, event: Event) -> (r: Action)
        ensures
            *final(self) == spec_step(*old(self), event).0,
            r.model() == spec_step(*old(self), event).1,
    {
        match (self.phase, event) {
            (Phase::Start, Event::GraphicsMode(Some(fb))) => {
                self.phase = Phase::GraphicsReady;
                self.fb = fb;
                self.builder = HandoffBuilder::new(fb);
                Action::AcquireImage
            },
            (Phase::Start, Event::GraphicsMode(None)) => self.abort(BootStatus::DeviceError),
            (Phase::GraphicsReady, Event::FileRead(Ok(bytes))) => {
                match stage_image(&bytes, self.arch) {
                    Err(st) => self.abort(st),
                    Ok((segments, entry)) => {
                        self.phase = Phase::ImageLoaded;
                        self.entry = entry;
                        Action::PlaceSegments { segments }
                    },
                }
            },
            (Phase::GraphicsReady, Event::FileRead(Err(st))) => self.abort(st),
            (Phase::ImageLoaded, Event::SegmentsPlaced(Ok(_))) => Action::AllocateRecord {
                bytes: RECORD_BYTES,
            },
            (Phase::ImageLoaded, Event::SegmentsPlaced(Err(st))) => self.abort(st),
            (Phase::ImageLoaded, Event::RecordSlot(Ok(addr))) => {
                self.phase = Phase::RecordAllocated;
                self.record_addr = addr;
                Action::SnapshotMap { record_addr: addr, record: self.builder.record }
            },
            (Phase::ImageLoaded, Event::RecordSlot(Err(st))) => self.abort(st),
            (Phase::RecordAllocated, Event::MapPrepared(Ok(mi))) => {
                if self.builder.finalized {
                    self.abort(BootStatus::InvalidParameter)
                } else {
                    self.builder.set_map_location(mi.buffer_addr, mi.entry_size);
                    self.phase = Phase::MapSnapshotted;
                    Action::ExitEnvironment {
                        record_addr: self.record_addr,
                        record: self.builder.record,
                    }
                }
            },
            (Phase::RecordAllocated, Event::MapPrepared(Err(st))) => self.abort(st),
            (Phase::MapSnapshotted, Event::ExitOutcome(Ok(count))) => {
                if self.builder.finalized {
                    self.abort(BootStatus::InvalidParameter)
                } else if self.builder.finalize(count) {
                    self.phase = Phase::EnvironmentExited;
                    Action::FinalizeRecord {
                        record_addr: self.record_addr,
                        record: self.builder.record,
                    }
                } else {
                    self.phase = Phase::Halted;
                    Action::Halt
                }
            },
            (Phase::MapSnapshotted, Event::ExitOutcome(Err(st))) => {
                if self.retries_left > 0 {
                    self.retries_left = self.retries_left - 1;
                    Action::ExitEnvironment {
                        record_addr: self.record_addr,
                        record: self.builder.record,
                    }
                } else {
                    self.abort(st)
                }
            },
            (Phase::EnvironmentExited, Event::RecordPatched) => {
                self.phase = Phase::Dispatched;
                Action::Jump { entry: self.entry, record_addr: self.record_addr }
            },
            (Phase::Aborted, _) => Action::Report { status: self.status },
            (Phase::Halted, _) => Action::Halt,
            (Phase::EnvironmentExited, _) => {
                self.phase = Phase::Halted;
                Action::Halt
            },
            (Phase::Dispatched, _) => {
                self.phase = Phase::Halted;
                Action::Halt
            },
            (_, _) => self.abort(BootStatus::InvalidParameter),
        }
    }

    /// Records a pre-exit fatal failure and emits its report.
    fn abort(&mut self, st: BootStatus) -> (r: Action)
        ensures
            *final(self) == (Sequencer { phase: Phase::Aborted, status: st, ..*old(self) }),
            r.model() == abort_model(*old(self), st).1,
    {
        self.phase = Phase::Aborted;
        self.status = st;
        Action::Report { status: st }
    }
}

/// The design rule that shapes the whole machine: from any state at or
/// past the successful environment exit, no event whatsoever makes the
/// sequencer emit an action that invokes a firmware service — only the
/// direct record write, the jump, and halting remain — and no event leads
/// back to a pre-exit phase.
pub proof fn lemma_no_services_past_exit(s: Sequencer, e: Event)
    requires
        past_exit(s.phase),
    ensures
        !uses_firmware_services(spec_step(s, e).1.kind),
        past_exit(spec_step(s, e).0.phase),
{
}

/// No backward transitions: every step keeps or advances the phase along
/// the ordered chain, and the failure sinks are never left.
pub proof fn lemma_phase_monotone(s: Sequencer, e: Event)
    ensures
        phase_rank(spec_step(s, e).0.phase) >= phase_rank(s.phase),
{
}

/// Field stability of the two-phase record write: when the exit call
/// reports `count` entries, the finalize action writes a record whose
/// memory-map byte length is exactly `count` times the recorded per-entry
/// stride — whatever provisional length stood in the record before — and
/// whose other fields are untouched.
pub proof fn lemma_final_map_size(s: Sequencer, count: usize)
    requires
        s.phase == Phase::MapSnapshotted,
        !s.builder.finalized,
        count * s.builder.record.memory_map_entry_size <= usize::MAX,
    ensures
        ({
            let (s2, a) = spec_step(s, Event::ExitOutcome(Ok(count)));
            &&& s2.phase == Phase::EnvironmentExited
            &&& a.kind == ActionKind::FinalizeRecord
            &&& a.record_addr == s.record_addr
            &&& a.record.memory_map_size == count * s.builder.record.memory_map_entry_size
            &&& a.record.memory_map_entry_size == s.builder.record.memory_map_entry_size
            &&& a.record.memory_map_addr == s.builder.record.memory_map_addr
            &&& a.record.framebuffer_addr == s.builder.record.framebuffer_addr
            &&& a.record.framebuffer_width == s.builder.record.framebuffer_width
            &&& a.record.framebuffer_height == s.builder.record.framebuffer_height
            &&& a.record.framebuffer_stride == s.builder.record.framebuffer_stride
            &&& s2.builder.record == a.record
            &&& s2.builder.finalized
        }),
{
}

} // verus!
