use vstd::prelude::*;

verus! {

/// Size in bytes of the handoff record as laid out for the 64-bit targets
/// this loader serves: seven fields of eight bytes each, in declaration
/// order. The layout is a binary contract between the loader and the
/// kernel it starts, and must not change on one side alone.
pub const RECORD_BYTES: usize = 56;

/// The sole record crossing the firmware/kernel boundary: where the final
/// memory map lives and how it is strided, and where and how the linear
/// framebuffer is laid out. It is allocated once per boot attempt in memory
/// that survives the environment exit, written in two ordered passes, and
/// owned by the kernel thereafter.
#[derive(Clone, Copy, Debug, PartialEq, Eq, Structural)]
pub struct BootInfo {
    pub memory_map_addr: u64,
    pub memory_map_size: usize,
    pub memory_map_entry_size: usize,
    pub framebuffer_addr: u64,
    pub framebuffer_width: usize,
    pub framebuffer_height: usize,
    pub framebuffer_stride: usize,
}

impl BootInfo {
    /// Builds a record holding the given memory-map facts, with every
    /// framebuffer field still zero.
    pub fn new(memory_map_addr: u64, memory_map_size: usize, memory_map_entry_size: usize) -> (r:
        BootInfo)
        ensures
            r == (BootInfo {
                memory_map_addr,
                memory_map_size,
                memory_map_entry_size,
                framebuffer_addr: 0,
                framebuffer_width: 0,
                framebuffer_height: 0,
                framebuffer_stride: 0,
            }),
    {
        BootInfo {
            memory_map_addr,
            memory_map_size,
            memory_map_entry_size,
            framebuffer_addr: 0,
            framebuffer_width: 0,
            framebuffer_height: 0,
            framebuffer_stride: 0,
        }
    }

    /// Number of whole entries the recorded memory map holds: its byte
    /// length divided by the per-entry stride.
    pub fn memory_map_entry_count(&self) -> (r: usize)
        requires
            self.memory_map_entry_size != 0,
        ensures
            r == self.memory_map_size / self.memory_map_entry_size,
    {
        self.memory_map_size / self.memory_map_entry_size
    }
}

/// Point-in-time facts about the active display mode: linear framebuffer
/// base, resolution in pixels, and scanline stride in pixels (which may
/// exceed the width because of padding).
#[derive(Clone, Copy, Debug, PartialEq, Eq, Structural)]
pub struct FramebufferInfo {
    pub addr: u64,
    pub width: usize,
    pub height: usize,
    pub stride: usize,
}

impl FramebufferInfo {
    /// A framebuffer description with every field zero, used before the
    /// display mode has been queried.
    pub fn zeroed() -> (r: FramebufferInfo)
        ensures
            r == (FramebufferInfo { addr: 0, width: 0, height: 0, stride: 0 }),
    {
        FramebufferInfo { addr: 0, width: 0, height: 0, stride: 0 }
    }
}

/// The two-phase write of the handoff record, made explicit: the first
/// pass fixes the framebuffer fields with the memory-map byte length still
/// a placeholder, a second pass records where the map buffer lives and how
/// it is strided, and the final pass — valid only once, after the
/// environment exit has reported the authoritative entry count — patches
/// the exact byte length in.
pub struct HandoffBuilder {
    pub record: BootInfo,
    pub finalized: bool,
}

impl HandoffBuilder {
    /// Starts the record: framebuffer fields from the queried display mode,
    /// every memory-map field a zero placeholder.
    pub fn new(fb: FramebufferInfo) -> (r: HandoffBuilder)
        ensures
            r == (HandoffBuilder {
                record: BootInfo {
                    memory_map_addr: 0,
                    memory_map_size: 0,
                    memory_map_entry_size: 0,
                    framebuffer_addr: fb.addr,
                    framebuffer_width: fb.width,
                    framebuffer_height: fb.height,
                    framebuffer_stride: fb.stride,
                },
                finalized: false,
            }),
    {
        HandoffBuilder {
            record: BootInfo {
                memory_map_addr: 0,
                memory_map_size: 0,
                memory_map_entry_size: 0,
                framebuffer_addr: fb.addr,
                framebuffer_width: fb.width,
                framebuffer_height: fb.height,
                framebuffer_stride: fb.stride,
            },
            finalized: false,
        }
    }

    /// Records where the permanent memory-map buffer lives and its
    /// per-entry stride. The byte length stays provisional.
    pub fn set_map_location(&mut self, addr: u64, entry_size: usize)
        requires
            !old(self).finalized,
        ensures
            *final(self) == (HandoffBuilder {
                record: BootInfo {
                    memory_map_addr: addr,
                    memory_map_entry_size: entry_size,
                    ..old(self).record
                },
                finalized: false,
            }),
    {
        self.record.memory_map_addr = addr;
        self.record.memory_map_entry_size = entry_size;
    }

    /// Patches the final memory-map byte length in: exactly the entry count
    /// the exit call reported times the recorded per-entry stride, whatever
    /// provisional value stood there before. Returns false, changing
    /// nothing, when that product does not fit the platform word.
    pub fn finalize(&mut self, entry_count: usize) -> (r: bool)
        requires
            !old(self).finalized,
        ensures
            r <==> entry_count * old(self).record.memory_map_entry_size <= usize::MAX,
            r ==> *final(self) == (HandoffBuilder {
                record: BootInfo {
                    memory_map_size: (entry_count
                        * old(self).record.memory_map_entry_size) as usize,
                    ..old(self).record
                },
                finalized: true,
            }),
            !r ==> *final(self) == *old(self),
    {
        match entry_count.checked_mul(self.record.memory_map_entry_size) {
            Some(size) => {
                self.record.memory_map_size = size;
                self.finalized = true;
                true
            },
            None => false,
        }
    }
}

} // verus!
