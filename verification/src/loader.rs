use vstd::prelude::*;

use crate::config::Arch;
use crate::elf::{
    phdr_at, header_valid, le16, le64, ElfHeader, ProgramHeader, HEADER_BYTES, PHDR_BYTES, PT_LOAD,
};
use crate::status::BootStatus;

verus! {

/// Size in bytes of one physical page.
pub const PAGE_BYTES: u64 = 0x1000;

/// Mathematical image of one materialized segment: the virtual address it
/// was declared at, the count of fresh pages its allocation takes, and the
/// exact bytes that end up in memory.
pub ghost struct SegModel {
    pub vaddr: u64,
    pub pages: u64,
    pub bytes: Seq<u8>,
}

/// One loadable segment, materialized: `bytes` holds the on-disk part
/// followed by the zero-filled tail, and `pages` is the page count its
/// allocation requires.
#[derive(Debug)]
pub struct LoadedSegment {
    pub vaddr: u64,
    pub pages: u64,
    pub bytes: Vec<u8>,
}

impl View for LoadedSegment {
    type V = SegModel;

    open spec fn view(&self) -> SegModel {
        SegModel { vaddr: self.vaddr, pages: self.pages, bytes: self.bytes@ }
    }
}

/// The models of a sequence of materialized segments.
pub open spec fn seg_views(v: Seq<LoadedSegment>) -> Seq<SegModel> {
    v.map_values(|s: LoadedSegment| s@)
}

/// Pages needed for a segment of `memsz` bytes: `memsz / PAGE_BYTES`,
/// rounded up.
pub open spec fn spec_pages_for(memsz: u64) -> u64
    recommends
        memsz + 0xfff <= u64::MAX,
{
    ((memsz + 0xfff) / (PAGE_BYTES as int)) as u64
}

/// Computes the page count covering `memsz` bytes.
pub fn pages_for(memsz: u64) -> (r: u64)
    requires
        memsz + 0xfff <= u64::MAX,
    ensures
        r == spec_pages_for(memsz),
{
    (memsz + 0xfff) / PAGE_BYTES
}

/// What materializing one segment descriptor yields: the exact bytes
/// (on-disk part copied, tail zero-filled) on success, or the status the
/// whole load aborts with. A descriptor is rejected when its sizes break
/// the format's invariant (on-disk size above in-memory size), when its
/// on-disk range runs past the image, or when its in-memory size cannot be
/// allocated on this machine.
pub open spec fn spec_load_one(image: Seq<u8>, ph: ProgramHeader) -> Result<SegModel, BootStatus> {
    if ph.p_filesz > ph.p_memsz {
        Err(BootStatus::InvalidParameter)
    } else if ph.p_offset + ph.p_filesz > image.len() {
        Err(BootStatus::InvalidParameter)
    } else if ph.p_memsz > usize::MAX {
        Err(BootStatus::OutOfResources)
    } else if ph.p_memsz + 0xfff > u64::MAX {
        Err(BootStatus::OutOfResources)
    } else {
        Ok(
            SegModel {
                vaddr: ph.p_vaddr,
                pages: spec_pages_for(ph.p_memsz),
                bytes: image.subrange(
                    ph.p_offset as int,
                    ph.p_offset + ph.p_filesz,
                ) + Seq::new((ph.p_memsz - ph.p_filesz) as nat, |j: int| 0u8),
            },
        )
    }
}

/// Materializes one loadable segment from `image`: bounds-checks the
/// descriptor, copies its `p_filesz` on-disk bytes verbatim, and zero-fills
/// the `p_memsz - p_filesz` tail that exists only in memory. The copy and
/// the fill are exact: the first `p_filesz` destination bytes equal the
/// image bytes at the segment's file offset, and every later byte is zero.
pub fn load_segment(image: &Vec<u8>, ph: &ProgramHeader) -> (r: Result<
    LoadedSegment,
    BootStatus,
>)
    ensures
        r matches Ok(seg) ==> {
            &&& spec_load_one(image@, *ph) == Ok::<SegModel, BootStatus>(seg@)
            &&& seg.bytes@.len() == ph.p_memsz
            &&& (forall|j: int|
                0 <= j < ph.p_filesz ==> seg.bytes@[j] == image@[ph.p_offset + j])
            &&& (forall|j: int| ph.p_filesz <= j < ph.p_memsz ==> seg.bytes@[j] == 0)
            &&& seg.vaddr == ph.p_vaddr
            &&& seg.pages == spec_pages_for(ph.p_memsz)
        },
        r matches Err(e) ==> spec_load_one(image@, *ph) == Err::<SegModel, BootStatus>(e),
{
    let len = image.len();
    if ph.p_filesz > ph.p_memsz {
        return Err(BootStatus::InvalidParameter);
    }
    if ph.p_offset > len as u64 || ph.p_filesz > len as u64 - ph.p_offset {
        return Err(BootStatus::InvalidParameter);
    }
    if ph.p_memsz > usize::MAX as u64 {
        return Err(BootStatus::OutOfResources);
    }
    if ph.p_memsz > u64::MAX - 0xfff {
        return Err(BootStatus::OutOfResources);
    }
    let off: usize = ph.p_offset as usize;
    let filesz: usize = ph.p_filesz as usize;
    let memsz: usize = ph.p_memsz as usize;
    let mut bytes: Vec<u8> = Vec::new();
    // Copy the on-disk part of the segment verbatim.
    let mut j: usize = 0;
    while j < filesz
        invariant
            j <= filesz,
            filesz <= memsz,
            off + filesz <= image@.len(),
            image@.len() <= usize::MAX,
            off == ph.p_offset,
            filesz == ph.p_filesz,
            memsz == ph.p_memsz,
            bytes@.len() == j,
            forall|k: int| 0 <= k < j ==> bytes@[k] == image@[off + k],
        decreases filesz - j,
    {
        bytes.push(image[off + j]);
        j += 1;
    }
    // Zero-fill the tail that exists only in memory.
    while j < memsz
        invariant
            filesz <= j <= memsz,
            off + filesz <= image@.len(),
            off == ph.p_offset,
            filesz == ph.p_filesz,
            memsz == ph.p_memsz,
            bytes@.len() == j,
            forall|k: int| 0 <= k < filesz ==> bytes@[k] == image@[off + k],
            forall|k: int| filesz <= k < j ==> bytes@[k] == 0,
        decreases memsz - j,
    {
        bytes.push(0);
        j += 1;
    }
    proof {
        assert(bytes@ =~= image@.subrange(ph.p_offset as int, ph.p_offset + ph.p_filesz)
            + Seq::new((ph.p_memsz - ph.p_filesz) as nat, |k: int| 0u8));
    }
    Ok(LoadedSegment { vaddr: ph.p_vaddr, pages: pages_for(ph.p_memsz), bytes })
}

/// What materializing the segment-table entries `[i, n)` yields: the models
/// of the loadable entries in table order (non-loadable entries contribute
/// nothing), or the status of the first entry whose materialization fails.
pub open spec fn spec_load_entries(
    image: Seq<u8>,
    phoff: int,
    entsize: int,
    n: int,
    i: int,
) -> Result<Seq<SegModel>, BootStatus>
    decreases n - i,
{
    if i >= n {
        Ok(Seq::empty())
    } else {
        let ph = phdr_at(image, phoff + i * entsize);
        if ph.p_type != PT_LOAD {
            spec_load_entries(image, phoff, entsize, n, i + 1)
        } else {
            match spec_load_one(image, ph) {
                Err(e) => Err(e),
                Ok(m) => match spec_load_entries(image, phoff, entsize, n, i + 1) {
                    Err(e) => Err(e),
                    Ok(rest) => Ok(seq![m] + rest),
                },
            }
        }
    }
}

/// What the whole load yields: the table shape is checked against the image
/// bounds, then the entries are materialized in order.
pub open spec fn spec_load(
    image: Seq<u8>,
    phoff: u64,
    entsize: u16,
    phnum: u16,
) -> Result<Seq<SegModel>, BootStatus> {
    if entsize < PHDR_BYTES {
        Err(BootStatus::InvalidParameter)
    } else if phoff + phnum * entsize > image.len() {
        Err(BootStatus::InvalidParameter)
    } else {
        spec_load_entries(image, phoff as int, entsize as int, phnum as int, 0)
    }
}

/// A segment table holding no loadable entry materializes nothing: no
/// segment comes out, and so no page allocation is requested.
pub proof fn lemma_no_loadable_no_segments(
    image: Seq<u8>,
    phoff: int,
    entsize: int,
    n: int,
    i: int,
)
    requires
        forall|k: int|
            i <= k < n ==> (#[trigger] phdr_at(image, phoff + k * entsize)).p_type != PT_LOAD,
    ensures
        spec_load_entries(image, phoff, entsize, n, i) == Ok::<Seq<SegModel>, BootStatus>(
            Seq::empty(),
        ),
    decreases (if i < n { n - i } else { 0 }),
{
    if i < n {
        lemma_no_loadable_no_segments(image, phoff, entsize, n, i + 1);
    }
}

/// Materializes every loadable segment of `image` in table order, as the
/// already validated `header` describes the table, and returns them with
/// the header's entry-point address, unchanged. Each non-loadable entry is
/// skipped with no effect; the first failing entry aborts the whole load
/// with its status.
///
/// The entry point is neither relocated nor checked against the pages the
/// segments will actually land in: the declared virtual addresses are
/// assumed directly usable where the jump happens, as the format's
/// identity-mapped execution environment provides.
#[verifier::rlimit(50)]
pub fn load(image: &Vec<u8>, header: &ElfHeader) -> (r: Result<
    (Vec<LoadedSegment>, u64),
    BootStatus,
>)
    ensures
        r matches Ok(out) ==> {
            &&& spec_load(image@, header.e_phoff, header.e_phentsize, header.e_phnum)
                == Ok::<Seq<SegModel>, BootStatus>(seg_views(out.0@))
            &&& out.1 == header.entry_point
        },
        r matches Err(e) ==> spec_load(image@, header.e_phoff, header.e_phentsize, header.e_phnum)
            == Err::<Seq<SegModel>, BootStatus>(e),
{
    let len = image.len();
    if header.e_phentsize < PHDR_BYTES as u16 {
        return Err(BootStatus::InvalidParameter);
    }
    proof {
        assert((header.e_phnum as int) * (header.e_phentsize as int) < 0x100000000int)
            by (nonlinear_arith)
            requires
                header.e_phnum <= 0xffff,
                header.e_phentsize <= 0xffff,
        ;
    }
    let table: u64 = (header.e_phnum as u64) * (header.e_phentsize as u64);
    if header.e_phoff > len as u64 || table > len as u64 - header.e_phoff {
        return Err(BootStatus::InvalidParameter);
    }
    let ghost phoff_g: int = header.e_phoff as int;
    let ghost entsize_g: int = header.e_phentsize as int;
    let ghost n_g: int = header.e_phnum as int;
    let mut segs: Vec<LoadedSegment> = Vec::new();
    let mut i: usize = 0;
    let phnum: usize = header.e_phnum as usize;
    while i < phnum
        invariant
            i <= phnum,
            phnum == header.e_phnum,
            phoff_g == header.e_phoff,
            entsize_g == header.e_phentsize,
            n_g == header.e_phnum,
            entsize_g >= PHDR_BYTES,
            phoff_g + n_g * entsize_g <= image@.len(),
            image@.len() <= usize::MAX,
            spec_load_entries(image@, phoff_g, entsize_g, n_g, i as int) matches Ok(rest)
                ==> spec_load_entries(image@, phoff_g, entsize_g, n_g, 0)
                == Ok::<Seq<SegModel>, BootStatus>(seg_views(segs@) + rest),
            spec_load_entries(image@, phoff_g, entsize_g, n_g, i as int) is Err
                ==> spec_load_entries(image@, phoff_g, entsize_g, n_g, 0)
                == spec_load_entries(image@, phoff_g, entsize_g, n_g, i as int),
        decreases phnum - i,
    {
        proof {
            assert((i + 1) * entsize_g <= n_g * entsize_g) by (nonlinear_arith)
                requires
                    i + 1 <= n_g,
                    entsize_g >= 0,
            ;
            assert((i as int) * entsize_g + entsize_g == (i + 1) * entsize_g) by (nonlinear_arith);
            assert((i as int) * entsize_g >= 0) by (nonlinear_arith)
                requires
                    i >= 0,
                    entsize_g >= 0,
            ;
        }
        let off64: u64 = header.e_phoff + (i as u64) * (header.e_phentsize as u64);
        let off: usize = off64 as usize;
        let ph = ProgramHeader::parse(image, off);
        let ghost prev_suffix = spec_load_entries(image@, phoff_g, entsize_g, n_g, i as int);
        let ghost next_suffix = spec_load_entries(image@, phoff_g, entsize_g, n_g, i + 1);
        if ph.p_type == PT_LOAD {
            match load_segment(image, &ph) {
                Err(e) => {
                    proof {
                        assert(prev_suffix == Err::<Seq<SegModel>, BootStatus>(e));
                    }
                    return Err(e);
                },
                Ok(seg) => {
                    let ghost old_segs = segs@;
                    segs.push(seg);
                    proof {
                        assert(seg_views(segs@) =~= seg_views(old_segs) + seq![seg@]);
                        if next_suffix is Ok {
                            assert(prev_suffix matches Ok(r) && r == seq![seg@]
                                + next_suffix->Ok_0);
                            assert(seg_views(old_segs) + (seq![seg@] + next_suffix->Ok_0)
                                =~= seg_views(segs@) + next_suffix->Ok_0);
                        } else {
                            assert(prev_suffix == next_suffix);
                        }
                    }
                },
            }
        } else {
            proof {
                assert(prev_suffix == next_suffix);
            }
        }
        i += 1;
    }
    proof {
        assert(spec_load_entries(image@, phoff_g, entsize_g, n_g, phnum as int)
            == Ok::<Seq<SegModel>, BootStatus>(Seq::empty()));
        assert(seg_views(segs@) + Seq::<SegModel>::empty() =~= seg_views(segs@));
    }
    Ok((segs, header.entry_point))
}

/// What acquiring and staging a kernel image yields: an image shorter than
/// one header (an empty file in particular) or one whose header fails
/// validation is rejected as invalid, and otherwise the load runs on the
/// table the header describes; on success the loadable segments' models and
/// the header's entry point come out.
pub open spec fn spec_stage_image(s: Seq<u8>, arch: Arch) -> Result<
    (Seq<SegModel>, u64),
    BootStatus,
> {
    if s.len() < HEADER_BYTES {
        Err(BootStatus::InvalidParameter)
    } else if !header_valid(s, arch) {
        Err(BootStatus::InvalidParameter)
    } else {
        match spec_load(s, le64(s, 32), le16(s, 54), le16(s, 56)) {
            Err(e) => Err(e),
            Ok(models) => Ok((models, le64(s, 24))),
        }
    }
}

/// Validates and materializes a kernel image read from disk: parses the
/// header, runs every validation check for `arch`, and loads the segments
/// the table describes. An empty or truncated file and a header failing any
/// check are rejected as invalid with no segment materialized.
pub fn stage_image(image: &Vec<u8>, arch: Arch) -> (r: Result<
    (Vec<LoadedSegment>, u64),
    BootStatus,
>)
    ensures
        r matches Ok(out) ==> {
            &&& spec_stage_image(image@, arch) matches Ok(m)
            &&& seg_views(out.0@) == m.0
            &&& out.1 == m.1
        },
        r matches Err(e) ==> spec_stage_image(image@, arch) == Err::<
            (Seq<SegModel>, u64),
            BootStatus,
        >(e),
{
    let header = match ElfHeader::parse(image) {
        None => {
            return Err(BootStatus::InvalidParameter);
        },
        Some(h) => h,
    };
    proof {
        assert(header.valid_spec(arch) == header_valid(image@, arch));
    }
    if !header.is_valid(arch) {
        return Err(BootStatus::InvalidParameter);
    }
    match load(image, &header) {
        Err(e) => Err(e),
        Ok(out) => Ok(out),
    }
}

} // verus!
