use vstd::prelude::*;

use crate::config::Arch;
use crate::text::{dec_str, hex_byte, hex_str, push_dec, push_hex, push_hex_byte};

verus! {

/// Program header type: null entry.
pub const PT_NULL: u32 = 0;

/// Program header type: loadable segment.
pub const PT_LOAD: u32 = 1;

/// Program header type: dynamic linking information.
pub const PT_DYNAMIC: u32 = 2;

/// Program header type: interpreter path.
pub const PT_INTERP: u32 = 3;

/// Program header type: auxiliary note.
pub const PT_NOTE: u32 = 4;

/// Byte length of the fixed header at offset 0 of the image.
pub const HEADER_BYTES: usize = 64;

/// Byte length of one program header entry as this loader reads it.
pub const PHDR_BYTES: usize = 56;

/// The little-endian 16-bit value held by `s` at offset `i`.
pub open spec fn le16(s: Seq<u8>, i: int) -> u16
    recommends
        0 <= i,
        i + 2 <= s.len(),
{
    (s[i] + s[i + 1] * 0x100) as u16
}

/// The little-endian 32-bit value held by `s` at offset `i`.
pub open spec fn le32(s: Seq<u8>, i: int) -> u32
    recommends
        0 <= i,
        i + 4 <= s.len(),
{
    (s[i] + s[i + 1] * 0x100 + s[i + 2] * 0x10000 + s[i + 3] * 0x1000000) as u32
}

/// The little-endian 64-bit value held by `s` at offset `i`.
pub open spec fn le64(s: Seq<u8>, i: int) -> u64
    recommends
        0 <= i,
        i + 8 <= s.len(),
{
    (s[i] + s[i + 1] * 0x100 + s[i + 2] * 0x10000 + s[i + 3] * 0x1000000 + s[i + 4]
        * 0x100000000 + s[i + 5] * 0x10000000000 + s[i + 6] * 0x1000000000000 + s[i + 7]
        * 0x100000000000000) as u64
}

/// Reads the little-endian 16-bit value of `bytes` at offset `i`.
fn read_le16(bytes: &Vec<u8>, i: usize) -> (r: u16)
    requires
        i + 2 <= bytes@.len(),
    ensures
        r == le16(bytes@, i as int),
{
    let _len = bytes.len();
    let b0 = bytes[i] as u16;
    let b1 = bytes[i + 1] as u16;
    b0 + b1 * 0x100
}

/// Reads the little-endian 32-bit value of `bytes` at offset `i`.
fn read_le32(bytes: &Vec<u8>, i: usize) -> (r: u32)
    requires
        i + 4 <= bytes@.len(),
    ensures
        r == le32(bytes@, i as int),
{
    let _len = bytes.len();
    let b0 = bytes[i] as u32;
    let b1 = bytes[i + 1] as u32;
    let b2 = bytes[i + 2] as u32;
    let b3 = bytes[i + 3] as u32;
    b0 + b1 * 0x100 + b2 * 0x10000 + b3 * 0x1000000
}

/// Reads the little-endian 64-bit value of `bytes` at offset `i`.
fn read_le64(bytes: &Vec<u8>, i: usize) -> (r: u64)
    requires
        i + 8 <= bytes@.len(),
    ensures
        r == le64(bytes@, i as int),
{
    let _len = bytes.len();
    let b0 = bytes[i] as u64;
    let b1 = bytes[i + 1] as u64;
    let b2 = bytes[i + 2] as u64;
    let b3 = bytes[i + 3] as u64;
    let b4 = bytes[i + 4] as u64;
    let b5 = bytes[i + 5] as u64;
    let b6 = bytes[i + 6] as u64;
    let b7 = bytes[i + 7] as u64;
    b0 + b1 * 0x100 + b2 * 0x10000 + b3 * 0x1000000 + b4 * 0x100000000 + b5 * 0x10000000000 + b6
        * 0x1000000000000 + b7 * 0x100000000000000
}

/// The fixed-size record at offset 0 of a kernel image.
///
/// Field meanings follow the 64-bit executable format this loader consumes:
/// an identification block (magic, word-size class, byte order, version),
/// the image type and target architecture, the entry-point virtual address,
/// and the location and shape of the segment table.
#[derive(Clone, Copy, Debug)]
pub struct ElfHeader {
    pub e_ident: [u8; 16],
    pub e_type: u16,
    pub e_machine: u16,
    pub e_version: u32,
    pub entry_point: u64,
    pub e_phoff: u64,
    pub e_shoff: u64,
    pub e_flags: u32,
    pub e_ehsize: u16,
    pub e_phentsize: u16,
    pub e_phnum: u16,
    pub e_shentsize: u16,
    pub e_shnum: u16,
    pub e_shstrndx: u16,
}

/// Whether the first `HEADER_BYTES` bytes of `s` form a header this loader
/// accepts for `arch`: correct magic, 64-bit class, little-endian data,
/// current version, executable type, and the machine code of `arch`.
pub open spec fn header_valid(s: Seq<u8>, arch: Arch) -> bool {
    &&& s.len() >= HEADER_BYTES
    &&& s[0] == 0x7f
    &&& s[1] == 0x45
    &&& s[2] == 0x4c
    &&& s[3] == 0x46
    &&& s[4] == 2
    &&& s[5] == 1
    &&& s[6] == 1
    &&& le16(s, 16) == 2
    &&& le16(s, 18) == arch.machine_code()
}

impl ElfHeader {
    /// Whether this header passes every validation check for `arch`.
    ///
    /// The six checks of the validator, in reporting order: magic, 64-bit
    /// class, little-endian data, current header version, executable type,
    /// and matching machine architecture. Any single failing field makes the
    /// whole conjunction false.
    pub open spec fn valid_spec(self, arch: Arch) -> bool {
        &&& self.e_ident@[0] == 0x7f
        &&& self.e_ident@[1] == 0x45
        &&& self.e_ident@[2] == 0x4c
        &&& self.e_ident@[3] == 0x46
        &&& self.e_ident@[4] == 2
        &&& self.e_ident@[5] == 1
        &&& self.e_ident@[6] == 1
        &&& self.e_type == 2
        &&& self.e_machine == arch.machine_code()
    }

    /// Validates this header for `arch`, short-circuiting on the first
    /// failing check. Returns true exactly when every check passes.
    pub fn is_valid(&self, arch: Arch) -> (r: bool)
        ensures
            r == self.valid_spec(arch),
    {
        // Check the four-byte magic.
        if !(self.e_ident[0] == 0x7f && self.e_ident[1] == 0x45 && self.e_ident[2] == 0x4c
            && self.e_ident[3] == 0x46) {
            return false;
        }
        // Check 64-bit word-size class.
        if self.e_ident[4] != 2 {
            return false;
        }
        // Check little-endian byte order.
        if self.e_ident[5] != 1 {
            return false;
        }
        // Check the current header version.
        if self.e_ident[6] != 1 {
            return false;
        }
        // Check the executable image type.
        if self.e_type != 2 {
            return false;
        }
        // Check the machine architecture this loader was configured for.
        if self.e_machine != arch.machine_code() {
            return false;
        }
        true
    }

    /// Reads the header from the start of `image`, returning `None` when the
    /// image is too short to hold one. No field is interpreted here: the
    /// caller must run `is_valid` before trusting any of them.
    pub fn parse(image: &Vec<u8>) -> (r: Option<ElfHeader>)
        ensures
            r is Some <==> image@.len() >= HEADER_BYTES,
            r matches Some(h) ==> {
                &&& h.e_ident@ == image@.subrange(0, 16)
                &&& h.e_type == le16(image@, 16)
                &&& h.e_machine == le16(image@, 18)
                &&& h.e_version == le32(image@, 20)
                &&& h.entry_point == le64(image@, 24)
                &&& h.e_phoff == le64(image@, 32)
                &&& h.e_shoff == le64(image@, 40)
                &&& h.e_flags == le32(image@, 48)
                &&& h.e_ehsize == le16(image@, 52)
                &&& h.e_phentsize == le16(image@, 54)
                &&& h.e_phnum == le16(image@, 56)
                &&& h.e_shentsize == le16(image@, 58)
                &&& h.e_shnum == le16(image@, 60)
                &&& h.e_shstrndx == le16(image@, 62)
            },
    {
        if image.len() < HEADER_BYTES {
            return None;
        }
        let e_ident: [u8; 16] = [
            image[0],
            image[1],
            image[2],
            image[3],
            image[4],
            image[5],
            image[6],
            image[7],
            image[8],
            image[9],
            image[10],
            image[11],
            image[12],
            image[13],
            image[14],
            image[15],
        ];
        proof {
            assert(e_ident@ =~= image@.subrange(0, 16));
        }
        Some(
            ElfHeader {
                e_ident,
                e_type: read_le16(image, 16),
                e_machine: read_le16(image, 18),
                e_version: read_le32(image, 20),
                entry_point: read_le64(image, 24),
                e_phoff: read_le64(image, 32),
                e_shoff: read_le64(image, 40),
                e_flags: read_le32(image, 48),
                e_ehsize: read_le16(image, 52),
                e_phentsize: read_le16(image, 54),
                e_phnum: read_le16(image, 56),
                e_shentsize: read_le16(image, 58),
                e_shnum: read_le16(image, 60),
                e_shstrndx: read_le16(image, 62),
            },
        )
    }
}

/// The name of a word-size class code.
pub open spec fn class_name(c: u8) -> Seq<char> {
    if c == 1 {
        "32-bit"@
    } else if c == 2 {
        "64-bit"@
    } else {
        "Unknown"@
    }
}

/// Appends the name of word-size class `c` to `out`.
fn push_class_name(out: &mut String, c: u8)
    ensures
        final(out)@ == old(out)@ + class_name(c),
{
    if c == 1 {
        out.append("32-bit");
    } else if c == 2 {
        out.append("64-bit");
    } else {
        out.append("Unknown");
    }
}

/// The name of a byte-order class code.
pub open spec fn data_name(d: u8) -> Seq<char> {
    if d == 1 {
        "Little Endian"@
    } else if d == 2 {
        "Big Endian"@
    } else {
        "Unknown"@
    }
}

/// Appends the name of byte-order class `d` to `out`.
fn push_data_name(out: &mut String, d: u8)
    ensures
        final(out)@ == old(out)@ + data_name(d),
{
    if d == 1 {
        out.append("Little Endian");
    } else if d == 2 {
        out.append("Big Endian");
    } else {
        out.append("Unknown");
    }
}

/// The name of an image type code.
pub open spec fn image_type_name(t: u16) -> Seq<char> {
    if t == 1 {
        "Relocatable"@
    } else if t == 2 {
        "Executable"@
    } else if t == 3 {
        "Shared Object"@
    } else if t == 4 {
        "Core"@
    } else {
        "Unknown"@
    }
}

/// Appends the name of image type `t` to `out`.
fn push_type_name(out: &mut String, t: u16)
    ensures
        final(out)@ == old(out)@ + image_type_name(t),
{
    if t == 1 {
        out.append("Relocatable");
    } else if t == 2 {
        out.append("Executable");
    } else if t == 3 {
        out.append("Shared Object");
    } else if t == 4 {
        out.append("Core");
    } else {
        out.append("Unknown");
    }
}

/// The name of a machine architecture code.
pub open spec fn machine_name(m: u16) -> Seq<char> {
    if m == 3 {
        "x86"@
    } else if m == 20 {
        "PowerPC"@
    } else if m == 21 {
        "PowerPC64"@
    } else if m == 40 {
        "ARM"@
    } else if m == 62 {
        "x86_64"@
    } else if m == 183 {
        "AArch64"@
    } else {
        "Unknown"@
    }
}

/// Appends the name of machine code `m` to `out`.
fn push_machine_name(out: &mut String, m: u16)
    ensures
        final(out)@ == old(out)@ + machine_name(m),
{
    if m == 3 {
        out.append("x86");
    } else if m == 20 {
        out.append("PowerPC");
    } else if m == 21 {
        out.append("PowerPC64");
    } else if m == 40 {
        out.append("ARM");
    } else if m == 62 {
        out.append("x86_64");
    } else if m == 183 {
        out.append("AArch64");
    } else {
        out.append("Unknown");
    }
}

impl ElfHeader {
    /// The exact text `dump_info` renders: every identification byte and
    /// table field of the header, labeled, with the classification each
    /// code stands for.
    pub open spec fn dump_spec(self) -> Seq<char> {
        "ELF header: magic="@ + hex_byte(self.e_ident@[0] as int) + " "@ + hex_byte(
            self.e_ident@[1] as int,
        ) + " "@ + hex_byte(self.e_ident@[2] as int) + " "@ + hex_byte(self.e_ident@[3] as int)
            + " class="@ + dec_str(self.e_ident@[4] as int) + " ("@ + class_name(self.e_ident@[4])
            + ")"@ + " data="@ + dec_str(self.e_ident@[5] as int) + " ("@ + data_name(
            self.e_ident@[5],
        ) + ")"@ + " version="@ + dec_str(self.e_ident@[6] as int) + " osabi="@ + dec_str(
            self.e_ident@[7] as int,
        ) + " type="@ + dec_str(self.e_type as int) + " ("@ + image_type_name(self.e_type) + ")"@
            + " machine="@ + dec_str(self.e_machine as int) + " ("@ + machine_name(self.e_machine)
            + ")"@ + " entry=0x"@ + hex_str(self.entry_point as int) + " phoff=0x"@ + hex_str(
            self.e_phoff as int,
        ) + " phnum="@ + dec_str(self.e_phnum as int) + " phentsize="@ + dec_str(
            self.e_phentsize as int,
        )
    }

    /// Renders the header's fields as one labeled line of text, for
    /// diagnostics: the magic bytes, each identification code with its
    /// meaning, and the entry point and segment-table shape.
    pub fn dump_info(&self) -> (r: String)
        ensures
            r@ == self.dump_spec(),
    {
        let mut out = String::new();
        out.append("ELF header: magic=");
        proof {
            assert(out@ =~= "ELF header: magic="@);
        }
        push_hex_byte(&mut out, self.e_ident[0]);
        out.append(" ");
        push_hex_byte(&mut out, self.e_ident[1]);
        out.append(" ");
        push_hex_byte(&mut out, self.e_ident[2]);
        out.append(" ");
        push_hex_byte(&mut out, self.e_ident[3]);
        out.append(" class=");
        push_dec(&mut out, self.e_ident[4] as u64);
        out.append(" (");
        push_class_name(&mut out, self.e_ident[4]);
        out.append(")");
        out.append(" data=");
        push_dec(&mut out, self.e_ident[5] as u64);
        out.append(" (");
        push_data_name(&mut out, self.e_ident[5]);
        out.append(")");
        out.append(" version=");
        push_dec(&mut out, self.e_ident[6] as u64);
        out.append(" osabi=");
        push_dec(&mut out, self.e_ident[7] as u64);
        out.append(" type=");
        push_dec(&mut out, self.e_type as u64);
        out.append(" (");
        push_type_name(&mut out, self.e_type);
        out.append(")");
        out.append(" machine=");
        push_dec(&mut out, self.e_machine as u64);
        out.append(" (");
        push_machine_name(&mut out, self.e_machine);
        out.append(")");
        out.append(" entry=0x");
        push_hex(&mut out, self.entry_point);
        out.append(" phoff=0x");
        push_hex(&mut out, self.e_phoff);
        out.append(" phnum=");
        push_dec(&mut out, self.e_phnum as u64);
        out.append(" phentsize=");
        push_dec(&mut out, self.e_phentsize as u64);
        proof {
            assert(out@ == self.dump_spec());
        }
        out
    }
}

/// One entry of the segment table: kind, permission flags, file offset,
/// virtual and physical addresses, on-disk and in-memory sizes, alignment.
#[derive(Clone, Copy, Debug, PartialEq, Eq, Structural)]
pub struct ProgramHeader {
    pub p_type: u32,
    pub p_flags: u32,
    pub p_offset: u64,
    pub p_vaddr: u64,
    pub p_paddr: u64,
    pub p_filesz: u64,
    pub p_memsz: u64,
    pub p_align: u64,
}

/// The program header whose `PHDR_BYTES` bytes start at offset `off` of `s`.
pub open spec fn phdr_at(s: Seq<u8>, off: int) -> ProgramHeader {
    ProgramHeader {
        p_type: le32(s, off),
        p_flags: le32(s, off + 4),
        p_offset: le64(s, off + 8),
        p_vaddr: le64(s, off + 16),
        p_paddr: le64(s, off + 24),
        p_filesz: le64(s, off + 32),
        p_memsz: le64(s, off + 40),
        p_align: le64(s, off + 48),
    }
}

/// The name of a segment kind code.
pub open spec fn segment_kind_name(t: u32) -> Seq<char> {
    if t == PT_NULL {
        "NULL"@
    } else if t == PT_LOAD {
        "LOAD"@
    } else if t == PT_DYNAMIC {
        "DYNAMIC"@
    } else if t == PT_INTERP {
        "INTERP"@
    } else if t == PT_NOTE {
        "NOTE"@
    } else {
        "Other"@
    }
}

/// Appends the name of segment kind `t` to `out`.
fn push_segment_kind_name(out: &mut String, t: u32)
    ensures
        final(out)@ == old(out)@ + segment_kind_name(t),
{
    if t == PT_NULL {
        out.append("NULL");
    } else if t == PT_LOAD {
        out.append("LOAD");
    } else if t == PT_DYNAMIC {
        out.append("DYNAMIC");
    } else if t == PT_INTERP {
        out.append("INTERP");
    } else if t == PT_NOTE {
        out.append("NOTE");
    } else {
        out.append("Other");
    }
}

/// The `rwx` rendering of a segment's permission flags: one letter per
/// granted permission, a dash for each withheld one.
pub open spec fn flags_str(f: u32) -> Seq<char> {
    (if f & 4 != 0 {
        "r"@
    } else {
        "-"@
    }) + (if f & 2 != 0 {
        "w"@
    } else {
        "-"@
    }) + (if f & 1 != 0 {
        "x"@
    } else {
        "-"@
    })
}

/// Appends the `rwx` rendering of permission flags `f` to `out`.
fn push_flags(out: &mut String, f: u32)
    ensures
        final(out)@ == old(out)@ + flags_str(f),
{
    let ghost before = out@;
    if f & 4 != 0 {
        out.append("r");
    } else {
        out.append("-");
    }
    if f & 2 != 0 {
        out.append("w");
    } else {
        out.append("-");
    }
    if f & 1 != 0 {
        out.append("x");
    } else {
        out.append("-");
    }
    proof {
        assert(out@ =~= before + flags_str(f));
    }
}

impl ProgramHeader {
    /// Reads the program header at offset `off` of `image`.
    pub fn parse(image: &Vec<u8>, off: usize) -> (r: ProgramHeader)
        requires
            off + PHDR_BYTES <= image@.len(),
        ensures
            r == phdr_at(image@, off as int),
    {
        let _len = image.len();
        ProgramHeader {
            p_type: read_le32(image, off),
            p_flags: read_le32(image, off + 4),
            p_offset: read_le64(image, off + 8),
            p_vaddr: read_le64(image, off + 16),
            p_paddr: read_le64(image, off + 24),
            p_filesz: read_le64(image, off + 32),
            p_memsz: read_le64(image, off + 40),
            p_align: read_le64(image, off + 48),
        }
    }

    /// The exact text `dump_info` renders for entry `index` of the table.
    pub open spec fn dump_spec(self, index: int) -> Seq<char> {
        "program header #"@ + dec_str(index) + ": type="@ + dec_str(self.p_type as int) + " ("@
            + segment_kind_name(self.p_type) + ")"@ + " flags=0x"@ + hex_str(self.p_flags as int)
            + " ("@ + flags_str(self.p_flags) + ")"@ + " offset=0x"@ + hex_str(
            self.p_offset as int,
        ) + " vaddr=0x"@ + hex_str(self.p_vaddr as int) + " paddr=0x"@ + hex_str(
            self.p_paddr as int,
        ) + " filesz="@ + dec_str(self.p_filesz as int) + " memsz="@ + dec_str(
            self.p_memsz as int,
        ) + " align=0x"@ + hex_str(self.p_align as int)
    }

    /// Renders this table entry as one labeled line of text, for
    /// diagnostics: its kind, permissions, ranges and alignment, under its
    /// position `index` in the table.
    pub fn dump_info(&self, index: usize) -> (r: String)
        ensures
            r@ == self.dump_spec(index as int),
    {
        let mut out = String::new();
        out.append("program header #");
        proof {
            assert(out@ =~= "program header #"@);
        }
        push_dec(&mut out, index as u64);
        out.append(": type=");
        push_dec(&mut out, self.p_type as u64);
        out.append(" (");
        push_segment_kind_name(&mut out, self.p_type);
        out.append(")");
        out.append(" flags=0x");
        push_hex(&mut out, self.p_flags as u64);
        out.append(" (");
        push_flags(&mut out, self.p_flags);
        out.append(")");
        out.append(" offset=0x");
        push_hex(&mut out, self.p_offset);
        out.append(" vaddr=0x");
        push_hex(&mut out, self.p_vaddr);
        out.append(" paddr=0x");
        push_hex(&mut out, self.p_paddr);
        out.append(" filesz=");
        push_dec(&mut out, self.p_filesz);
        out.append(" memsz=");
        push_dec(&mut out, self.p_memsz);
        out.append(" align=0x");
        push_hex(&mut out, self.p_align);
        proof {
            assert(out@ == self.dump_spec(index as int));
        }
        out
    }
}

} // verus!
