use boot_handoff::config::Arch;
use boot_handoff::elf::ElfHeader;

fn well_formed_header(machine: u16) -> ElfHeader {
    ElfHeader {
        e_ident: [0x7f, 0x45, 0x4c, 0x46, 2, 1, 1, 0, 0, 0, 0, 0, 0, 0, 0, 0],
        e_type: 2,
        e_machine: machine,
        e_version: 1,
        entry_point: 0x200000,
        e_phoff: 64,
        e_shoff: 0,
        e_flags: 0,
        e_ehsize: 64,
        e_phentsize: 56,
        e_phnum: 2,
        e_shentsize: 0,
        e_shnum: 0,
        e_shstrndx: 0,
    }
}

#[test]
fn accepts_well_formed_x86_64_header() {
    let h = well_formed_header(62);
    assert!(h.is_valid(Arch::X86_64));
}

#[test]
fn accepts_well_formed_aarch64_header() {
    let h = well_formed_header(183);
    assert!(h.is_valid(Arch::Aarch64));
}

#[test]
fn rejects_corrupted_magic() {
    let mut h = well_formed_header(62);
    h.e_ident[1] = 0x00;
    assert!(!h.is_valid(Arch::X86_64));
}

#[test]
fn rejects_corrupted_class() {
    let mut h = well_formed_header(62);
    h.e_ident[4] = 1;
    assert!(!h.is_valid(Arch::X86_64));
}

#[test]
fn rejects_corrupted_endianness() {
    let mut h = well_formed_header(62);
    h.e_ident[5] = 2;
    assert!(!h.is_valid(Arch::X86_64));
}

#[test]
fn rejects_corrupted_version() {
    let mut h = well_formed_header(62);
    h.e_ident[6] = 0;
    assert!(!h.is_valid(Arch::X86_64));
}

#[test]
fn rejects_corrupted_image_type() {
    let mut h = well_formed_header(62);
    h.e_type = 3;
    assert!(!h.is_valid(Arch::X86_64));
}

#[test]
fn rejects_corrupted_machine() {
    let mut h = well_formed_header(62);
    h.e_machine = 40;
    assert!(!h.is_valid(Arch::X86_64));
}

#[test]
fn rejects_cross_architecture_image() {
    let h = well_formed_header(62);
    assert!(!h.is_valid(Arch::Aarch64));
    let h = well_formed_header(183);
    assert!(!h.is_valid(Arch::X86_64));
}

#[test]
fn kernel_path_is_fixed_per_architecture() {
    assert_eq!(Arch::X86_64.kernel_path(), "\\EFI\\KERNEL\\KERNEL_X64.ELF");
    assert_eq!(Arch::Aarch64.kernel_path(), "\\EFI\\KERNEL\\KERNEL_ARM64.ELF");
}

#[test]
fn machine_codes_are_the_two_recognized_ones() {
    assert_eq!(Arch::X86_64.machine_code(), 62);
    assert_eq!(Arch::Aarch64.machine_code(), 183);
}

#[test]
fn header_dump_info_renders_every_field() {
    let h = well_formed_header(62);
    assert_eq!(
        h.dump_info(),
        "ELF header: magic=7f 45 4c 46 class=2 (64-bit) data=1 (Little Endian) \
         version=1 osabi=0 type=2 (Executable) machine=62 (x86_64) \
         entry=0x200000 phoff=0x40 phnum=2 phentsize=56"
    );
}

#[test]
fn header_dump_info_renders_large_values() {
    let mut h = well_formed_header(62);
    h.entry_point = 0xdead_beef_0123_4567;
    h.e_phoff = u64::MAX;
    assert_eq!(
        h.dump_info(),
        "ELF header: magic=7f 45 4c 46 class=2 (64-bit) data=1 (Little Endian) \
         version=1 osabi=0 type=2 (Executable) machine=62 (x86_64) \
         entry=0xdeadbeef01234567 phoff=0xffffffffffffffff phnum=2 phentsize=56"
    );
}

#[test]
fn header_dump_info_names_unknown_codes() {
    let mut h = well_formed_header(7);
    h.e_ident[4] = 9;
    h.e_ident[5] = 9;
    h.e_type = 9;
    assert_eq!(
        h.dump_info(),
        "ELF header: magic=7f 45 4c 46 class=9 (Unknown) data=9 (Unknown) \
         version=1 osabi=0 type=9 (Unknown) machine=7 (Unknown) \
         entry=0x200000 phoff=0x40 phnum=2 phentsize=56"
    );
}
