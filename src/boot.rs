use vstd::prelude::*;

use crate::error::BootError;

verus! {

/// Where the kernel image is loaded, and where a raw image is entered.
pub const KERNEL_LOAD_ADDRESS: u64 = 0x20_0000;
/// Size of an ELF64 file header.
pub const ELF64_HEADER_SIZE: usize = 64;

pub const ELFMAG0: u8 = 0x7f;
pub const ELFMAG1: u8 = 0x45;
pub const ELFMAG2: u8 = 0x4c;
pub const ELFMAG3: u8 = 0x46;
pub const ELFCLASS64: u8 = 2;
pub const ELFDATA2LSB: u8 = 1;
pub const EV_CURRENT: u8 = 1;
pub const ELFOSABI_SYSV: u8 = 0;

/// The setup-data type of a confidential-computing blob record.
pub const SETUP_CC_BLOB: u32 = 7;
/// The magic value that opens a confidential-computing blob ("AMDE").
pub const CC_BLOB_SEV_HDR_MAGIC: u32 = 0x4544_4d41;
/// The size of the secrets page and of the CPUID page.
pub const SEV_PAGE_SIZE: u32 = 0x1000;

/// The unsigned little-endian integer in the eight bytes of `b` from `o` on.
pub open spec fn le_u64(b: Seq<u8>, o: int) -> u64 {
    (b[o] as int + 0x100 * (b[o + 1] as int + 0x100 * (b[o + 2] as int + 0x100 * (b[o + 3] as int
        + 0x100 * (b[o + 4] as int + 0x100 * (b[o + 5] as int + 0x100 * (b[o + 6] as int + 0x100
        * (b[o + 7] as int)))))))) as u64
}

/// Whether `b` starts with a full ELF64 header whose identification says:
/// ELF magic, 64-bit class, little-endian, current version, System V ABI.
pub open spec fn elf_header_valid(b: Seq<u8>) -> bool {
    &&& b.len() >= ELF64_HEADER_SIZE
    &&& b[0] == ELFMAG0
    &&& b[1] == ELFMAG1
    &&& b[2] == ELFMAG2
    &&& b[3] == ELFMAG3
    &&& b[4] == ELFCLASS64
    &&& b[5] == ELFDATA2LSB
    &&& b[6] == EV_CURRENT
    &&& b[7] == ELFOSABI_SYSV
}

/// The entry point of the kernel image that starts with `b`: the header's
/// entry field for a valid ELF64 header, else the load address itself.
pub open spec fn entry_point_spec(b: Seq<u8>) -> u64 {
    if elf_header_valid(b) {
        le_u64(b, 24)
    } else {
        KERNEL_LOAD_ADDRESS
    }
}

/// Relies on goblin's header64::Header::parse: it reads a 64-byte header,
/// in the byte order that identification byte 5 names; byte 5 equal to 1
/// means little-endian, and `e_entry` is the field at offset 24.
#[verifier::external_body]
fn parse_elf64_entry(bytes: &[u8]) -> (r: Option<u64>)
    ensures
        bytes@.len() >= ELF64_HEADER_SIZE && bytes@[5] == ELFDATA2LSB ==> r == Some(le_u64(bytes@, 24)),
{
    match goblin::elf::header::header64::Header::parse(bytes) {
        Ok(h) => Some(h.e_entry),
        Err(_) => None,
    }
}

/// The identification bytes of `image` are those of a little-endian System V
/// ELF64 file.
pub fn elf_header_ok(image: &[u8]) -> (r: bool)
    ensures
        r == elf_header_valid(image@),
{
    image.len() >= ELF64_HEADER_SIZE && image[0] == ELFMAG0 && image[1] == ELFMAG1 && image[2] == ELFMAG2
        && image[3] == ELFMAG3 && image[4] == ELFCLASS64 && image[5] == ELFDATA2LSB && image[6] == EV_CURRENT
        && image[7] == ELFOSABI_SYSV
}

/// Where to enter the kernel whose image starts with `image`: the entry point
/// that a valid ELF64 header declares, else the load address (a raw image).
pub fn kernel_entry_point(image: &[u8]) -> (r: u64)
    ensures
        r == entry_point_spec(image@),
{
    if elf_header_ok(image) {
        match parse_elf64_entry(image) {
            Some(e) => e,
            None => KERNEL_LOAD_ADDRESS,
        }
    } else {
        KERNEL_LOAD_ADDRESS
    }
}

/// The header of a record of the kernel's setup-data list.
#[derive(Clone, Copy, Debug, PartialEq, Eq, Structural)]
pub struct SetupData {
    /// Physical address of the next record, 0 at the end of the list.
    pub next: u64,
    pub type_: u32,
    /// Length of the payload that follows the header.
    pub len: u32,
}

/// The record that tells the kernel where the confidential-computing
/// metadata lies.
#[derive(Clone, Copy, Debug, PartialEq, Eq, Structural)]
pub struct CCBlobSevInfo {
    pub magic: u32,
    pub version: u16,
    pub reserved: u16,
    pub secrets_phys: u64,
    pub secrets_len: u32,
    pub rsvd1: u32,
    pub cpuid_phys: u64,
    pub cpuid_len: u32,
    pub rsvd2: u32,
}

impl CCBlobSevInfo {
    /// The record for the secrets page at `secrets_phys` and the CPUID page
    /// at `cpuid_phys`.
    pub fn new(secrets_phys: u64, cpuid_phys: u64) -> (r: CCBlobSevInfo)
        ensures
            r == (CCBlobSevInfo {
                magic: CC_BLOB_SEV_HDR_MAGIC,
                version: 1,
                reserved: 0,
                secrets_phys,
                secrets_len: SEV_PAGE_SIZE,
                rsvd1: 0,
                cpuid_phys,
                cpuid_len: SEV_PAGE_SIZE,
                rsvd2: 0,
            }),
    {
        CCBlobSevInfo {
            magic: CC_BLOB_SEV_HDR_MAGIC,
            version: 1,
            reserved: 0,
            secrets_phys,
            secrets_len: SEV_PAGE_SIZE,
            rsvd1: 0,
            cpuid_phys,
            cpuid_len: SEV_PAGE_SIZE,
            rsvd2: 0,
        }
    }
}

/// The setup-data record that points at a `CCBlobSevInfo`.
#[derive(Clone, Copy, Debug, PartialEq, Eq, Structural)]
pub struct CCSetupData {
    pub header: SetupData,
    pub cc_blob_address: u32,
}

impl CCSetupData {
    /// The record for the blob at `cc_blob_address`, not yet linked.
    pub fn new(cc_blob_address: u32) -> (r: CCSetupData)
        ensures
            r == (CCSetupData { header: SetupData { next: 0, type_: SETUP_CC_BLOB, len: 4 }, cc_blob_address }),
    {
        CCSetupData { header: SetupData { next: 0, type_: SETUP_CC_BLOB, len: 4 }, cc_blob_address }
    }
}

/// The fields of the boot-parameter page that the firmware fills in.
#[derive(Clone, Copy, Debug, PartialEq, Eq, Structural)]
pub struct BootParams {
    pub cmd_line_ptr: u32,
    pub cmdline_size: u32,
    /// Physical address of the first setup-data record, 0 for none.
    pub setup_data: u64,
    pub acpi_rsdp_addr: u64,
}

impl BootParams {
    /// Parameters with every field zero.
    pub fn new() -> (r: BootParams)
        ensures
            r == (BootParams { cmd_line_ptr: 0, cmdline_size: 0, setup_data: 0, acpi_rsdp_addr: 0 }),
    {
        BootParams { cmd_line_ptr: 0, cmdline_size: 0, setup_data: 0, acpi_rsdp_addr: 0 }
    }

    /// Records the kernel command line of `size` bytes at `ptr`. An empty
    /// command line leaves the parameters unchanged; one that the 32-bit
    /// pointer field cannot reach is refused.
    pub fn set_command_line(&mut self, ptr: u64, size: u32) -> (r: Result<(), BootError>)
        ensures
            size == 0 ==> r == Ok::<(), BootError>(()) && *final(self) == *old(self),
            size != 0 && ptr > u32::MAX ==> r == Err::<(), BootError>(BootError::InvalidArgument)
                && *final(self) == *old(self),
            size != 0 && ptr <= u32::MAX ==> r == Ok::<(), BootError>(())
                && *final(self) == (BootParams { cmd_line_ptr: ptr as u32, cmdline_size: size, ..*old(self) }),
    {
        if size == 0 {
            return Ok(());
        }
        if ptr > u32::MAX as u64 {
            return Err(BootError::InvalidArgument);
        }
        self.cmd_line_ptr = ptr as u32;
        self.cmdline_size = size;
        Ok(())
    }

    /// Records the physical address of the ACPI root pointer.
    pub fn set_acpi_rsdp(&mut self, addr: u64)
        ensures
            *final(self) == (BootParams { acpi_rsdp_addr: addr, ..*old(self) }),
    {
        self.acpi_rsdp_addr = addr;
    }

    /// Puts the record `node`, found at `node_addr`, at the head of the
    /// setup-data list.
    pub fn link_setup_data(&mut self, node: &mut SetupData, node_addr: u64)
        ensures
            final(node).next == old(self).setup_data,
            final(node).type_ == old(node).type_,
            final(node).len == old(node).len,
            *final(self) == (BootParams { setup_data: node_addr, ..*old(self) }),
    {
        node.next = self.setup_data;
        self.setup_data = node_addr;
    }
}

/// A valid ELF64 header yields its declared entry point, and changing any
/// one of its eight identification bytes yields the load address instead.
pub proof fn lemma_entry_point_detection(b: Seq<u8>, k: int, x: u8)
    requires
        elf_header_valid(b),
        0 <= k < 8,
        x != b[k],
    ensures
        entry_point_spec(b) == le_u64(b, 24),
        entry_point_spec(b.update(k, x)) == KERNEL_LOAD_ADDRESS,
{
    assert(b.update(k, x)[k] == x);
}

} // verus!
