use vstd::prelude::*;

use crate::addr::PhysAddr;
use crate::channel::{
    lemma_write_all_concat, lemma_write_all_empty, route_spec, write_all_spec,
    RegisterChannel, RegisterTarget,
};
use crate::error::BootError;

verus! {

/// The APIC base address register.
pub const APIC_BASE_MSR: u32 = 0x1B;
/// The x2APIC ID register.
pub const X2APIC_ID_MSR: u32 = 0x802;
/// The x2APIC version register.
pub const X2APIC_VERSION_MSR: u32 = 0x803;
/// The x2APIC spurious interrupt register.
pub const X2APIC_SPURIOUS_INTERRUPT_MSR: u32 = 0x80F;
/// The x2APIC error status register.
pub const X2APIC_ERROR_STATUS_MSR: u32 = 0x828;
/// The x2APIC interrupt command register.
pub const X2APIC_INTERRUPT_COMMAND_MSR: u32 = 0x830;

/// Byte offsets of the xAPIC registers in the memory-mapped register page.
pub const XAPIC_ID_OFFSET: u64 = 0x020;
pub const XAPIC_VERSION_OFFSET: u64 = 0x030;
pub const XAPIC_SPURIOUS_INTERRUPT_OFFSET: u64 = 0x0F0;
pub const XAPIC_ERROR_STATUS_OFFSET: u64 = 0x280;
pub const XAPIC_INTERRUPT_COMMAND_LOW_OFFSET: u64 = 0x300;
pub const XAPIC_INTERRUPT_COMMAND_HIGH_OFFSET: u64 = 0x310;

/// The CPUID leaf 1 ECX bit that reports x2APIC support.
pub const CPUID_X2APIC_BIT: u32 = 0x20_0000;

/// The address bits of the APIC base register.
pub const APIC_BASE_ADDRESS_MASK: u64 = 0x000F_FFFF_FFFF_F000;
/// APIC enable.
pub const APIC_BASE_AE: u64 = 0x800;
/// x2APIC mode enable.
pub const APIC_BASE_EXTD: u64 = 0x400;
/// Boot strap core.
pub const APIC_BASE_BSC: u64 = 0x100;
pub const APIC_BASE_FLAGS_MASK: u64 = 0xD00;

/// Sent accept error.
pub const APIC_ERROR_SAE: u32 = 0x04;
/// Receive accept error.
pub const APIC_ERROR_RAE: u32 = 0x08;
/// Sent illegal vector.
pub const APIC_ERROR_SIV: u32 = 0x20;
/// Received illegal vector.
pub const APIC_ERROR_RIV: u32 = 0x40;
/// Illegal register address.
pub const APIC_ERROR_IRA: u32 = 0x80;
pub const APIC_ERROR_FLAGS_MASK: u32 = 0xEC;

/// APIC software enable.
pub const SPURIOUS_ASE: u32 = 0x100;
/// Focus core checking.
pub const SPURIOUS_FCC: u32 = 0x200;
pub const SPURIOUS_FLAGS_MASK: u32 = 0x300;

/// Interrupt types that can be sent through the interrupt command register.
#[allow(clippy::upper_case_acronyms)]
#[derive(Clone, Copy, Debug, PartialEq, Eq, Structural)]
pub enum MessageType {
    /// Delivers the interrupt in the vector field to the destination.
    Fixed,
    /// Delivers a system management interrupt.
    SMI,
    /// Delivers a non-maskable interrupt; the vector is ignored.
    NMI,
    /// Puts the destination core into the INIT state.
    Init,
    /// Starts the destination core at the page that the vector names.
    Startup,
}

impl MessageType {
    pub open spec fn spec_bits(self) -> u32 {
        match self {
            MessageType::Fixed => 0x000,
            MessageType::SMI => 0x200,
            MessageType::NMI => 0x400,
            MessageType::Init => 0x500,
            MessageType::Startup => 0x600,
        }
    }

    /// The field's bits in the interrupt command register.
    pub fn bits(&self) -> (r: u32)
        ensures
            r == self.spec_bits(),
    {
        match self {
            MessageType::Fixed => 0x000,
            MessageType::SMI => 0x200,
            MessageType::NMI => 0x400,
            MessageType::Init => 0x500,
            MessageType::Startup => 0x600,
        }
    }
}

/// The destination mode flag of the interrupt command register.
#[derive(Clone, Copy, Debug, PartialEq, Eq, Structural)]
pub enum DestinationMode {
    /// A single local APIC, by its id.
    Physical,
    /// The local APICs that share a logical id.
    Logical,
}

impl DestinationMode {
    pub open spec fn spec_bits(self) -> u32 {
        match self {
            DestinationMode::Physical => 0,
            DestinationMode::Logical => 0x800,
        }
    }

    pub fn bits(&self) -> (r: u32)
        ensures
            r == self.spec_bits(),
    {
        match self {
            DestinationMode::Physical => 0,
            DestinationMode::Logical => 0x800,
        }
    }
}

/// The level flag of the interrupt command register.
#[derive(Clone, Copy, Debug, PartialEq, Eq, Structural)]
pub enum Level {
    Deassert,
    Assert,
}

impl Level {
    pub open spec fn spec_bits(self) -> u32 {
        match self {
            Level::Deassert => 0,
            Level::Assert => 0x4000,
        }
    }

    pub fn bits(&self) -> (r: u32)
        ensures
            r == self.spec_bits(),
    {
        match self {
            Level::Deassert => 0,
            Level::Assert => 0x4000,
        }
    }
}

/// The trigger mode flag of the interrupt command register.
#[derive(Clone, Copy, Debug, PartialEq, Eq, Structural)]
pub enum TriggerMode {
    Edge,
    Level,
}

impl TriggerMode {
    pub open spec fn spec_bits(self) -> u32 {
        match self {
            TriggerMode::Edge => 0,
            TriggerMode::Level => 0x8000,
        }
    }

    pub fn bits(&self) -> (r: u32)
        ensures
            r == self.spec_bits(),
    {
        match self {
            TriggerMode::Edge => 0,
            TriggerMode::Level => 0x8000,
        }
    }
}

/// The destination shorthand field of the interrupt command register.
#[derive(Clone, Copy, Debug, PartialEq, Eq, Structural)]
pub enum DestinationShorthand {
    /// The destination field names the destination.
    DestinationField,
    /// The issuing APIC is the only destination.
    SelfOnly,
    /// All local APICs, the issuing one included.
    AllInclSelf,
    /// All local APICs but the issuing one.
    AllExclSelf,
}

impl DestinationShorthand {
    pub open spec fn spec_bits(self) -> u32 {
        match self {
            DestinationShorthand::DestinationField => 0,
            DestinationShorthand::SelfOnly => 0x4_0000,
            DestinationShorthand::AllInclSelf => 0x8_0000,
            DestinationShorthand::AllExclSelf => 0xC_0000,
        }
    }

    pub fn bits(&self) -> (r: u32)
        ensures
            r == self.spec_bits(),
    {
        match self {
            DestinationShorthand::DestinationField => 0,
            DestinationShorthand::SelfOnly => 0x4_0000,
            DestinationShorthand::AllInclSelf => 0x8_0000,
            DestinationShorthand::AllExclSelf => 0xC_0000,
        }
    }
}

/// Flags of the APIC base address register.
#[derive(Clone, Copy, Debug)]
pub struct ApicBaseFlags {
    bits: u64,
}

impl View for ApicBaseFlags {
    type V = u64;

    closed spec fn view(&self) -> u64 {
        self.bits
    }
}

impl ApicBaseFlags {
    /// Keeps the known flags of `bits`.
    pub fn from_bits_truncate(bits: u64) -> (r: ApicBaseFlags)
        ensures
            r@ == bits & APIC_BASE_FLAGS_MASK,
    {
        ApicBaseFlags { bits: bits & APIC_BASE_FLAGS_MASK }
    }

    pub fn bits(&self) -> (r: u64)
        ensures
            r == self@,
    {
        self.bits
    }

    /// Whether every flag of `other` is set in `self`.
    pub fn contains(&self, other: u64) -> (r: bool)
        ensures
            r == (self@ & other == other),
    {
        self.bits & other == other
    }

    /// `self` with the flags of `other` set too.
    pub fn union(&self, other: u64) -> (r: ApicBaseFlags)
        ensures
            r@ == self@ | other,
    {
        ApicBaseFlags { bits: self.bits | other }
    }
}

/// Flags of the APIC error status register.
#[derive(Clone, Copy, Debug)]
pub struct ApicErrorFlags {
    bits: u32,
}

impl View for ApicErrorFlags {
    type V = u32;

    closed spec fn view(&self) -> u32 {
        self.bits
    }
}

impl ApicErrorFlags {
    /// Keeps the known flags of `bits`.
    pub fn from_bits_truncate(bits: u32) -> (r: ApicErrorFlags)
        ensures
            r@ == bits & APIC_ERROR_FLAGS_MASK,
    {
        ApicErrorFlags { bits: bits & APIC_ERROR_FLAGS_MASK }
    }

    pub fn bits(&self) -> (r: u32)
        ensures
            r == self@,
    {
        self.bits
    }

    /// Whether every flag of `other` is set in `self`.
    pub fn contains(&self, other: u32) -> (r: bool)
        ensures
            r == (self@ & other == other),
    {
        self.bits & other == other
    }
}

/// Flags of the spurious interrupt register.
#[derive(Clone, Copy, Debug)]
pub struct SpuriousInterruptFlags {
    bits: u32,
}

impl View for SpuriousInterruptFlags {
    type V = u32;

    closed spec fn view(&self) -> u32 {
        self.bits
    }
}

impl SpuriousInterruptFlags {
    /// Keeps the known flags of `bits`.
    pub fn from_bits_truncate(bits: u32) -> (r: SpuriousInterruptFlags)
        ensures
            r@ == bits & SPURIOUS_FLAGS_MASK,
    {
        SpuriousInterruptFlags { bits: bits & SPURIOUS_FLAGS_MASK }
    }

    pub fn bits(&self) -> (r: u32)
        ensures
            r == self@,
    {
        self.bits
    }

    /// Whether every flag of `other` is set in `self`.
    pub fn contains(&self, other: u32) -> (r: bool)
        ensures
            r == (self@ & other == other),
    {
        self.bits & other == other
    }

    /// `self` with the flags of `other` set too.
    pub fn union(&self, other: u32) -> (r: SpuriousInterruptFlags)
        ensures
            r@ == self@ | other,
    {
        SpuriousInterruptFlags { bits: self.bits | other }
    }
}

/// The three fields of the version register: extended APIC register space
/// present, the highest local vector table entry, and the version number.
pub open spec fn version_fields(raw: u64) -> (bool, u8, u8) {
    (raw & 0x8000_0000 != 0, ((raw & 0xFF_0000) >> 16) as u8, (raw & 0xFF) as u8)
}

/// Splits a raw value of the version register into its fields.
pub fn decode_version(raw: u64) -> (r: (bool, u8, u8))
    ensures
        r == version_fields(raw),
{
    (raw & 0x8000_0000 != 0, ((raw & 0xFF_0000) >> 16) as u8, (raw & 0xFF) as u8)
}

/// Whether a controller of version `version` is supported.
pub open spec fn version_supported(version: u8) -> bool {
    0x10 <= version < 0x20
}

/// Accepts the versions from 0x10 up to, and without, 0x20.
pub fn check_version(version: u8) -> (r: Result<(), BootError>)
    ensures
        r == (if version_supported(version) {
            Ok::<(), BootError>(())
        } else {
            Err(BootError::UnsupportedHardware)
        }),
{
    if 0x10 <= version && version < 0x20 {
        Ok(())
    } else {
        Err(BootError::UnsupportedHardware)
    }
}

/// The flags of a raw value of the error status register.
pub fn decode_error_status(raw: u64) -> (r: ApicErrorFlags)
    ensures
        r@ == (raw as u32) & APIC_ERROR_FLAGS_MASK,
{
    ApicErrorFlags::from_bits_truncate(#[verifier::truncate] (raw as u32))
}

/// Splits a raw value of the spurious interrupt register into its flags and
/// its vector.
pub fn decode_spurious(raw: u64) -> (r: (SpuriousInterruptFlags, u8))
    ensures
        r.0@ == (raw as u32) & SPURIOUS_FLAGS_MASK,
        r.1 == (raw & 0xFF) as u8,
{
    let val = #[verifier::truncate] (raw as u32);
    proof {
        assert(val == raw as u32 ==> (val & 0xFF) as u8 == (raw & 0xFF) as u8) by (bit_vector);
    }
    (SpuriousInterruptFlags::from_bits_truncate(val), #[verifier::truncate] ((val & 0xFF) as u8))
}

/// The APIC base address register.
pub struct ApicBase;

impl ApicBase {
    /// Splits a raw value of the register into the base address and its flags.
    pub fn read(raw: u64) -> (r: (PhysAddr, ApicBaseFlags))
        ensures
            r.0@ == raw & APIC_BASE_ADDRESS_MASK,
            r.1@ == raw & APIC_BASE_FLAGS_MASK,
    {
        let a = raw & APIC_BASE_ADDRESS_MASK;
        proof {
            assert(a == raw & 0x000F_FFFF_FFFF_F000u64 ==> a % 0x10_0000_0000_0000u64 == a) by (bit_vector);
        }
        (PhysAddr::new_truncate(a), ApicBaseFlags::from_bits_truncate(raw))
    }

    /// Issues a write of `flags` and the base address `aba`.
    pub fn write(chan: &mut RegisterChannel, aba: PhysAddr, flags: ApicBaseFlags) -> (r: Result<(), BootError>)
        ensures
            final(chan)@ == write_all_spec(old(chan)@, seq![(RegisterTarget::Msr(APIC_BASE_MSR), flags@ | aba@)]),
            r == match route_spec(old(chan)@) {
                Ok(_) => Ok(()),
                Err(e) => Err(e),
            },
    {
        chan.write(RegisterTarget::Msr(APIC_BASE_MSR), flags.bits() | aba.as_u64())
    }
}


/// How the local APIC is reached: through its memory-mapped register page at
/// a base address, or through model-specific registers.
#[derive(Clone, Copy, Debug)]
pub enum Apic {
    Xapic(PhysAddr),
    X2apic,
}

/// The memory-mapped register at `offset` from `base`.
pub open spec fn mmio_register(base: PhysAddr, offset: u64) -> RegisterTarget {
    RegisterTarget::Mmio((base@ + offset) as u64)
}

pub open spec fn id_register(i: Apic) -> RegisterTarget {
    match i {
        Apic::Xapic(b) => mmio_register(b, XAPIC_ID_OFFSET),
        Apic::X2apic => RegisterTarget::Msr(X2APIC_ID_MSR),
    }
}

pub open spec fn error_status_register(i: Apic) -> RegisterTarget {
    match i {
        Apic::Xapic(b) => mmio_register(b, XAPIC_ERROR_STATUS_OFFSET),
        Apic::X2apic => RegisterTarget::Msr(X2APIC_ERROR_STATUS_MSR),
    }
}

pub open spec fn version_register(i: Apic) -> RegisterTarget {
    match i {
        Apic::Xapic(b) => mmio_register(b, XAPIC_VERSION_OFFSET),
        Apic::X2apic => RegisterTarget::Msr(X2APIC_VERSION_MSR),
    }
}

pub open spec fn spurious_register(i: Apic) -> RegisterTarget {
    match i {
        Apic::Xapic(b) => mmio_register(b, XAPIC_SPURIOUS_INTERRUPT_OFFSET),
        Apic::X2apic => RegisterTarget::Msr(X2APIC_SPURIOUS_INTERRUPT_MSR),
    }
}

impl Apic {
    /// Where the id register is.
    pub fn id_target(&self) -> (r: RegisterTarget)
        ensures
            r == id_register(*self),
    {
        match self {
            Apic::Xapic(b) => RegisterTarget::Mmio(b.as_u64() + XAPIC_ID_OFFSET),
            Apic::X2apic => RegisterTarget::Msr(X2APIC_ID_MSR),
        }
    }

    /// Where the error status register is.
    pub fn error_status_target(&self) -> (r: RegisterTarget)
        ensures
            r == error_status_register(*self),
    {
        match self {
            Apic::Xapic(b) => RegisterTarget::Mmio(b.as_u64() + XAPIC_ERROR_STATUS_OFFSET),
            Apic::X2apic => RegisterTarget::Msr(X2APIC_ERROR_STATUS_MSR),
        }
    }

    /// Where the version register is.
    pub fn version_target(&self) -> (r: RegisterTarget)
        ensures
            r == version_register(*self),
    {
        match self {
            Apic::Xapic(b) => RegisterTarget::Mmio(b.as_u64() + XAPIC_VERSION_OFFSET),
            Apic::X2apic => RegisterTarget::Msr(X2APIC_VERSION_MSR),
        }
    }

    /// Where the spurious interrupt register is.
    pub fn spurious_target(&self) -> (r: RegisterTarget)
        ensures
            r == spurious_register(*self),
    {
        match self {
            Apic::Xapic(b) => RegisterTarget::Mmio(b.as_u64() + XAPIC_SPURIOUS_INTERRUPT_OFFSET),
            Apic::X2apic => RegisterTarget::Msr(X2APIC_SPURIOUS_INTERRUPT_MSR),
        }
    }
}

/// The low half of an interrupt command: every field but the destination.
pub open spec fn icr_low(
    vector: u8,
    message_type: MessageType,
    destination_mode: DestinationMode,
    level: Level,
    trigger_mode: TriggerMode,
    destination_shorthand: DestinationShorthand,
) -> u32 {
    destination_shorthand.spec_bits() | trigger_mode.spec_bits() | level.spec_bits()
        | destination_mode.spec_bits() | message_type.spec_bits() | (vector as u32)
}

/// The register writes that send the interrupt command `low` to
/// `destination`. The xAPIC carries the destination in the top eight bits of
/// the high register and refuses a wider one; the x2APIC carries all 32 bits
/// in the top half of one 64-bit register.
pub open spec fn icr_writes(i: Apic, destination: u32, low: u32) -> Result<Seq<(RegisterTarget, u64)>, BootError> {
    match i {
        Apic::Xapic(b) => if destination > 0xFF {
            Err(BootError::InvalidArgument)
        } else {
            Ok(seq![
                (mmio_register(b, XAPIC_INTERRUPT_COMMAND_HIGH_OFFSET), (destination << 24u32) as u64),
                (mmio_register(b, XAPIC_INTERRUPT_COMMAND_LOW_OFFSET), low as u64),
            ])
        },
        Apic::X2apic => Ok(seq![
            (RegisterTarget::Msr(X2APIC_INTERRUPT_COMMAND_MSR), ((destination as u64) << 32u64) | (low as u64)),
        ]),
    }
}

/// The local APIC id as read from the id register of `i`.
pub open spec fn id_from_register(i: Apic, raw: u64) -> u32 {
    match i {
        Apic::Xapic(_) => (raw as u32) >> 24u32,
        Apic::X2apic => raw as u32,
    }
}

/// Whether CPUID leaf 1 ECX reports x2APIC support.
pub open spec fn x2apic_supported(cpuid_ecx: u32) -> bool {
    cpuid_ecx & CPUID_X2APIC_BIT != 0
}

/// The writes to the APIC base register that enable the APIC, and x2APIC
/// mode where supported, starting from the raw value `raw`.
pub open spec fn base_writes(raw: u64, x2apic: bool) -> Seq<(RegisterTarget, u64)> {
    let aba = raw & APIC_BASE_ADDRESS_MASK;
    let f0 = raw & APIC_BASE_FLAGS_MASK;
    let f1 = if f0 & APIC_BASE_AE == APIC_BASE_AE { f0 } else { f0 | APIC_BASE_AE };
    let w1 = if f0 & APIC_BASE_AE == APIC_BASE_AE {
        Seq::<(RegisterTarget, u64)>::empty()
    } else {
        seq![(RegisterTarget::Msr(APIC_BASE_MSR), f1 | aba)]
    };
    let w2 = if x2apic && f1 & APIC_BASE_EXTD != APIC_BASE_EXTD {
        seq![(RegisterTarget::Msr(APIC_BASE_MSR), (f1 | APIC_BASE_EXTD) | aba)]
    } else {
        Seq::<(RegisterTarget, u64)>::empty()
    };
    w1 + w2
}

/// The write that sets the software-enable flag of the spurious interrupt
/// register, where the raw value `raw` lacks it.
pub open spec fn spurious_writes(i: Apic, raw: u64) -> Seq<(RegisterTarget, u64)> {
    let f = (raw as u32) & SPURIOUS_FLAGS_MASK;
    let vec = (raw & 0xFF) as u8;
    if f & SPURIOUS_ASE == SPURIOUS_ASE {
        Seq::<(RegisterTarget, u64)>::empty()
    } else {
        seq![(spurious_register(i), ((f | SPURIOUS_ASE) | (vec as u32)) as u64)]
    }
}

/// The two interrupt commands of the INIT sequence: level-triggered assert,
/// then edge-triggered deassert.
pub open spec fn init_ipi_writes(i: Apic, destination: u32) -> Result<Seq<(RegisterTarget, u64)>, BootError> {
    let assert_low = icr_low(0, MessageType::Init, DestinationMode::Physical, Level::Assert,
        TriggerMode::Level, DestinationShorthand::DestinationField);
    let deassert_low = icr_low(0, MessageType::Init, DestinationMode::Physical, Level::Deassert,
        TriggerMode::Edge, DestinationShorthand::DestinationField);
    match icr_writes(i, destination, assert_low) {
        Err(e) => Err(e),
        Ok(a) => match icr_writes(i, destination, deassert_low) {
            Err(e) => Err(e),
            Ok(b) => Ok(a + b),
        },
    }
}

/// A startup vector must be 4 KiB aligned and lie in the first megabyte.
pub open spec fn startup_vector_valid(addr: u64) -> bool {
    addr % 0x1000 == 0 && addr < 0x10_0000
}

/// The vector field that names the page at `addr`.
pub open spec fn encode_startup_vector(addr: u64) -> u8 {
    (addr / 0x1000) as u8
}

/// The address of the page that the vector field `v` names.
pub open spec fn decode_startup_vector(v: u8) -> u64 {
    (v as u64 * 0x1000) as u64
}

/// The interrupt command of a STARTUP: single-phase, edge-triggered, asserted.
pub open spec fn startup_ipi_writes(i: Apic, destination: u32, addr: u64) -> Result<Seq<(RegisterTarget, u64)>, BootError> {
    icr_writes(i, destination, icr_low(encode_startup_vector(addr), MessageType::Startup,
        DestinationMode::Physical, Level::Assert, TriggerMode::Edge, DestinationShorthand::DestinationField))
}

/// The vector field for the startup address `addr`, refused where `addr` is
/// not a valid startup vector.
pub fn startup_vector(addr: &PhysAddr) -> (r: Result<u8, BootError>)
    ensures
        match r {
            Ok(v) => startup_vector_valid(addr@) && v == encode_startup_vector(addr@),
            Err(e) => !startup_vector_valid(addr@) && e == BootError::InvalidArgument,
        },
{
    if !addr.is_page_aligned() {
        return Err(BootError::InvalidArgument);
    }
    let a = addr.as_u64();
    if a >= 0x10_0000 {
        return Err(BootError::InvalidArgument);
    }
    Ok((a / 0x1000) as u8)
}

/// The address of the page that the vector field `v` names.
pub fn startup_vector_address(v: u8) -> (r: u64)
    ensures
        r == decode_startup_vector(v),
{
    v as u64 * 0x1000
}

/// Encoding a valid startup address into the vector field and decoding it
/// again gives back the same address.
pub proof fn lemma_startup_vector_round_trip(addr: u64)
    requires
        startup_vector_valid(addr),
    ensures
        decode_startup_vector(encode_startup_vector(addr)) == addr,
{
    let q = addr / 0x1000;
    assert(q < 0x100 && q * 0x1000 == addr) by (nonlinear_arith)
        requires
            addr % 0x1000 == 0,
            addr < 0x10_0000,
            q == addr / 0x1000,
    ;
}

/// A destination id wider than eight bits is refused on the xAPIC, and taken
/// whole on the x2APIC: the id fills the top half of the command and the
/// other fields the bottom half.
pub proof fn lemma_wide_destination(base: PhysAddr, destination: u32, low: u32)
    requires
        destination > 0xFF,
    ensures
        icr_writes(Apic::Xapic(base), destination, low)
            == Err::<Seq<(RegisterTarget, u64)>, BootError>(BootError::InvalidArgument),
        match icr_writes(Apic::X2apic, destination, low) {
            Ok(ws) => ws.len() == 1 && ws[0].0 == RegisterTarget::Msr(X2APIC_INTERRUPT_COMMAND_MSR)
                && ws[0].1 >> 32u64 == destination as u64 && ws[0].1 & 0xFFFF_FFFF == low as u64,
            Err(_) => false,
        },
{
    let v = ((destination as u64) << 32u64) | (low as u64);
    assert(v >> 32u64 == destination as u64 && v & 0xFFFF_FFFF == low as u64) by (bit_vector)
        requires
            v == ((destination as u64) << 32u64) | (low as u64),
    ;
}

/// The local APIC of the boot core.
#[derive(Debug)]
pub struct Lapic {
    apic_id: u32,
    interface: Apic,
}

impl Lapic {
    pub closed spec fn spec_apic_id(&self) -> u32 {
        self.apic_id
    }

    pub closed spec fn spec_interface(&self) -> Apic {
        self.interface
    }

    /// First step of enabling the APIC: from CPUID leaf 1 ECX and the raw
    /// APIC base register, issues the writes that enable the APIC, and x2APIC
    /// mode where supported, and returns how the APIC is to be reached. The
    /// executor performs the writes before reading the registers that
    /// `enable` needs.
    pub fn enable_base(chan: &mut RegisterChannel, cpuid_ecx: u32, apic_base_raw: u64) -> (r: Result<Apic, BootError>)
        ensures
            match route_spec(old(chan)@) {
                Err(e) => final(chan)@ == old(chan)@ && match r {
                    Err(e2) => e2 == e,
                    Ok(_) => false,
                },
                Ok(_) => final(chan)@ == write_all_spec(old(chan)@, base_writes(apic_base_raw, x2apic_supported(cpuid_ecx)))
                    && match r {
                        Ok(Apic::X2apic) => x2apic_supported(cpuid_ecx),
                        Ok(Apic::Xapic(b)) => !x2apic_supported(cpuid_ecx) && b@ == apic_base_raw & APIC_BASE_ADDRESS_MASK,
                        Err(_) => false,
                    },
            },
    {
        match chan.route() {
            Err(e) => {
                return Err(e);
            },
            Ok(_) => {},
        }
        let x2apic = cpuid_ecx & CPUID_X2APIC_BIT != 0;
        let (aba, flags0) = ApicBase::read(apic_base_raw);
        let ghost s0 = chan@;
        let ghost f0 = apic_base_raw & APIC_BASE_FLAGS_MASK;
        let ghost aba_bits = apic_base_raw & APIC_BASE_ADDRESS_MASK;
        let mut flags = flags0;
        let ghost w1 = Seq::<(RegisterTarget, u64)>::empty();
        if !flags.contains(APIC_BASE_AE) {
            flags = flags.union(APIC_BASE_AE);
            let _ = ApicBase::write(chan, aba, flags);
            proof {
                w1 = seq![(RegisterTarget::Msr(APIC_BASE_MSR), flags@ | aba_bits)];
            }
        } else {
            proof {
                lemma_write_all_empty(s0);
            }
        }
        let ghost s1 = chan@;
        let ghost w2 = Seq::<(RegisterTarget, u64)>::empty();
        if x2apic && !flags.contains(APIC_BASE_EXTD) {
            let f1 = flags;
            flags = flags.union(APIC_BASE_EXTD);
            let _ = ApicBase::write(chan, aba, flags);
            proof {
                w2 = seq![(RegisterTarget::Msr(APIC_BASE_MSR), (f1@ | APIC_BASE_EXTD) | aba_bits)];
            }
        } else {
            proof {
                lemma_write_all_empty(s1);
            }
        }
        proof {
            lemma_write_all_concat(s0, w1, w2);
            assert(w1 + w2 =~= base_writes(apic_base_raw, x2apic));
        }
        if x2apic {
            Ok(Apic::X2apic)
        } else {
            Ok(Apic::Xapic(aba))
        }
    }

    /// Second step of enabling the APIC, from the raw values of its id,
    /// version and spurious interrupt registers: refuses an unsupported
    /// version, and sets the software-enable flag where it is clear.
    pub fn enable(chan: &mut RegisterChannel, interface: Apic, id_raw: u64, version_raw: u64, spurious_raw: u64) -> (r: Result<Lapic, BootError>)
        ensures
            match route_spec(old(chan)@) {
                Err(e) => final(chan)@ == old(chan)@ && match r {
                    Err(e2) => e2 == e,
                    Ok(_) => false,
                },
                Ok(_) => if !version_supported(version_fields(version_raw).2) {
                    final(chan)@ == old(chan)@ && match r {
                        Err(e) => e == BootError::UnsupportedHardware,
                        Ok(_) => false,
                    }
                } else {
                    final(chan)@ == write_all_spec(old(chan)@, spurious_writes(interface, spurious_raw))
                        && match r {
                        Ok(l) => l.spec_apic_id() == id_from_register(interface, id_raw)
                            && l.spec_interface() == interface,
                        Err(_) => false,
                    }
                },
            },
    {
        match chan.route() {
            Err(e) => {
                return Err(e);
            },
            Ok(_) => {},
        }
        let raw_id = #[verifier::truncate] (id_raw as u32);
        let apic_id = match interface {
            Apic::Xapic(_) => raw_id >> 24,
            Apic::X2apic => raw_id,
        };
        let (_, _, version) = decode_version(version_raw);
        match check_version(version) {
            Err(e) => {
                return Err(e);
            },
            Ok(()) => {},
        }
        let lapic = Lapic { apic_id, interface };
        let (flags, vec) = decode_spurious(spurious_raw);
        if !flags.contains(SPURIOUS_ASE) {
            let value = flags.union(SPURIOUS_ASE).bits() | vec as u32;
            let target = lapic.spurious_interrupt_register();
            let _ = chan.write(target, value as u64);
        } else {
            proof {
                lemma_write_all_empty(old(chan)@);
            }
        }
        Ok(lapic)
    }

    /// Where the error status register of this APIC is.
    pub fn error_status(&self) -> (r: RegisterTarget)
        ensures
            r == error_status_register(self.spec_interface()),
    {
        self.interface.error_status_target()
    }

    /// Where the version register of this APIC is.
    pub fn apic_version(&self) -> (r: RegisterTarget)
        ensures
            r == version_register(self.spec_interface()),
    {
        self.interface.version_target()
    }

    /// Where the spurious interrupt register of this APIC is.
    pub fn spurious_interrupt_register(&self) -> (r: RegisterTarget)
        ensures
            r == spurious_register(self.spec_interface()),
    {
        self.interface.spurious_target()
    }

    /// The register writes that send an inter-processor interrupt with the
    /// given fields to `destination`.
    #[allow(clippy::too_many_arguments)]
    pub fn interrupt_command(
        &self,
        destination: u32,
        vector: u8,
        message_type: MessageType,
        destination_mode: DestinationMode,
        level: Level,
        trigger_mode: TriggerMode,
        destination_shorthand: DestinationShorthand,
    ) -> (r: Result<Vec<(RegisterTarget, u64)>, BootError>)
        ensures
            match r {
                Ok(v) => icr_writes(self.spec_interface(), destination,
                    icr_low(vector, message_type, destination_mode, level, trigger_mode, destination_shorthand))
                    == Ok::<Seq<(RegisterTarget, u64)>, BootError>(v@),
                Err(e) => icr_writes(self.spec_interface(), destination,
                    icr_low(vector, message_type, destination_mode, level, trigger_mode, destination_shorthand))
                    == Err::<Seq<(RegisterTarget, u64)>, BootError>(e),
            },
    {
        let low = destination_shorthand.bits() | trigger_mode.bits() | level.bits()
            | destination_mode.bits() | message_type.bits() | vector as u32;
        let mut v: Vec<(RegisterTarget, u64)> = Vec::new();
        match self.interface {
            Apic::Xapic(b) => {
                if destination > 0xFF {
                    return Err(BootError::InvalidArgument);
                }
                let base = b.as_u64();
                v.push((RegisterTarget::Mmio(base + XAPIC_INTERRUPT_COMMAND_HIGH_OFFSET), (destination << 24u32) as u64));
                v.push((RegisterTarget::Mmio(base + XAPIC_INTERRUPT_COMMAND_LOW_OFFSET), low as u64));
            },
            Apic::X2apic => {
                v.push((RegisterTarget::Msr(X2APIC_INTERRUPT_COMMAND_MSR), ((destination as u64) << 32u64) | (low as u64)));
            },
        }
        proof {
            match icr_writes(self.spec_interface(), destination,
                icr_low(vector, message_type, destination_mode, level, trigger_mode, destination_shorthand)) {
                Ok(s) => assert(v@ =~= s),
                Err(_) => {},
            }
        }
        Ok(v)
    }

    /// Clears the error status register.
    pub fn clear_errors(&self, chan: &mut RegisterChannel) -> (r: Result<(), BootError>)
        ensures
            final(chan)@ == write_all_spec(old(chan)@, seq![(error_status_register(self.spec_interface()), 0u64)]),
            r == match route_spec(old(chan)@) {
                Ok(_) => Ok(()),
                Err(e) => Err(e),
            },
    {
        chan.write(self.error_status(), 0)
    }

    /// Writes the spurious interrupt register: `flags` and the spurious
    /// vector `vector`.
    pub fn set_spurious_config(&self, chan: &mut RegisterChannel, flags: SpuriousInterruptFlags, vector: u8) -> (r: Result<(), BootError>)
        ensures
            final(chan)@ == write_all_spec(old(chan)@,
                seq![(spurious_register(self.spec_interface()), (flags@ | (vector as u32)) as u64)]),
            r == match route_spec(old(chan)@) {
                Ok(_) => Ok(()),
                Err(e) => Err(e),
            },
    {
        chan.write(self.spurious_interrupt_register(), (flags.bits() | vector as u32) as u64)
    }

    /// Sends an inter-processor interrupt with the given fields to
    /// `destination`; nothing is written where it is refused.
    #[allow(clippy::too_many_arguments)]
    pub fn send_ipi(
        &self,
        chan: &mut RegisterChannel,
        destination: u32,
        vector: u8,
        message_type: MessageType,
        destination_mode: DestinationMode,
        level: Level,
        trigger_mode: TriggerMode,
        destination_shorthand: DestinationShorthand,
    ) -> (r: Result<(), BootError>)
        ensures
            match icr_writes(self.spec_interface(), destination,
                icr_low(vector, message_type, destination_mode, level, trigger_mode, destination_shorthand)) {
                Ok(ws) => final(chan)@ == write_all_spec(old(chan)@, ws) && r == match route_spec(old(chan)@) {
                    Ok(_) => Ok(()),
                    Err(e) => Err(e),
                },
                Err(e) => final(chan)@ == old(chan)@ && r == Err::<(), BootError>(e),
            },
    {
        let ws = match self.interrupt_command(destination, vector, message_type, destination_mode, level,
            trigger_mode, destination_shorthand) {
            Ok(ws) => ws,
            Err(e) => {
                return Err(e);
            },
        };
        chan.write_all(&ws)
    }

    /// Sends an INIT to the local APIC `destination`: clears the error
    /// status, then asserts and deasserts INIT.
    pub fn send_init_ipi(&mut self, chan: &mut RegisterChannel, destination: u32) -> (r: Result<(), BootError>)
        ensures
            *final(self) == *old(self),
            match route_spec(old(chan)@) {
                Err(e) => r == Err::<(), BootError>(e) && final(chan)@ == old(chan)@,
                Ok(_) => {
                    let clear = seq![(error_status_register(old(self).spec_interface()), 0u64)];
                    match init_ipi_writes(old(self).spec_interface(), destination) {
                        Ok(ws) => r == Ok::<(), BootError>(()) && final(chan)@ == write_all_spec(old(chan)@, clear + ws),
                        Err(e) => r == Err::<(), BootError>(e) && final(chan)@ == write_all_spec(old(chan)@, clear),
                    }
                },
            },
    {
        let ghost s0 = chan@;
        let esr = self.error_status();
        match chan.write(esr, 0) {
            Err(e) => {
                return Err(e);
            },
            Ok(()) => {},
        }
        let ghost s1 = chan@;
        let ghost clear = seq![(esr, 0u64)];
        let a = match self.interrupt_command(destination, 0, MessageType::Init, DestinationMode::Physical,
            Level::Assert, TriggerMode::Level, DestinationShorthand::DestinationField) {
            Ok(a) => a,
            Err(e) => {
                return Err(e);
            },
        };
        let _ = chan.write_all(&a);
        let b = match self.interrupt_command(destination, 0, MessageType::Init, DestinationMode::Physical,
            Level::Deassert, TriggerMode::Edge, DestinationShorthand::DestinationField) {
            Ok(b) => b,
            Err(e) => {
                return Err(e);
            },
        };
        let _ = chan.write_all(&b);
        proof {
            lemma_write_all_concat(s1, a@, b@);
            lemma_write_all_concat(s0, clear, a@ + b@);
        }
        Ok(())
    }

    /// Sends a STARTUP to the local APIC `destination`, starting it at the
    /// page `vector`. A vector that is not 4 KiB aligned or not below 1 MiB
    /// is refused before anything is issued.
    pub fn send_startup_ipi(&mut self, chan: &mut RegisterChannel, destination: u32, vector: PhysAddr) -> (r: Result<(), BootError>)
        ensures
            *final(self) == *old(self),
            !startup_vector_valid(vector@) ==> r == Err::<(), BootError>(BootError::InvalidArgument)
                && final(chan)@ == old(chan)@,
            startup_vector_valid(vector@) ==> match route_spec(old(chan)@) {
                Err(e) => r == Err::<(), BootError>(e) && final(chan)@ == old(chan)@,
                Ok(_) => {
                    let clear = seq![(error_status_register(old(self).spec_interface()), 0u64)];
                    match startup_ipi_writes(old(self).spec_interface(), destination, vector@) {
                        Ok(ws) => r == Ok::<(), BootError>(()) && final(chan)@ == write_all_spec(old(chan)@, clear + ws),
                        Err(e) => r == Err::<(), BootError>(e) && final(chan)@ == write_all_spec(old(chan)@, clear),
                    }
                },
            },
    {
        let v = match startup_vector(&vector) {
            Ok(v) => v,
            Err(e) => {
                return Err(e);
            },
        };
        let ghost s0 = chan@;
        let esr = self.error_status();
        match chan.write(esr, 0) {
            Err(e) => {
                return Err(e);
            },
            Ok(()) => {},
        }
        let ghost clear = seq![(esr, 0u64)];
        let ws = match self.interrupt_command(destination, v, MessageType::Startup, DestinationMode::Physical,
            Level::Assert, TriggerMode::Edge, DestinationShorthand::DestinationField) {
            Ok(ws) => ws,
            Err(e) => {
                return Err(e);
            },
        };
        let _ = chan.write_all(&ws);
        proof {
            lemma_write_all_concat(s0, clear, ws@);
        }
        Ok(())
    }

    pub fn local_apic_id(&self) -> (r: u32)
        ensures
            r == self.spec_apic_id(),
    {
        self.apic_id
    }
}

} // verus!
