use stage0::addr::PhysAddr;
use stage0::apic::{
    check_version, decode_error_status, decode_spurious, decode_version, startup_vector, startup_vector_address, Apic, ApicBase,
    DestinationMode, DestinationShorthand, Lapic, Level, MessageType, SpuriousInterruptFlags,
    TriggerMode,
};
use stage0::channel::{ChannelMode, RegisterChannel, RegisterTarget, RegisterWrite};
use stage0::error::BootError;

const XAPIC_BASE: u64 = 0xFEE0_0000;

fn direct(target: RegisterTarget, value: u64) -> RegisterWrite {
    RegisterWrite { target, value, mediated: false }
}

fn x2apic_lapic(chan: &mut RegisterChannel, id: u64) -> Lapic {
    Lapic::enable(chan, Apic::X2apic, id, 0x14, 0x1FF).unwrap()
}

fn xapic_lapic(chan: &mut RegisterChannel) -> Lapic {
    let base = PhysAddr::try_new(XAPIC_BASE).unwrap();
    Lapic::enable(chan, Apic::Xapic(base), 0x0500_0000, 0x14, 0x1FF).unwrap()
}

#[test]
fn startup_vector_round_trips_every_valid_page() {
    let mut addr: u64 = 0;
    while addr < 0x10_0000 {
        let p = PhysAddr::try_new(addr).unwrap();
        let v = startup_vector(&p).unwrap();
        assert_eq!(v as u64, addr / 0x1000);
        assert_eq!(startup_vector_address(v), addr);
        addr += 0x1000;
    }
}

#[test]
fn startup_vector_refuses_unaligned_and_high_addresses() {
    for addr in [0x8001u64, 0xFFF, 0x10_0000, 0x20_0000, 0xFFFF_F000] {
        let p = PhysAddr::try_new(addr).unwrap();
        assert_eq!(startup_vector(&p), Err(BootError::InvalidArgument));
    }
}

#[test]
fn send_startup_with_invalid_vector_issues_nothing() {
    let mut chan = RegisterChannel::new(ChannelMode::Direct);
    let mut lapic = x2apic_lapic(&mut chan, 0);
    chan.take_writes();
    for addr in [0x8010u64, 0x10_0000, 0x10_1000] {
        let p = PhysAddr::try_new(addr).unwrap();
        assert_eq!(lapic.send_startup_ipi(&mut chan, 1, p), Err(BootError::InvalidArgument));
        assert!(chan.take_writes().is_empty());
    }
}

#[test]
fn send_startup_on_x2apic_writes_vector_and_destination() {
    let mut chan = RegisterChannel::new(ChannelMode::Direct);
    let mut lapic = x2apic_lapic(&mut chan, 0);
    chan.take_writes();
    let p = PhysAddr::try_new(0x8000).unwrap();
    assert_eq!(lapic.send_startup_ipi(&mut chan, 2, p), Ok(()));
    assert_eq!(
        chan.take_writes(),
        vec![
            direct(RegisterTarget::Msr(0x828), 0),
            direct(RegisterTarget::Msr(0x830), (2u64 << 32) | 0x4608),
        ]
    );
}

#[test]
fn send_init_on_x2apic_asserts_then_deasserts() {
    let mut chan = RegisterChannel::new(ChannelMode::Direct);
    let mut lapic = x2apic_lapic(&mut chan, 0);
    chan.take_writes();
    assert_eq!(lapic.send_init_ipi(&mut chan, 3), Ok(()));
    assert_eq!(
        chan.take_writes(),
        vec![
            direct(RegisterTarget::Msr(0x828), 0),
            direct(RegisterTarget::Msr(0x830), (3u64 << 32) | 0xC500),
            direct(RegisterTarget::Msr(0x830), (3u64 << 32) | 0x0500),
        ]
    );
}

#[test]
fn send_init_on_xapic_uses_register_page() {
    let mut chan = RegisterChannel::new(ChannelMode::Direct);
    let mut lapic = xapic_lapic(&mut chan);
    chan.take_writes();
    assert_eq!(lapic.local_apic_id(), 5);
    assert_eq!(lapic.send_init_ipi(&mut chan, 7), Ok(()));
    assert_eq!(
        chan.take_writes(),
        vec![
            direct(RegisterTarget::Mmio(XAPIC_BASE + 0x280), 0),
            direct(RegisterTarget::Mmio(XAPIC_BASE + 0x310), 7 << 24),
            direct(RegisterTarget::Mmio(XAPIC_BASE + 0x300), 0xC500),
            direct(RegisterTarget::Mmio(XAPIC_BASE + 0x310), 7 << 24),
            direct(RegisterTarget::Mmio(XAPIC_BASE + 0x300), 0x0500),
        ]
    );
}

#[test]
fn wide_destination_is_refused_by_xapic() {
    let mut chan = RegisterChannel::new(ChannelMode::Direct);
    let mut lapic = xapic_lapic(&mut chan);
    chan.take_writes();
    assert_eq!(lapic.send_init_ipi(&mut chan, 256), Err(BootError::InvalidArgument));
    // The error status is cleared before the command is refused.
    assert_eq!(chan.take_writes(), vec![direct(RegisterTarget::Mmio(XAPIC_BASE + 0x280), 0)]);
    let r = lapic.interrupt_command(
        300,
        0,
        MessageType::Fixed,
        DestinationMode::Physical,
        Level::Assert,
        TriggerMode::Edge,
        DestinationShorthand::DestinationField,
    );
    assert_eq!(r, Err(BootError::InvalidArgument));
}

#[test]
fn wide_destination_is_placed_in_top_half_by_x2apic() {
    let mut chan = RegisterChannel::new(ChannelMode::Direct);
    let lapic = x2apic_lapic(&mut chan, 0);
    let ws = lapic
        .interrupt_command(
            0x1234_5678,
            0x20,
            MessageType::Fixed,
            DestinationMode::Logical,
            Level::Assert,
            TriggerMode::Level,
            DestinationShorthand::AllExclSelf,
        )
        .unwrap();
    assert_eq!(ws.len(), 1);
    assert_eq!(ws[0].0, RegisterTarget::Msr(0x830));
    assert_eq!(ws[0].1 >> 32, 0x1234_5678);
    assert_eq!(ws[0].1 & 0xFFFF_FFFF, 0xC_0000 | 0x8000 | 0x4000 | 0x800 | 0x20);
}

#[test]
fn version_range_is_checked() {
    assert_eq!(check_version(0x0F), Err(BootError::UnsupportedHardware));
    assert_eq!(check_version(0x10), Ok(()));
    assert_eq!(check_version(0x15), Ok(()));
    assert_eq!(check_version(0x1F), Ok(()));
    assert_eq!(check_version(0x20), Err(BootError::UnsupportedHardware));
    assert_eq!(check_version(0x00), Err(BootError::UnsupportedHardware));
    assert_eq!(check_version(0xFF), Err(BootError::UnsupportedHardware));
}

#[test]
fn decode_version_splits_fields() {
    assert_eq!(decode_version(0x8005_0014), (true, 5, 0x14));
    assert_eq!(decode_version(0x0006_0010), (false, 6, 0x10));
}

#[test]
fn enable_refuses_unsupported_version_without_writes() {
    let mut chan = RegisterChannel::new(ChannelMode::Direct);
    let r = Lapic::enable(&mut chan, Apic::X2apic, 1, 0x8005_0020, 0xFF);
    assert_eq!(r.unwrap_err(), BootError::UnsupportedHardware);
    let r = Lapic::enable(&mut chan, Apic::X2apic, 1, 0x0F, 0xFF);
    assert_eq!(r.unwrap_err(), BootError::UnsupportedHardware);
    assert!(chan.take_writes().is_empty());
}

#[test]
fn enable_sets_software_enable_flag() {
    let mut chan = RegisterChannel::new(ChannelMode::Direct);
    let lapic = Lapic::enable(&mut chan, Apic::X2apic, 0x42, 0x14, 0x2FF).unwrap();
    assert_eq!(lapic.local_apic_id(), 0x42);
    assert_eq!(chan.take_writes(), vec![direct(RegisterTarget::Msr(0x80F), 0x3FF)]);
    // Already enabled: nothing is written.
    Lapic::enable(&mut chan, Apic::X2apic, 0x42, 0x14, 0x1FF).unwrap();
    assert!(chan.take_writes().is_empty());
}

#[test]
fn enable_base_switches_to_x2apic() {
    let mut chan = RegisterChannel::new(ChannelMode::Direct);
    let r = Lapic::enable_base(&mut chan, 1 << 21, 0xFEE0_0900).unwrap();
    assert!(matches!(r, Apic::X2apic));
    assert_eq!(chan.take_writes(), vec![direct(RegisterTarget::Msr(0x1B), 0xFEE0_0D00)]);
}

#[test]
fn enable_base_enables_xapic_when_x2apic_is_missing() {
    let mut chan = RegisterChannel::new(ChannelMode::Direct);
    let r = Lapic::enable_base(&mut chan, 0, 0xFEE0_0100).unwrap();
    match r {
        Apic::Xapic(b) => assert_eq!(b.as_u64(), 0xFEE0_0000),
        Apic::X2apic => panic!("expected xAPIC"),
    }
    assert_eq!(chan.take_writes(), vec![direct(RegisterTarget::Msr(0x1B), 0xFEE0_0900)]);
}

#[test]
fn enable_base_writes_twice_when_both_flags_are_missing() {
    let mut chan = RegisterChannel::new(ChannelMode::Direct);
    Lapic::enable_base(&mut chan, 1 << 21, 0xFEE0_0000).unwrap();
    assert_eq!(
        chan.take_writes(),
        vec![
            direct(RegisterTarget::Msr(0x1B), 0xFEE0_0800),
            direct(RegisterTarget::Msr(0x1B), 0xFEE0_0C00),
        ]
    );
}

#[test]
fn apic_base_read_drops_high_bits_and_unknown_flags() {
    let (aba, flags) = ApicBase::read(0xFFF0_0000_FEE0_0FFF);
    assert_eq!(aba.as_u64(), 0xFEE0_0000);
    assert_eq!(flags.bits(), 0xD00);
}

#[test]
fn register_locations_follow_the_interface() {
    let mut chan = RegisterChannel::new(ChannelMode::Direct);
    let x2 = x2apic_lapic(&mut chan, 0);
    assert_eq!(x2.error_status(), RegisterTarget::Msr(0x828));
    assert_eq!(x2.apic_version(), RegisterTarget::Msr(0x803));
    assert_eq!(x2.spurious_interrupt_register(), RegisterTarget::Msr(0x80F));
    let x = xapic_lapic(&mut chan);
    assert_eq!(x.error_status(), RegisterTarget::Mmio(XAPIC_BASE + 0x280));
    assert_eq!(x.apic_version(), RegisterTarget::Mmio(XAPIC_BASE + 0x30));
    assert_eq!(x.spurious_interrupt_register(), RegisterTarget::Mmio(XAPIC_BASE + 0xF0));
}

#[test]
fn phys_addr_refuses_high_bits() {
    assert_eq!(PhysAddr::try_new(1 << 52).unwrap_err(), BootError::InvalidArgument);
    assert_eq!(PhysAddr::try_new((1 << 52) - 1).unwrap().as_u64(), (1 << 52) - 1);
    assert_eq!(PhysAddr::new_truncate(0xFFFF_0000_0000_1000).as_u64(), 0x000F_0000_0000_1000);
    assert!(PhysAddr::try_new(0x3000).unwrap().is_page_aligned());
    assert!(!PhysAddr::try_new(0x3008).unwrap().is_page_aligned());
}

#[test]
fn clear_errors_and_spurious_config_write_their_registers() {
    let mut chan = RegisterChannel::new(ChannelMode::Direct);
    let lapic = xapic_lapic(&mut chan);
    chan.take_writes();
    assert_eq!(lapic.clear_errors(&mut chan), Ok(()));
    let flags = SpuriousInterruptFlags::from_bits_truncate(0x1_0300);
    assert_eq!(flags.bits(), 0x300);
    assert_eq!(lapic.set_spurious_config(&mut chan, flags, 0xEF), Ok(()));
    assert_eq!(
        chan.take_writes(),
        vec![
            direct(RegisterTarget::Mmio(XAPIC_BASE + 0x280), 0),
            direct(RegisterTarget::Mmio(XAPIC_BASE + 0xF0), 0x3EF),
        ]
    );
}

#[test]
fn send_ipi_writes_nothing_when_refused() {
    let mut chan = RegisterChannel::new(ChannelMode::Direct);
    let lapic = xapic_lapic(&mut chan);
    chan.take_writes();
    let r = lapic.send_ipi(
        &mut chan,
        0x100,
        0x30,
        MessageType::Fixed,
        DestinationMode::Physical,
        Level::Assert,
        TriggerMode::Edge,
        DestinationShorthand::DestinationField,
    );
    assert_eq!(r, Err(BootError::InvalidArgument));
    assert!(chan.take_writes().is_empty());
    let r = lapic.send_ipi(
        &mut chan,
        0x2,
        0x30,
        MessageType::NMI,
        DestinationMode::Physical,
        Level::Assert,
        TriggerMode::Edge,
        DestinationShorthand::SelfOnly,
    );
    assert_eq!(r, Ok(()));
    assert_eq!(
        chan.take_writes(),
        vec![
            direct(RegisterTarget::Mmio(XAPIC_BASE + 0x310), 0x0200_0000),
            direct(RegisterTarget::Mmio(XAPIC_BASE + 0x300), 0x4_0000 | 0x4000 | 0x400 | 0x30),
        ]
    );
}

#[test]
fn register_values_are_decoded() {
    assert_eq!(decode_error_status(0xFFFF_FFFF).bits(), 0xEC);
    assert!(decode_error_status(0x24).contains(0x20));
    assert!(!decode_error_status(0x24).contains(0x40));
    let (flags, vec) = decode_spurious(0x1_03FF);
    assert_eq!(flags.bits(), 0x300);
    assert_eq!(vec, 0xFF);
}

#[test]
fn id_register_location_follows_the_interface() {
    let base = PhysAddr::try_new(XAPIC_BASE).unwrap();
    assert_eq!(Apic::Xapic(base).id_target(), RegisterTarget::Mmio(XAPIC_BASE + 0x20));
    assert_eq!(Apic::X2apic.id_target(), RegisterTarget::Msr(0x802));
    assert_eq!(Apic::X2apic.error_status_target(), RegisterTarget::Msr(0x828));
}
