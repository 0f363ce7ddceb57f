use stage0::apic::{Apic, Lapic};
use stage0::channel::{ChannelMode, RegisterChannel, RegisterTarget, RegisterWrite};
use stage0::error::BootError;

#[test]
fn mediated_writes_are_marked() {
    let mut chan = RegisterChannel::new(ChannelMode::Mediated);
    assert_eq!(chan.write(RegisterTarget::Msr(0x830), 9), Ok(()));
    assert_eq!(
        chan.take_writes(),
        vec![RegisterWrite { target: RegisterTarget::Msr(0x830), value: 9, mediated: true }]
    );
    assert_eq!(chan.route(), Ok(ChannelMode::Mediated));
}

#[test]
fn closed_mediated_channel_refuses_access() {
    let mut chan = RegisterChannel::new(ChannelMode::Mediated);
    let mut lapic = Lapic::enable(&mut chan, Apic::X2apic, 0, 0x14, 0x1FF).unwrap();
    chan.take_writes();
    chan.close();
    assert!(!chan.is_open());
    assert_eq!(chan.route(), Err(BootError::ChannelFailure));
    assert_eq!(chan.write(RegisterTarget::Msr(0x828), 0), Err(BootError::ChannelFailure));
    assert_eq!(lapic.send_init_ipi(&mut chan, 1), Err(BootError::ChannelFailure));
    assert!(chan.take_writes().is_empty());
    let r = Lapic::enable(&mut chan, Apic::X2apic, 0, 0x14, 0x0FF);
    assert_eq!(r.unwrap_err(), BootError::ChannelFailure);
    assert_eq!(Lapic::enable_base(&mut chan, 0, 0).unwrap_err(), BootError::ChannelFailure);
    assert!(chan.take_writes().is_empty());
}

#[test]
fn closed_direct_channel_still_writes() {
    let mut chan = RegisterChannel::new(ChannelMode::Direct);
    chan.close();
    assert_eq!(chan.mode(), ChannelMode::Direct);
    assert_eq!(chan.write(RegisterTarget::Mmio(0x1000), 1), Ok(()));
    assert_eq!(chan.take_writes().len(), 1);
}

#[test]
fn write_all_keeps_order() {
    let mut chan = RegisterChannel::new(ChannelMode::Direct);
    let ws = vec![(RegisterTarget::Msr(1), 10u64), (RegisterTarget::Msr(2), 20), (RegisterTarget::Mmio(3), 30)];
    assert_eq!(chan.write_all(&ws), Ok(()));
    let out = chan.take_writes();
    let got: Vec<(RegisterTarget, u64)> = out.iter().map(|w| (w.target, w.value)).collect();
    assert_eq!(got, ws);
    assert!(out.iter().all(|w| !w.mediated));
}
