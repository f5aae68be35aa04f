use std::time::Duration;

use sifliuart::probe::{SifliUartArmDebug, UninitializedSifliUartArmProbe, CFG_ADDRESS, CSW_ADDRESS, IDR_ADDRESS};
use sifliuart::sf32lb52::{
    halt_core_value, PmucControl, ResetAction, ResetEvent, Sf32lb52, DHCSR_ADDRESS, PMUC_BASE,
};
use sifliuart::types::{ApAddress, ArmError, DebugProbeError, DpAddress, DpRegisterAddress, FullyQualifiedApAddress};

fn ap() -> FullyQualifiedApAddress {
    FullyQualifiedApAddress { dp: DpAddress::Default, ap: ApAddress::V1(0) }
}

fn debug() -> SifliUartArmDebug<&'static str, u8> {
    match UninitializedSifliUartArmProbe::new("uart0").initialize(7u8, DpAddress::Default) {
        Ok(d) => d,
        Err(_) => panic!("initialisation failed"),
    }
}

fn not_implemented(r: ArmError) -> &'static str {
    match r {
        ArmError::NotImplemented(m) => m,
        other => panic!("unexpected {:?}", other),
    }
}

#[test]
fn initialize_keeps_probe_and_sequence() {
    let d = debug();
    assert_eq!(d.probe, "uart0");
    assert_eq!(d.sequence, 7);
    assert!(d.access_ports.is_empty());
    assert_eq!(d.close(), "uart0");
}

#[test]
fn new_builds_interface_without_access_ports() {
    match SifliUartArmDebug::new(1u32, 2u32) {
        Ok(d) => {
            assert_eq!(d.probe, 1);
            assert_eq!(d.sequence, 2);
            assert!(d.access_ports.is_empty());
        }
        Err(_) => panic!("new failed"),
    }
}

#[test]
fn uninitialized_probe_close_gives_probe_back() {
    assert_eq!(UninitializedSifliUartArmProbe::new(42u8).close(), 42);
}

#[test]
fn swj_is_not_implemented() {
    let mut u = UninitializedSifliUartArmProbe::new(0u8);
    match u.swj_sequence(8, 0xff) {
        Err(DebugProbeError::NotImplemented { function_name }) => assert_eq!(function_name, "swj_sequence"),
        other => panic!("unexpected {:?}", other),
    }
    match u.swj_pins(1, 2, 3) {
        Err(DebugProbeError::NotImplemented { function_name }) => assert_eq!(function_name, "swj_pins"),
        other => panic!("unexpected {:?}", other),
    }
    let mut d = debug();
    match d.swj_sequence(8, 0xff) {
        Err(DebugProbeError::NotImplemented { function_name }) => assert_eq!(function_name, "swj_sequence"),
        other => panic!("unexpected {:?}", other),
    }
    match d.swj_pins(1, 2, 3) {
        Err(DebugProbeError::NotImplemented { function_name }) => assert_eq!(function_name, "swj_pins"),
        other => panic!("unexpected {:?}", other),
    }
}

#[test]
fn access_port_registers_describe_a_memory_ap() {
    let mut d = debug();
    assert_eq!(d.read_raw_ap_register(&ap(), IDR_ADDRESS).unwrap(), 0x2477_0031);
    assert_eq!(d.read_raw_ap_register(&ap(), CSW_ADDRESS).unwrap(), 0x2300_0052);
    assert_eq!(d.read_raw_ap_register(&ap(), CFG_ADDRESS).unwrap(), 0);
    assert_eq!(IDR_ADDRESS, 0xFC);
    assert_eq!(CFG_ADDRESS, 0xF4);
    let e = d.read_raw_ap_register(&ap(), 0xF8).unwrap_err();
    assert_eq!(not_implemented(e), "ap register read not implemented");
    assert!(d.write_raw_ap_register(&ap(), 0x04, 5).is_ok());
}

#[test]
fn debug_port_registers() {
    let mut d = debug();
    let addr = DpRegisterAddress { bank: None, address: 0 };
    let e = d.read_raw_dp_register(DpAddress::Default, addr).unwrap_err();
    assert_eq!(not_implemented(e), "dp register read not implemented");
    assert!(d.write_raw_dp_register(DpAddress::Default, addr, 1).is_ok());
}

#[test]
fn swo_is_not_implemented() {
    let mut d = debug();
    assert_eq!(not_implemented(d.enable_swo(&()).unwrap_err()), "swo not implemented");
    assert_eq!(not_implemented(d.disable_swo().unwrap_err()), "swo not implemented");
    assert_eq!(not_implemented(d.read_swo_timeout(Duration::from_millis(10)).unwrap_err()), "swo not implemented");
}

#[test]
fn interface_fixed_answers() {
    let mut d = debug();
    assert!(d.reinitialize().is_ok());
    assert_eq!(not_implemented(d.access_ports(DpAddress::Default).unwrap_err()), "access_ports not implemented");
    assert_eq!(d.current_debug_port(), DpAddress::Default);
    let m = d.memory_interface(&ap()).unwrap();
    assert_eq!(m.fully_qualified_address(), ap());
}

#[test]
fn pmuc_control_fields() {
    let mut c = PmucControl(0);
    c.set_reboot(true);
    assert_eq!(c.0, 0x4);
    assert!(c.reboot());
    c.set_pin1_sel(1);
    assert_eq!(c.0, 0x8004);
    assert_eq!(c.pin1_sel(), 1);
    c.set_pin0_sel(0x3f);
    assert_eq!(c.pin0_sel(), 0x1f);
    c.set_pin1_mode(5);
    assert_eq!(c.pin1_mode(), 5);
    c.set_pin0_mode(2);
    assert_eq!(c.pin0_mode(), 2);
    c.set_pin_ret(true);
    assert!(c.pin_ret());
    c.set_hiber_en(true);
    assert!(c.hiber_en());
    c.set_sel_lpclk(true);
    assert!(c.sel_lpclk());
    c.set_reboot(false);
    assert!(!c.reboot());
    assert_eq!(c.pin1_sel(), 1);
    assert_eq!(c.pin0_sel(), 0x1f);
}

#[test]
fn halt_value_carries_key_and_halt_bits() {
    assert_eq!(halt_core_value(), 0xA05F_0003);
}

#[test]
fn reset_sequence_sets_reboot_waits_and_halts() {
    let seq = Sf32lb52::create();
    let (mut r, first) = seq.reset_system();
    assert!(matches!(first, ResetAction::ReadWord32 { address } if address == PMUC_BASE));
    match r.step(ResetEvent::WordRead(Ok(0x0000_8001))) {
        ResetAction::WriteWord32 { address, value } => {
            assert_eq!(address, 0x500C_A000);
            assert_eq!(value, 0x0000_8005);
        }
        other => panic!("unexpected {:?}", other),
    }
    let a = r.step(ResetEvent::WordWritten(Err(ArmError::Other("ignored".to_string()))));
    assert!(matches!(a, ResetAction::Sleep { millis: 500 }));
    assert!(matches!(r.step(ResetEvent::Slept), ResetAction::MarkCoreStatusUnknown));
    match r.step(ResetEvent::StatusUpdated) {
        ResetAction::WriteWord32 { address, value } => {
            assert_eq!(address, DHCSR_ADDRESS);
            assert_eq!(value, 0xA05F_0003);
        }
        other => panic!("unexpected {:?}", other),
    }
    assert!(matches!(r.step(ResetEvent::WordWritten(Ok(()))), ResetAction::Done(Ok(()))));
    assert!(r.is_done());
}

#[test]
fn reset_sequence_stops_when_control_read_fails() {
    let (mut r, _) = Sf32lb52::create().reset_system();
    match r.step(ResetEvent::WordRead(Err(ArmError::NotImplemented("x")))) {
        ResetAction::Done(Err(ArmError::NotImplemented(m))) => assert_eq!(m, "x"),
        other => panic!("unexpected {:?}", other),
    }
    assert!(r.is_done());
}

#[test]
fn reset_sequence_reports_failed_halt() {
    let (mut r, _) = Sf32lb52::create().reset_system();
    r.step(ResetEvent::WordRead(Ok(0)));
    r.step(ResetEvent::WordWritten(Ok(())));
    r.step(ResetEvent::Slept);
    r.step(ResetEvent::StatusUpdated);
    match r.step(ResetEvent::WordWritten(Err(ArmError::Other("halt".to_string())))) {
        ResetAction::Done(Err(ArmError::Other(m))) => assert_eq!(m, "halt"),
        other => panic!("unexpected {:?}", other),
    }
}
