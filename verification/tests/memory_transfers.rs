use std::collections::HashMap;

use sifliuart::memory::{ReadTransfer, SifliUartMemoryInterface, WriteStage, WriteTransfer};
use sifliuart::types::{ApAddress, ArmError, DpAddress, FullyQualifiedApAddress, SifliUartCommand, SifliUartResponse};

fn ap() -> FullyQualifiedApAddress {
    FullyQualifiedApAddress { dp: DpAddress::Default, ap: ApAddress::V1(0) }
}

fn iface() -> SifliUartMemoryInterface {
    SifliUartMemoryInterface::new(ap())
}

/// A target memory that answers the protocol's commands.
struct Target {
    mem: HashMap<u32, u8>,
    commands: Vec<SifliUartCommand>,
}

impl Target {
    fn new() -> Self {
        Target { mem: HashMap::new(), commands: Vec::new() }
    }

    fn byte(&self, a: u32) -> u8 {
        *self.mem.get(&a).unwrap_or(&((a as u8) ^ 0x5a))
    }

    fn answer(&mut self, cmd: SifliUartCommand) -> SifliUartResponse {
        self.commands.push(cmd.clone());
        match cmd {
            SifliUartCommand::MEMRead { addr, len } => {
                let mut data = Vec::new();
                for k in 0..(4 * len as u32) {
                    data.push(self.byte(addr + k));
                }
                SifliUartResponse::MEMRead { data }
            }
            SifliUartCommand::MEMWrite { addr, data } => {
                for (i, w) in data.iter().enumerate() {
                    for (j, b) in w.to_le_bytes().iter().enumerate() {
                        self.mem.insert(addr + 4 * i as u32 + j as u32, *b);
                    }
                }
                SifliUartResponse::MEMWrite
            }
            SifliUartCommand::Enter => SifliUartResponse::Enter,
            SifliUartCommand::Exit => SifliUartResponse::Exit,
        }
    }

    fn run_write(&mut self, mut t: WriteTransfer) -> Result<(), ArmError> {
        while let Some(cmd) = t.next_command() {
            let resp = self.answer(cmd);
            t.receive(Ok(resp))?;
        }
        Ok(())
    }

    fn run_read(&mut self, t: ReadTransfer, data: &mut [u8]) -> Result<(), ArmError> {
        match t.command() {
            None => t.finish(Err("unused".to_string()), data),
            Some(cmd) => {
                let resp = self.answer(cmd);
                t.finish(Ok(resp), data)
            }
        }
    }
}

fn other_message(e: ArmError) -> String {
    match e {
        ArmError::Other(m) => m,
        other => panic!("unexpected error {:?}", other),
    }
}

#[test]
fn aligned_write_sends_words_without_reading() {
    let mut t = iface().write(0x2000_0000, &[1, 2, 3, 4, 5, 6, 7, 8]);
    match t.next_command() {
        Some(SifliUartCommand::MEMWrite { addr, data }) => {
            assert_eq!(addr, 0x2000_0000);
            assert_eq!(data, vec![0x0403_0201, 0x0807_0605]);
        }
        other => panic!("unexpected {:?}", other),
    }
    assert!(t.is_awaiting_response());
    assert!(t.receive(Ok(SifliUartResponse::MEMWrite)).is_ok());
    assert!(t.next_command().is_none());
}

#[test]
fn unaligned_write_reads_and_patches_the_word() {
    let mut t = iface().write(0x1001, &[0xAA, 0xBB]);
    match t.next_command() {
        Some(SifliUartCommand::MEMRead { addr, len }) => {
            assert_eq!(addr, 0x1000);
            assert_eq!(len, 1);
        }
        other => panic!("unexpected {:?}", other),
    }
    assert!(t.receive(Ok(SifliUartResponse::MEMRead { data: vec![1, 2, 3, 4] })).is_ok());
    match t.next_command() {
        Some(SifliUartCommand::MEMWrite { addr, data }) => {
            assert_eq!(addr, 0x1000);
            assert_eq!(data, vec![0x04BB_AA01]);
        }
        other => panic!("unexpected {:?}", other),
    }
    assert!(t.receive(Ok(SifliUartResponse::MEMWrite)).is_ok());
    assert!(t.next_command().is_none());
}

#[test]
fn write_over_two_partial_words_reads_both_edges() {
    let mut target = Target::new();
    let t = iface().write(0x3002, &[9, 8, 7, 6]);
    target.run_write(t).unwrap();
    let reads: Vec<u32> = target
        .commands
        .iter()
        .filter_map(|c| match c {
            SifliUartCommand::MEMRead { addr, .. } => Some(*addr),
            _ => None,
        })
        .collect();
    assert_eq!(reads, vec![0x3000, 0x3004]);
    assert_eq!(target.byte(0x3001), 0x01 ^ 0x5a);
    assert_eq!(target.byte(0x3002), 9);
    assert_eq!(target.byte(0x3005), 6);
    assert_eq!(target.byte(0x3006), 0x06 ^ 0x5a);
}

#[test]
fn long_unaligned_write_reads_only_first_and_last_word() {
    let mut target = Target::new();
    let data: Vec<u8> = (0..38).collect();
    target.run_write(iface().write(0x4003, &data)).unwrap();
    let n_reads = target.commands.iter().filter(|c| matches!(c, SifliUartCommand::MEMRead { .. })).count();
    assert_eq!(n_reads, 2);
    for (i, b) in data.iter().enumerate() {
        assert_eq!(target.byte(0x4003 + i as u32), *b);
    }
    assert_eq!(target.byte(0x4002), 0x02 ^ 0x5a);
    assert_eq!(target.byte(0x4003 + 38), (0x29u8) ^ 0x5a);
}

#[test]
fn read_after_write_gives_the_bytes_back() {
    let mut target = Target::new();
    let data = [0x10, 0x20, 0x30, 0x40, 0x50];
    target.run_write(iface().write(0x5007, &data)).unwrap();
    let mut out = [0u8; 5];
    target.run_read(iface().read(0x5007, 5), &mut out).unwrap();
    assert_eq!(out, data);
}

#[test]
fn empty_write_sends_nothing() {
    let mut t = iface().write(0x1003, &[]);
    assert!(t.next_command().is_none());
    assert!(!t.is_awaiting_response());
}

#[test]
fn write_fails_on_link_error() {
    let mut t = iface().write(0x1001, &[1]);
    t.next_command().unwrap();
    let e = t.receive(Err("timeout".to_string())).unwrap_err();
    assert_eq!(other_message(e), "timeout");
    assert!(t.next_command().is_none());
}

#[test]
fn write_fails_on_short_word_answer() {
    let mut t = iface().write(0x1001, &[1]);
    t.next_command().unwrap();
    let e = t.receive(Ok(SifliUartResponse::MEMRead { data: vec![1, 2, 3] })).unwrap_err();
    assert_eq!(other_message(e), "MEMRead Error");
}

#[test]
fn write_fails_on_wrong_answer_kind() {
    let mut t = iface().write(0x1001, &[1]);
    t.next_command().unwrap();
    let e = t.receive(Ok(SifliUartResponse::Enter)).unwrap_err();
    assert_eq!(other_message(e), "MEMRead Error");
}

#[test]
fn write_ack_error_is_reported() {
    let mut t = iface().write(0x1000, &[1, 2, 3, 4]);
    t.next_command().unwrap();
    let e = t.receive(Err("broken pipe".to_string())).unwrap_err();
    assert_eq!(other_message(e), "broken pipe");
}

#[test]
fn unaligned_read_cuts_the_bytes() {
    let t = iface().read(0x1001, 2);
    match t.command() {
        Some(SifliUartCommand::MEMRead { addr, len }) => {
            assert_eq!(addr, 0x1000);
            assert_eq!(len, 1);
        }
        other => panic!("unexpected {:?}", other),
    }
    let mut out = [0u8; 2];
    t.finish(Ok(SifliUartResponse::MEMRead { data: vec![1, 2, 3, 4] }), &mut out).unwrap();
    assert_eq!(out, [2, 3]);
}

#[test]
fn read_spanning_words_asks_for_all() {
    let t = iface().read(0x1003, 6);
    match t.command() {
        Some(SifliUartCommand::MEMRead { addr, len }) => {
            assert_eq!(addr, 0x1000);
            assert_eq!(len, 3);
        }
        other => panic!("unexpected {:?}", other),
    }
    let v = t.finish_bytes(Ok(SifliUartResponse::MEMRead { data: (0..12).collect() })).unwrap();
    assert_eq!(v, vec![3, 4, 5, 6, 7, 8]);
}

#[test]
fn read_rejects_answer_of_wrong_length() {
    let t = iface().read(0x1000, 4);
    let mut out = [7u8; 4];
    let e = t.finish(Ok(SifliUartResponse::MEMRead { data: vec![1, 2] }), &mut out).unwrap_err();
    assert_eq!(other_message(e), "MEMRead Error");
    assert_eq!(out, [7; 4]);
}

#[test]
fn read_reports_link_error() {
    let t = iface().read(0x1000, 4);
    let mut out = [0u8; 4];
    let e = t.finish(Err("no answer".to_string()), &mut out).unwrap_err();
    assert_eq!(other_message(e), "no answer");
}

#[test]
fn empty_read_sends_nothing() {
    let t = iface().read(0x1001, 0);
    assert!(t.command().is_none());
    let mut out: [u8; 0] = [];
    assert!(t.finish(Err("unused".to_string()), &mut out).is_ok());
}

#[test]
fn addresses_are_cut_to_32_bits() {
    let t = iface().read(0x1_0000_0006, 1);
    match t.command() {
        Some(SifliUartCommand::MEMRead { addr, .. }) => assert_eq!(addr, 4),
        other => panic!("unexpected {:?}", other),
    }
}

#[test]
fn word_count_is_sent_as_16_bits() {
    let t = iface().read(0, 4 * 0x1_0000);
    match t.command() {
        Some(SifliUartCommand::MEMRead { len, .. }) => assert_eq!(len, 0),
        other => panic!("unexpected {:?}", other),
    }
}

#[test]
fn word_writes_and_reads_use_the_machine_byte_order() {
    let mut target = Target::new();
    let words = [0x1122_3344u32, 0x5566_7788];
    let t = iface().write_32(0x6000, &words);
    target.run_write(t).unwrap();
    let t = iface().read_32(0x6000, 2);
    let cmd = t.command().unwrap();
    let resp = target.answer(cmd);
    let mut back = [0u32; 2];
    t.finish_32(Ok(resp), &mut back).unwrap();
    assert_eq!(back, words);
    let native = 0x1122_3344u32.to_ne_bytes();
    assert_eq!(target.byte(0x6000), native[0]);
}

#[test]
fn half_word_and_double_word_round_trip() {
    let mut target = Target::new();
    let halves = [0xBEEFu16, 0x1234, 0xCAFE];
    target.run_write(iface().write_16(0x7001, &halves)).unwrap();
    let t = iface().read_16(0x7001, 3);
    let resp = target.answer(t.command().unwrap());
    let mut back = [0u16; 3];
    t.finish_16(Ok(resp), &mut back).unwrap();
    assert_eq!(back, halves);

    let dwords = [0x0102_0304_0506_0708u64];
    target.run_write(iface().write_64(0x8000, &dwords)).unwrap();
    let t = iface().read_64(0x8000, 1);
    let resp = target.answer(t.command().unwrap());
    let mut back = [0u64; 1];
    t.finish_64(Ok(resp), &mut back).unwrap();
    assert_eq!(back, dwords);
}

#[test]
fn byte_accessors_match_plain_read_and_write() {
    let mut target = Target::new();
    target.run_write(iface().write_8(0x9001, &[1, 2, 3])).unwrap();
    let mut out = [0u8; 3];
    target.run_read(iface().read_8(0x9001, 3), &mut out).unwrap();
    assert_eq!(out, [1, 2, 3]);
}

#[test]
fn interface_reports_fixed_capabilities() {
    let mut m = iface();
    assert_eq!(m.fully_qualified_address(), ap());
    assert!(m.supports_native_64bit_access());
    assert!(m.supports_8bit_transfers().unwrap());
    assert!(m.flush().is_ok());
    match m.generic_status() {
        Err(ArmError::Probe(sifliuart::types::DebugProbeError::InterfaceNotAvailable { interface_name })) => {
            assert_eq!(interface_name, "ARM")
        }
        other => panic!("unexpected {:?}", other),
    }
    let _ = WriteStage::Pending;
}
