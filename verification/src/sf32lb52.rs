//! The debug sequence of the SiFli SF32LB52: a system reset through the
//! power management unit (PMUC), followed by halting the core.
//!
//! The sequence reads and writes target memory and sleeps, so it is a
//! [`ResetSystem`] machine: it says what to do next and takes the outcome.
use vstd::prelude::*;
use std::sync::Arc;
use crate::types::ArmError;

verus! {

/// Base address of the power management unit (PMUC).
pub const PMUC_BASE: u64 = 0x500C_A000;

/// Offset of the control register (CR) within the PMUC.
pub const PMUC_CONTROL_OFFSET: u64 = 0x00;

/// Address of the Debug Halting Control and Status Register (DHCSR).
pub const DHCSR_ADDRESS: u64 = 0xE000_EDF0;

/// The key that a write to DHCSR must carry in bits 31:16 to take effect.
pub const DHCSR_DBGKEY: u32 = 0xA05F;

/// How long the target is given to reboot, in milliseconds.
pub const REBOOT_WAIT_MS: u64 = 500;

/// Bits `lsb ..= lsb + width - 1` of `v`, at the bottom.
pub open spec fn field(v: u32, lsb: u32, width_mask: u32) -> u32 {
    (v >> lsb) & width_mask
}

/// `v` with the bits under `width_mask << lsb` replaced by those of `x`.
pub open spec fn with_field(v: u32, lsb: u32, width_mask: u32, x: u32) -> u32 {
    (v & !(width_mask << lsb)) | ((x << lsb) & (width_mask << lsb))
}

/// Sets a field of `v` and says what that does.
fn set_field(v: u32, lsb: u32, width_mask: u32, x: u32) -> (r: u32)
    requires
        lsb < 32,
    ensures
        r == with_field(v, lsb, width_mask, x),
{
    (v & !(width_mask << lsb)) | ((x << lsb) & (width_mask << lsb))
}

/// The control register (CR) of the PMUC.
#[derive(Clone, Copy, Debug, PartialEq, Eq, Structural)]
pub struct PmucControl(pub u32);

impl PmucControl {
    /// PIN1_SEL, bits 19:15.
    pub fn pin1_sel(&self) -> (r: u8)
        ensures
            r as u32 == field(self.0, 15, 0x1f),
    {
        let raw = self.0;
        let v = (raw >> 15u32) & 0x1fu32;
        assert(((raw >> 15u32) & 0x1fu32) <= 0x1f) by (bit_vector);
        v as u8
    }

    /// Sets PIN1_SEL, bits 19:15, to the low bits of `x`.
    pub fn set_pin1_sel(&mut self, x: u8)
        ensures
            final(self).0 == with_field(old(self).0, 15, 0x1f, x as u32),
    {
        self.0 = set_field(self.0, 15, 0x1f, x as u32);
    }

    /// PIN0_SEL, bits 14:10.
    pub fn pin0_sel(&self) -> (r: u8)
        ensures
            r as u32 == field(self.0, 10, 0x1f),
    {
        let raw = self.0;
        let v = (raw >> 10u32) & 0x1fu32;
        assert(((raw >> 10u32) & 0x1fu32) <= 0x1f) by (bit_vector);
        v as u8
    }

    /// Sets PIN0_SEL, bits 14:10, to the low bits of `x`.
    pub fn set_pin0_sel(&mut self, x: u8)
        ensures
            final(self).0 == with_field(old(self).0, 10, 0x1f, x as u32),
    {
        self.0 = set_field(self.0, 10, 0x1f, x as u32);
    }

    /// PIN1_MODE, bits 9:7.
    pub fn pin1_mode(&self) -> (r: u8)
        ensures
            r as u32 == field(self.0, 7, 0x7),
    {
        let raw = self.0;
        let v = (raw >> 7u32) & 0x7u32;
        assert(((raw >> 7u32) & 0x7u32) <= 0x7) by (bit_vector);
        v as u8
    }

    /// Sets PIN1_MODE, bits 9:7, to the low bits of `x`.
    pub fn set_pin1_mode(&mut self, x: u8)
        ensures
            final(self).0 == with_field(old(self).0, 7, 0x7, x as u32),
    {
        self.0 = set_field(self.0, 7, 0x7, x as u32);
    }

    /// PIN0_MODE, bits 6:4.
    pub fn pin0_mode(&self) -> (r: u8)
        ensures
            r as u32 == field(self.0, 4, 0x7),
    {
        let raw = self.0;
        let v = (raw >> 4u32) & 0x7u32;
        assert(((raw >> 4u32) & 0x7u32) <= 0x7) by (bit_vector);
        v as u8
    }

    /// Sets PIN0_MODE, bits 6:4, to the low bits of `x`.
    pub fn set_pin0_mode(&mut self, x: u8)
        ensures
            final(self).0 == with_field(old(self).0, 4, 0x7, x as u32),
    {
        self.0 = set_field(self.0, 4, 0x7, x as u32);
    }

    /// PIN_RET, bit 3.
    pub fn pin_ret(&self) -> (r: bool)
        ensures
            r == (field(self.0, 3, 1) == 1),
    {
        (self.0 >> 3u32) & 1u32 == 1u32
    }

    /// Sets PIN_RET, bit 3.
    pub fn set_pin_ret(&mut self, b: bool)
        ensures
            final(self).0 == with_field(old(self).0, 3, 1, if b { 1 } else { 0 }),
    {
        self.0 = set_field(self.0, 3, 1, if b { 1 } else { 0 });
    }

    /// REBOOT, bit 2.
    pub fn reboot(&self) -> (r: bool)
        ensures
            r == (field(self.0, 2, 1) == 1),
    {
        (self.0 >> 2u32) & 1u32 == 1u32
    }

    /// Sets REBOOT, bit 2.
    pub fn set_reboot(&mut self, b: bool)
        ensures
            final(self).0 == with_field(old(self).0, 2, 1, if b { 1 } else { 0 }),
    {
        self.0 = set_field(self.0, 2, 1, if b { 1 } else { 0 });
    }

    /// HIBER_EN, bit 1.
    pub fn hiber_en(&self) -> (r: bool)
        ensures
            r == (field(self.0, 1, 1) == 1),
    {
        (self.0 >> 1u32) & 1u32 == 1u32
    }

    /// Sets HIBER_EN, bit 1.
    pub fn set_hiber_en(&mut self, b: bool)
        ensures
            final(self).0 == with_field(old(self).0, 1, 1, if b { 1 } else { 0 }),
    {
        self.0 = set_field(self.0, 1, 1, if b { 1 } else { 0 });
    }

    /// SEL_LPCLK, bit 0.
    pub fn sel_lpclk(&self) -> (r: bool)
        ensures
            r == (field(self.0, 0, 1) == 1),
    {
        (self.0 >> 0u32) & 1u32 == 1u32
    }

    /// Sets SEL_LPCLK, bit 0.
    pub fn set_sel_lpclk(&mut self, b: bool)
        ensures
            final(self).0 == with_field(old(self).0, 0, 1, if b { 1 } else { 0 }),
    {
        self.0 = set_field(self.0, 0, 1, if b { 1 } else { 0 });
    }
}

/// The DHCSR value that halts the core: C_DEBUGEN (bit 0) and C_HALT
/// (bit 1) set, and the write key in bits 31:16.
pub open spec fn halt_request() -> u32 {
    (DHCSR_DBGKEY << 16u32) | 0b10u32 | 0b1u32
}

/// Builds the DHCSR value that halts the core.
pub fn halt_core_value() -> (r: u32)
    ensures
        r == halt_request(),
{
    let mut value: u32 = 0;
    value = value | 0b10u32;
    value = value | 0b1u32;
    value = (value & !(0xffffu32 << 16u32)) | (DHCSR_DBGKEY << 16u32);
    assert((((0u32 | 0b10u32) | 0b1u32) & !(0xffffu32 << 16u32)) | (0xA05Fu32 << 16u32)
        == (0xA05Fu32 << 16u32) | 0b10u32 | 0b1u32) by (bit_vector);
    value
}

/// Each field of the PMUC control register reads back the low bits of what
/// was last set in it, and setting it leaves every other bit as it was.
pub proof fn law_pmuc_field_set_then_get(v: u32, x: u32)
    by (bit_vector)
    ensures
        field(with_field(v, 15, 0x1f, x), 15, 0x1f) == x & 0x1f,
        with_field(v, 15, 0x1f, x) & !(0x1fu32 << 15u32) == v & !(0x1fu32 << 15u32),
        field(with_field(v, 10, 0x1f, x), 10, 0x1f) == x & 0x1f,
        with_field(v, 10, 0x1f, x) & !(0x1fu32 << 10u32) == v & !(0x1fu32 << 10u32),
        field(with_field(v, 7, 0x7, x), 7, 0x7) == x & 0x7,
        with_field(v, 7, 0x7, x) & !(0x7u32 << 7u32) == v & !(0x7u32 << 7u32),
        field(with_field(v, 4, 0x7, x), 4, 0x7) == x & 0x7,
        with_field(v, 4, 0x7, x) & !(0x7u32 << 4u32) == v & !(0x7u32 << 4u32),
        field(with_field(v, 3, 1, x), 3, 1) == x & 1,
        with_field(v, 3, 1, x) & !(1u32 << 3u32) == v & !(1u32 << 3u32),
        field(with_field(v, 2, 1, x), 2, 1) == x & 1,
        with_field(v, 2, 1, x) & !(1u32 << 2u32) == v & !(1u32 << 2u32),
        field(with_field(v, 1, 1, x), 1, 1) == x & 1,
        with_field(v, 1, 1, x) & !(1u32 << 1u32) == v & !(1u32 << 1u32),
        field(with_field(v, 0, 1, x), 0, 1) == x & 1,
        with_field(v, 0, 1, x) & !(1u32 << 0u32) == v & !(1u32 << 0u32),
{
}

/// Each field of the PMUC control register is the plain binary number held in
/// its bits: PIN1_SEL in bits 19:15, PIN0_SEL in 14:10, PIN1_MODE in 9:7,
/// PIN0_MODE in 6:4, PIN_RET in 3, REBOOT in 2, HIBER_EN in 1, SEL_LPCLK in 0.
/// Reading a field gives the register's value in those bits; setting it to
/// `x` puts the low bits of `x` there and keeps every bit below and above.
pub proof fn law_pmuc_fields_are_plain_bits(v: u32, x: u32)
    by (bit_vector)
    ensures
        field(v, 15, 0x1f) == (v % 0x100000) / 0x8000,
        with_field(v, 15, 0x1f, x) % 0x8000 == v % 0x8000,
        with_field(v, 15, 0x1f, x) / 0x100000 == v / 0x100000,
        (with_field(v, 15, 0x1f, x) % 0x100000) / 0x8000 == x % 0x20,
        field(v, 10, 0x1f) == (v % 0x8000) / 0x400,
        with_field(v, 10, 0x1f, x) % 0x400 == v % 0x400,
        with_field(v, 10, 0x1f, x) / 0x8000 == v / 0x8000,
        (with_field(v, 10, 0x1f, x) % 0x8000) / 0x400 == x % 0x20,
        field(v, 7, 0x7) == (v % 0x400) / 0x80,
        with_field(v, 7, 0x7, x) % 0x80 == v % 0x80,
        with_field(v, 7, 0x7, x) / 0x400 == v / 0x400,
        (with_field(v, 7, 0x7, x) % 0x400) / 0x80 == x % 0x8,
        field(v, 4, 0x7) == (v % 0x80) / 0x10,
        with_field(v, 4, 0x7, x) % 0x10 == v % 0x10,
        with_field(v, 4, 0x7, x) / 0x80 == v / 0x80,
        (with_field(v, 4, 0x7, x) % 0x80) / 0x10 == x % 0x8,
        field(v, 3, 1) == (v % 0x10) / 0x8,
        with_field(v, 3, 1, x) % 0x8 == v % 0x8,
        with_field(v, 3, 1, x) / 0x10 == v / 0x10,
        (with_field(v, 3, 1, x) % 0x10) / 0x8 == x % 0x2,
        field(v, 2, 1) == (v % 0x8) / 0x4,
        with_field(v, 2, 1, x) % 0x4 == v % 0x4,
        with_field(v, 2, 1, x) / 0x8 == v / 0x8,
        (with_field(v, 2, 1, x) % 0x8) / 0x4 == x % 0x2,
        field(v, 1, 1) == (v % 0x4) / 0x2,
        with_field(v, 1, 1, x) % 0x2 == v % 0x2,
        with_field(v, 1, 1, x) / 0x4 == v / 0x4,
        (with_field(v, 1, 1, x) % 0x4) / 0x2 == x % 0x2,
        field(v, 0, 1) == (v % 0x2) / 0x1,
        with_field(v, 0, 1, x) % 0x1 == v % 0x1,
        with_field(v, 0, 1, x) / 0x2 == v / 0x2,
        (with_field(v, 0, 1, x) % 0x2) / 0x1 == x % 0x2,
{
}

/// The halt request carries the write key and sets exactly C_DEBUGEN and C_HALT
/// below it.
pub proof fn law_halt_request_bits()
    ensures
        halt_request() == 0xA05F_0003u32,
{
    assert((0xA05Fu32 << 16u32) | 0b10u32 | 0b1u32 == 0xA05F_0003u32) by (bit_vector);
}

/// What the reset sequence asks its caller to do next.
#[derive(Debug)]
pub enum ResetAction {
    /// Read the 32-bit word at `address`, then report it with [`ResetEvent::WordRead`].
    ReadWord32 { address: u64 },
    /// Write `value` to the 32-bit word at `address`, then report it with [`ResetEvent::WordWritten`].
    WriteWord32 { address: u64, value: u32 },
    /// Sleep `millis` milliseconds, then report [`ResetEvent::Slept`].
    Sleep { millis: u64 },
    /// Mark the core's status as unknown, then report [`ResetEvent::StatusUpdated`].
    MarkCoreStatusUnknown,
    /// The sequence is over, with this outcome.
    Done(Result<(), ArmError>),
}

/// What the caller reports back to the reset sequence.
#[derive(Debug)]
pub enum ResetEvent {
    /// The outcome of a [`ResetAction::ReadWord32`].
    WordRead(Result<u32, ArmError>),
    /// The outcome of a [`ResetAction::WriteWord32`].
    WordWritten(Result<(), ArmError>),
    /// A [`ResetAction::Sleep`] is over.
    Slept,
    /// A [`ResetAction::MarkCoreStatusUnknown`] is done.
    StatusUpdated,
}

/// How far the reset sequence has come.
#[derive(Clone, Copy, Debug, PartialEq, Eq, Structural)]
pub enum ResetStage {
    /// The PMUC control register is being read.
    ReadingControl,
    /// The PMUC control register is being written with REBOOT set.
    WritingControl,
    /// The target is given time to reboot.
    Waiting,
    /// The core's status is being marked unknown.
    MarkingStatus,
    /// The core is being halted.
    Halting,
    /// The sequence is over.
    Done,
}

/// The reset sequence of the SF32LB52, in progress.
pub struct ResetSystem {
    stage: ResetStage,
}

impl ResetSystem {
    /// How far the sequence has come.
    pub closed spec fn stage(&self) -> ResetStage {
        self.stage
    }

    /// Whether `event` is the report of the action the sequence last asked for.
    pub open spec fn expects(&self, event: ResetEvent) -> bool {
        match self.stage() {
            ResetStage::ReadingControl => event is WordRead,
            ResetStage::WritingControl => event is WordWritten,
            ResetStage::Waiting => event is Slept,
            ResetStage::MarkingStatus => event is StatusUpdated,
            ResetStage::Halting => event is WordWritten,
            ResetStage::Done => false,
        }
    }

    /// Whether the sequence is over.
    pub fn is_done(&self) -> (r: bool)
        ensures
            r == (self.stage() == ResetStage::Done),
    {
        self.stage == ResetStage::Done
    }

    /// Takes the report of the last action and says what to do next.
    /// A failed read of the PMUC control register ends the sequence with
    /// that error; a failed write of it is ignored; a failed halt ends the
    /// sequence with that error.
    pub fn step(&mut self, event: ResetEvent) -> (a: ResetAction)
        requires
            old(self).expects(event),
        ensures
            match old(self).stage() {
                ResetStage::ReadingControl => match event {
                    ResetEvent::WordRead(Ok(v)) => final(self).stage() == ResetStage::WritingControl
                        && a == (ResetAction::WriteWord32 {
                            address: (PMUC_BASE + PMUC_CONTROL_OFFSET) as u64,
                            value: with_field(v, 2, 1, 1),
                        }),
                    ResetEvent::WordRead(Err(e)) => final(self).stage() == ResetStage::Done
                        && a == ResetAction::Done(Err(e)),
                    _ => false,
                },
                ResetStage::WritingControl => final(self).stage() == ResetStage::Waiting
                    && a == (ResetAction::Sleep { millis: REBOOT_WAIT_MS }),
                ResetStage::Waiting => final(self).stage() == ResetStage::MarkingStatus
                    && a == ResetAction::MarkCoreStatusUnknown,
                ResetStage::MarkingStatus => final(self).stage() == ResetStage::Halting
                    && a == (ResetAction::WriteWord32 { address: DHCSR_ADDRESS, value: halt_request() }),
                ResetStage::Halting => final(self).stage() == ResetStage::Done && match event {
                    ResetEvent::WordWritten(Ok(())) => a == ResetAction::Done(Ok(())),
                    ResetEvent::WordWritten(Err(e)) => a == ResetAction::Done(Err(e)),
                    _ => false,
                },
                ResetStage::Done => false,
            },
    {
        match self.stage {
            ResetStage::ReadingControl => match event {
                ResetEvent::WordRead(Ok(v)) => {
                    let mut control = PmucControl(v);
                    control.set_reboot(true);
                    self.stage = ResetStage::WritingControl;
                    ResetAction::WriteWord32 { address: PMUC_BASE + PMUC_CONTROL_OFFSET, value: control.0 }
                },
                ResetEvent::WordRead(Err(e)) => {
                    self.stage = ResetStage::Done;
                    ResetAction::Done(Err(e))
                },
                _ => {
                    self.stage = ResetStage::Done;
                    ResetAction::Done(Ok(()))
                },
            },
            ResetStage::WritingControl => {
                self.stage = ResetStage::Waiting;
                ResetAction::Sleep { millis: REBOOT_WAIT_MS }
            },
            ResetStage::Waiting => {
                self.stage = ResetStage::MarkingStatus;
                ResetAction::MarkCoreStatusUnknown
            },
            ResetStage::MarkingStatus => {
                self.stage = ResetStage::Halting;
                ResetAction::WriteWord32 { address: DHCSR_ADDRESS, value: halt_core_value() }
            },
            ResetStage::Halting => {
                self.stage = ResetStage::Done;
                match event {
                    ResetEvent::WordWritten(Err(e)) => ResetAction::Done(Err(e)),
                    _ => ResetAction::Done(Ok(())),
                }
            },
            ResetStage::Done => ResetAction::Done(Ok(())),
        }
    }
}

/// The debug sequence of the SF32LB52.
#[derive(Debug)]
pub struct Sf32lb52 {}

impl Sf32lb52 {
    /// A shared handle to the sequence.
    pub fn create() -> (r: Arc<Self>)
        ensures
            *r == (Sf32lb52 {}),
    {
        Arc::new(Self {})
    }

    /// Starts a system reset: the first thing to do is to read the PMUC
    /// control register.
    pub fn reset_system(&self) -> (r: (ResetSystem, ResetAction))
        ensures
            r.0.stage() == ResetStage::ReadingControl,
            r.1 == (ResetAction::ReadWord32 { address: (PMUC_BASE + PMUC_CONTROL_OFFSET) as u64 }),
    {
        (ResetSystem { stage: ResetStage::ReadingControl }, ResetAction::ReadWord32 { address: PMUC_BASE + PMUC_CONTROL_OFFSET })
    }
}

} // verus!
