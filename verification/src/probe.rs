//! The probe before and after initialisation, and its fixed answers to
//! debug port, access port and SWO requests.
use vstd::prelude::*;
use std::collections::BTreeSet;
use std::time::Duration;
use crate::types::{ArmError, DebugProbeError, DpAddress, DpRegisterAddress, FullyQualifiedApAddress};
use crate::memory::SifliUartMemoryInterface;

verus! {

/// Offset of the identification register (IDR) of an access port.
pub const IDR_ADDRESS: u64 = 0xFC;

/// Offset of the control and status word register (CSW) of a memory access port.
pub const CSW_ADDRESS: u64 = 0x00;

/// Offset of the configuration register (CFG) of a memory access port.
pub const CFG_ADDRESS: u64 = 0xF4;

/// The identification value reported for every access port: class 0x8
/// (memory access port), type 0x1 (AMBA AHB3), designer 0x23B (ARM),
/// revision 2.
pub const FAKE_IDR: u32 = 0x2477_0031;

/// The control and status word reported for every access port.
pub const FAKE_CSW: u32 = 0x2300_0052;

/// The configuration value reported for every access port.
pub const FAKE_CFG: u32 = 0x0000_0000;

/// What a read of the access port register at `addr` answers.
pub open spec fn ap_register_value(addr: u64) -> Result<u32, ArmError> {
    if addr == IDR_ADDRESS {
        Ok(FAKE_IDR)
    } else if addr == CSW_ADDRESS {
        Ok(FAKE_CSW)
    } else if addr == CFG_ADDRESS {
        Ok(FAKE_CFG)
    } else {
        Err(ArmError::NotImplemented("ap register read not implemented"))
    }
}

/// A SiFli UART probe that has not been initialised for ARM debugging.
pub struct UninitializedSifliUartArmProbe<P> {
    pub probe: P,
}

impl<P> UninitializedSifliUartArmProbe<P> {
    /// Wraps the probe.
    pub fn new(probe: P) -> (r: Self)
        ensures
            r.probe == probe,
    {
        Self { probe }
    }

    /// Sending raw SWJ sequences is not implemented.
    pub fn swj_sequence(&mut self, bit_len: u8, bits: u64) -> (r: Result<(), DebugProbeError>)
        ensures
            r matches Err(DebugProbeError::NotImplemented { function_name }) && function_name == "swj_sequence",
            *final(self) == *old(self),
    {
        Err(DebugProbeError::NotImplemented { function_name: "swj_sequence" })
    }

    /// Driving the SWJ pins is not implemented.
    pub fn swj_pins(&mut self, pin_out: u32, pin_select: u32, pin_wait: u32) -> (r: Result<u32, DebugProbeError>)
        ensures
            r matches Err(DebugProbeError::NotImplemented { function_name }) && function_name == "swj_pins",
            *final(self) == *old(self),
    {
        Err(DebugProbeError::NotImplemented { function_name: "swj_pins" })
    }

    /// Initialises the probe for ARM debugging with the debug sequence
    /// `sequence`. Only the default debug port exists on SiFli targets.
    pub fn initialize<S>(self, sequence: S, dp: DpAddress) -> (r: Result<SifliUartArmDebug<P, S>, (Self, ArmError)>)
        requires
            dp == DpAddress::Default,
        ensures
            r matches Ok(d) && d.probe == self.probe && d.sequence == sequence && d.access_ports@.is_empty(),
    {
        match SifliUartArmDebug::new(self.probe, sequence) {
            Ok(interface) => Ok(interface),
            Err((s, e)) => Err((s, e)),
        }
    }

    /// Gives the probe back.
    pub fn close(self) -> (p: P)
        ensures
            p == self.probe,
    {
        self.probe
    }
}

/// A SiFli UART probe initialised for ARM debugging.
pub struct SifliUartArmDebug<P, S> {
    pub probe: P,
    /// The access ports of the target that are known.
    pub access_ports: BTreeSet<FullyQualifiedApAddress>,
    /// The debug sequence that was passed at initialisation.
    pub sequence: S,
}

impl<P, S> SifliUartArmDebug<P, S> {
    /// Builds the interface for `probe`, knowing no access port yet.
    pub fn new(probe: P, sequence: S) -> (r: Result<Self, (UninitializedSifliUartArmProbe<P>, ArmError)>)
        ensures
            r matches Ok(d) && d.probe == probe && d.sequence == sequence && d.access_ports@.is_empty(),
    {
        let interface = Self { probe, access_ports: BTreeSet::new(), sequence };
        Ok(interface)
    }

    /// Reading a debug port register is not implemented.
    pub fn read_raw_dp_register(&mut self, dp: DpAddress, addr: DpRegisterAddress) -> (r: Result<u32, ArmError>)
        ensures
            r matches Err(ArmError::NotImplemented(m)) && m == "dp register read not implemented",
            *final(self) == *old(self),
    {
        Err(ArmError::NotImplemented("dp register read not implemented"))
    }

    /// Writing a debug port register is accepted and has no effect.
    pub fn write_raw_dp_register(&mut self, dp: DpAddress, addr: DpRegisterAddress, value: u32) -> (r: Result<(), ArmError>)
        ensures
            r is Ok,
            *final(self) == *old(self),
    {
        Ok(())
    }

    /// Reads an access port register: the identification, control and status
    /// and configuration registers answer fixed values that describe a
    /// memory access port; every other register is not implemented.
    pub fn read_raw_ap_register(&mut self, ap: &FullyQualifiedApAddress, addr: u64) -> (r: Result<u32, ArmError>)
        ensures
            match (r, ap_register_value(addr)) {
                (Ok(v), Ok(w)) => v == w,
                (Err(ArmError::NotImplemented(m)), Err(ArmError::NotImplemented(n))) => m == n,
                _ => false,
            },
            *final(self) == *old(self),
    {
        if addr == IDR_ADDRESS {
            let idr = FAKE_IDR;
            return Ok(idr);
        } else if addr == CSW_ADDRESS {
            return Ok(FAKE_CSW);
        } else if addr == CFG_ADDRESS {
            return Ok(FAKE_CFG);
        }
        Err(ArmError::NotImplemented("ap register read not implemented"))
    }

    /// Writing an access port register is accepted and has no effect.
    pub fn write_raw_ap_register(&mut self, ap: &FullyQualifiedApAddress, addr: u64, value: u32) -> (r: Result<(), ArmError>)
        ensures
            r is Ok,
            *final(self) == *old(self),
    {
        Ok(())
    }

    /// Sending raw SWJ sequences is not implemented.
    pub fn swj_sequence(&mut self, bit_len: u8, bits: u64) -> (r: Result<(), DebugProbeError>)
        ensures
            r matches Err(DebugProbeError::NotImplemented { function_name }) && function_name == "swj_sequence",
            *final(self) == *old(self),
    {
        Err(DebugProbeError::NotImplemented { function_name: "swj_sequence" })
    }

    /// Driving the SWJ pins is not implemented.
    pub fn swj_pins(&mut self, pin_out: u32, pin_select: u32, pin_wait: u32) -> (r: Result<u32, DebugProbeError>)
        ensures
            r matches Err(DebugProbeError::NotImplemented { function_name }) && function_name == "swj_pins",
            *final(self) == *old(self),
    {
        Err(DebugProbeError::NotImplemented { function_name: "swj_pins" })
    }

    /// SWO is not implemented.
    pub fn enable_swo<C>(&mut self, _config: &C) -> (r: Result<(), ArmError>)
        ensures
            r matches Err(ArmError::NotImplemented(m)) && m == "swo not implemented",
            *final(self) == *old(self),
    {
        Err(ArmError::NotImplemented("swo not implemented"))
    }

    /// SWO is not implemented.
    pub fn disable_swo(&mut self) -> (r: Result<(), ArmError>)
        ensures
            r matches Err(ArmError::NotImplemented(m)) && m == "swo not implemented",
            *final(self) == *old(self),
    {
        Err(ArmError::NotImplemented("swo not implemented"))
    }

    /// SWO is not implemented.
    pub fn read_swo_timeout(&mut self, _timeout: Duration) -> (r: Result<Vec<u8>, ArmError>)
        ensures
            r matches Err(ArmError::NotImplemented(m)) && m == "swo not implemented",
            *final(self) == *old(self),
    {
        Err(ArmError::NotImplemented("swo not implemented"))
    }

    /// Reinitialising succeeds and has no effect.
    pub fn reinitialize(&mut self) -> (r: Result<(), ArmError>)
        ensures
            r is Ok,
            *final(self) == *old(self),
    {
        Ok(())
    }

    /// Listing the access ports is not implemented.
    pub fn access_ports(&mut self, dp: DpAddress) -> (r: Result<BTreeSet<FullyQualifiedApAddress>, ArmError>)
        ensures
            r matches Err(ArmError::NotImplemented(m)) && m == "access_ports not implemented",
            *final(self) == *old(self),
    {
        Err(ArmError::NotImplemented("access_ports not implemented"))
    }

    /// The debug port in use is always the default one.
    pub fn current_debug_port(&self) -> (r: DpAddress)
        ensures
            r == DpAddress::Default,
    {
        DpAddress::Default
    }

    /// Opens the memory interface of the access port `access_port`.
    pub fn memory_interface(&mut self, access_port: &FullyQualifiedApAddress) -> (r: Result<SifliUartMemoryInterface, ArmError>)
        ensures
            r matches Ok(m) && m.current_ap() == *access_port,
            *final(self) == *old(self),
    {
        Ok(SifliUartMemoryInterface::new(*access_port))
    }

    /// Gives the probe back.
    pub fn close(self) -> (p: P)
        ensures
            p == self.probe,
    {
        self.probe
    }
}

} // verus!
