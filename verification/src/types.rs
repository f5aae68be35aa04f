//! The plain data of the interface: addresses, errors, and the commands and
//! answers of the SiFli UART debug protocol.
use vstd::prelude::*;

verus! {

/// The debug port a request is addressed to.
#[derive(Clone, Copy, Debug, PartialEq, Eq, Structural)]
pub enum DpAddress {
    /// The single debug port of a target without multidrop.
    Default,
    /// A debug port selected by its multidrop target selection value.
    Multidrop(u32),
}

/// The address of an access port within its debug port.
#[derive(Clone, Copy, Debug, PartialEq, Eq, Structural)]
pub enum ApAddress {
    /// An ADIv5 access port, numbered from zero.
    V1(u8),
    /// An ADIv6 access port, given by its base address.
    V2(u64),
}

/// An access port together with the debug port it sits behind.
#[derive(Clone, Copy, Debug, PartialEq, Eq, Structural)]
pub struct FullyQualifiedApAddress {
    pub dp: DpAddress,
    pub ap: ApAddress,
}

/// The address of a debug port register: its bank, if banked, and its offset.
#[derive(Clone, Copy, Debug, PartialEq, Eq, Structural)]
pub struct DpRegisterAddress {
    pub bank: Option<u8>,
    pub address: u8,
}

/// The control and status word of a memory access port.
#[derive(Clone, Copy, Debug, PartialEq, Eq, Structural)]
pub struct Csw(pub u32);

/// Errors of the probe itself.
#[derive(Clone, Debug)]
pub enum DebugProbeError {
    /// The probe does not implement the named function.
    NotImplemented { function_name: &'static str },
    /// The probe does not offer the named interface.
    InterfaceNotAvailable { interface_name: &'static str },
}

/// Errors of the ARM debug interface.
#[derive(Clone, Debug)]
pub enum ArmError {
    /// The interface does not implement the described operation.
    NotImplemented(&'static str),
    /// The probe reported an error.
    Probe(DebugProbeError),
    /// Any other failure, described in words.
    Other(String),
}

/// A command of the SiFli UART debug protocol.
#[derive(Clone, Debug)]
pub enum SifliUartCommand {
    /// Enter debug mode.
    Enter,
    /// Leave debug mode.
    Exit,
    /// Read `len` 32-bit words from `addr` on.
    MEMRead { addr: u32, len: u16 },
    /// Write the words `data` from `addr` on.
    MEMWrite { addr: u32, data: Vec<u32> },
}

/// An answer of the SiFli UART debug protocol.
#[derive(Clone, Debug)]
pub enum SifliUartResponse {
    /// Debug mode was entered.
    Enter,
    /// Debug mode was left.
    Exit,
    /// The bytes that a memory read returned.
    MEMRead { data: Vec<u8> },
    /// A memory write was done.
    MEMWrite,
}

} // verus!
