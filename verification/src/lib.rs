//! Driver core for the SRC4392 sample rate converter and digital audio
//! interface, a chip whose registers are reached over SPI.
//!
//! The crate holds what is decided and computed: the address byte of each
//! register, the bit layout of the register values, the order of bus
//! operations in a transfer, and the read-modify-write that changes fields of
//! a register without disturbing the others. It performs no input or output.
//! The machines in [`transaction`], [`modify`] and [`operation`] ask for one
//! bus operation at a time and are told how it went; whoever owns the bus
//! runs that loop.
pub mod codec;
pub mod interrupt;
pub mod modify;
pub mod operation;
pub mod other_registers;
pub mod port_control;
pub mod registers;
pub mod reset;
pub mod sample_rate_converter;
pub mod transaction;

pub use codec::{DecodeError, PackedRegister};
pub use interrupt::GlobalInterruptStatus;
pub use modify::{Error, Modify, ModifyStep, Mutation};
pub use operation::{OperationStep, Port, Src4392, Update};
pub use port_control::{
    AudioFormat, OutputDataSource, PortAControl1Register, PortAControl2Register,
    PortBControl1Register, PortBControl2Register, PortClockSource, PortMasterClockDivider,
};
pub use registers::{AsAddressByte, ReadWrite, RegisterAddress, Registers, READ_BIT};
pub use reset::Reset;
pub use sample_rate_converter::{
    Deemphasis, InterpolationFilterGroupDelay, SrcClockSource, SrcControl1, SrcControl2,
    SrcControl3, SrcOutputWordLength, SrcRatio, SrcSource,
};
pub use transaction::{Action, Step, Transaction};
