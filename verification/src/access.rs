//! Single register accesses and how they are framed on the serial bus.
//!
//! Every access is a frame of two bytes. The first is a command: an opcode
//! in bits `[7:5]` and the register address in bits `[2:0]`. In a write the
//! second byte is the value for the register. In a read it is a filler, and
//! the device sends the register's value while the filler is clocked out.

use vstd::prelude::*;
use crate::error::Error;
use crate::registers::MAX_ADDRESS;

verus! {

/// Command byte of a read of register 0: opcode `101`.
pub const READ_OPCODE: u8 = 0b1010_0000;

/// Command byte of a write of register 0: opcode `001`.
pub const WRITE_OPCODE: u8 = 0b0010_0000;

/// The byte clocked out while the device answers a read.
pub const FILLER: u8 = 0;

/// The opcode field of a command byte.
pub open spec fn opcode_of(command: u8) -> u8 {
    command >> 5
}

/// The register address field of a command byte.
pub open spec fn address_of(command: u8) -> u8 {
    command & 0b111
}

/// The command byte that reads register `addr`.
pub open spec fn read_command(addr: u8) -> u8 {
    READ_OPCODE | addr
}

/// The command byte that writes register `addr`.
pub open spec fn write_command(addr: u8) -> u8 {
    WRITE_OPCODE | addr
}

/// A command byte carries its opcode in the top three bits and a register
/// address that the device decodes in the low three, with the two bits
/// between them clear.
pub proof fn lemma_command_fields(addr: u8)
    requires
        addr <= MAX_ADDRESS,
    ensures
        opcode_of(read_command(addr)) == 0b101,
        address_of(read_command(addr)) == addr,
        (read_command(addr) >> 3) & 0b11 == 0,
        opcode_of(write_command(addr)) == 0b001,
        address_of(write_command(addr)) == addr,
        (write_command(addr) >> 3) & 0b11 == 0,
{
    assert({
        &&& (0b1010_0000u8 | addr) >> 5 == 0b101
        &&& (0b1010_0000u8 | addr) & 0b111 == addr
        &&& ((0b1010_0000u8 | addr) >> 3) & 0b11 == 0
        &&& (0b0010_0000u8 | addr) >> 5 == 0b001
        &&& (0b0010_0000u8 | addr) & 0b111 == addr
        &&& ((0b0010_0000u8 | addr) >> 3) & 0b11 == 0
    }) by (bit_vector)
        requires
            addr <= 7,
    ;
}

/// A read of one register that is ready to go on the bus.
#[derive(Debug, Clone, Copy, PartialEq, Eq, Structural)]
pub struct RegisterRead {
    /// Address of the register.
    pub addr: u8,
}

impl RegisterRead {
    /// The read addresses a register that the device has.
    pub open spec fn wf(&self) -> bool {
        self.addr <= MAX_ADDRESS
    }

    /// The frame of the read.
    pub open spec fn spec_bytes(&self) -> [u8; 2] {
        [read_command(self.addr), FILLER]
    }

    /// The two bytes to clock out, while two are clocked in: the read
    /// command for the register, then the filler.
    #[verifier::when_used_as_spec(spec_bytes)]
    pub fn bytes(&self) -> (bytes: [u8; 2])
        ensures
            bytes == self.spec_bytes(),
            bytes[0] == read_command(self.addr),
            bytes[1] == FILLER,
            self.wf() ==> opcode_of(bytes[0]) == 0b101 && address_of(bytes[0]) == self.addr,
    {
        proof {
            if self.wf() {
                lemma_command_fields(self.addr);
            }
        }
        [READ_OPCODE | self.addr, FILLER]
    }

    /// What the read comes to, given how the transport ended it and the two
    /// bytes that were clocked in.
    pub open spec fn spec_complete<E>(self, outcome: Result<(), E>, received: [u8; 2]) -> Result<
        u8,
        Error,
    > {
        match outcome {
            Ok(_) => Ok(received[1]),
            Err(_) => Err(Error::SpiError),
        }
    }

    /// Ends the read. `outcome` is what the transport returned for the
    /// transfer and `received` the buffer it clocked the answer into. The
    /// register's value is the second byte received. A failure of the
    /// transport is reported as [`Error::SpiError`], whatever its cause, and
    /// the buffer is then not looked at.
    #[verifier::when_used_as_spec(spec_complete)]
    pub fn complete<E>(self, outcome: Result<(), E>, received: [u8; 2]) -> (result: Result<
        u8,
        Error,
    >)
        ensures
            result == self.spec_complete(outcome, received),
            outcome is Ok ==> result == Ok::<u8, Error>(received[1]),
            outcome is Err ==> result == Err::<u8, Error>(Error::SpiError),
    {
        match outcome {
            Ok(_) => Ok(received[1]),
            Err(_) => Err(Error::SpiError),
        }
    }
}

/// A write of one register that is ready to go on the bus.
#[derive(Debug, Clone, Copy, PartialEq, Eq, Structural)]
pub struct RegisterWrite {
    /// Address of the register.
    pub addr: u8,
    /// The value for the register.
    pub value: u8,
}

impl RegisterWrite {
    /// The write addresses a register that the device has.
    pub open spec fn wf(&self) -> bool {
        self.addr <= MAX_ADDRESS
    }

    /// The frame of the write.
    pub open spec fn spec_bytes(&self) -> [u8; 2] {
        [write_command(self.addr), self.value]
    }

    /// The two bytes to clock out: the write command for the register, then
    /// the value.
    #[verifier::when_used_as_spec(spec_bytes)]
    pub fn bytes(&self) -> (bytes: [u8; 2])
        ensures
            bytes == self.spec_bytes(),
            bytes[0] == write_command(self.addr),
            bytes[1] == self.value,
            self.wf() ==> opcode_of(bytes[0]) == 0b001 && address_of(bytes[0]) == self.addr,
    {
        proof {
            if self.wf() {
                lemma_command_fields(self.addr);
            }
        }
        [WRITE_OPCODE | self.addr, self.value]
    }

    /// What the write comes to, given how the transport ended it.
    pub open spec fn spec_complete<E>(self, outcome: Result<(), E>) -> Result<(), Error> {
        match outcome {
            Ok(_) => Ok(()),
            Err(_) => Err(Error::SpiError),
        }
    }

    /// Ends the write. `outcome` is what the transport returned for it. A
    /// failure of the transport is reported as [`Error::SpiError`], whatever
    /// its cause. Nothing is read back from the device.
    #[verifier::when_used_as_spec(spec_complete)]
    pub fn complete<E>(self, outcome: Result<(), E>) -> (result: Result<(), Error>)
        ensures
            result == self.spec_complete(outcome),
            outcome is Ok ==> result == Ok::<(), Error>(()),
            outcome is Err ==> result == Err::<(), Error>(Error::SpiError),
    {
        match outcome {
            Ok(_) => Ok(()),
            Err(_) => Err(Error::SpiError),
        }
    }
}

} // verus!
