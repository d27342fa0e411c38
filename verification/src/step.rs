//! Operations as sequences of register accesses.
//!
//! An operation is handed out one [`Step`] at a time. A step names the
//! register access to perform next and holds what the operation does once
//! the access has ended. Whoever owns the bus performs the access and
//! resumes the operation with its result; that gives the next step, until
//! the step is [`Step::Done`] and holds the result of the operation.
//!
//! An access that fails ends the operation at once with the error of the
//! access. Writes that went out before it are not undone, and nothing is
//! tried a second time.

use vstd::prelude::*;
use crate::access::{RegisterRead, RegisterWrite};
use crate::config::OutputChannel;
use crate::error::Error;
use crate::registers::{
    spec_with_mute, spec_with_power_down, with_mute, with_power_down, FUNCTION_CONTROL,
    SYSTEM_CONTROL,
};

verus! {

/// What an operation does next.
#[derive(Debug, Clone, Copy, PartialEq, Eq)]
pub enum Step {
    /// Perform the read, then resume with its result.
    Read(RegisterRead, AfterRead),
    /// Perform the write, then resume with its result.
    Write(RegisterWrite, AfterWrite),
    /// The operation is over. No access is left to perform.
    Done(Result<(), Error>),
}

/// What a read-modify-write operation does with the value it has read.
#[derive(Debug, Clone, Copy, PartialEq, Eq, Structural)]
pub enum AfterRead {
    /// Write the function control register back with the mute bit of the
    /// channel changed.
    SetMute(OutputChannel, bool),
    /// Write the system control register back with the power-down bit of
    /// the channel's pair changed.
    SetPowerDown(OutputChannel, bool),
}

/// The writes that an operation still has to make after the write that is
/// on the bus, in the order in which it makes them.
#[derive(Debug, Clone, Copy, PartialEq, Eq, Structural)]
pub enum AfterWrite {
    /// None: the operation ends with the write on the bus.
    Finish,
    /// One more write.
    Write(RegisterWrite),
    /// Two more writes, the left one first.
    WriteTwo(RegisterWrite, RegisterWrite),
}

impl Step {
    /// Every access that the step holds addresses a register that the
    /// device has, and a read is of the register that is written back
    /// after it.
    pub open spec fn wf(&self) -> bool {
        match *self {
            Step::Read(read, then) => read.wf() && read.addr == then.register(),
            Step::Write(write, then) => write.wf() && then.wf(),
            Step::Done(_) => true,
        }
    }

    /// The writes that the operation makes from this step on if none fails,
    /// in order. A step that reads first has none yet: what it writes
    /// depends on what it reads.
    pub open spec fn writes(&self) -> Seq<RegisterWrite> {
        match *self {
            Step::Read(_, _) => Seq::empty(),
            Step::Write(write, then) => seq![write] + then.writes(),
            Step::Done(_) => Seq::empty(),
        }
    }
}

impl AfterRead {
    /// The register that the operation reads and writes back.
    pub open spec fn register(&self) -> u8 {
        match *self {
            AfterRead::SetMute(_, _) => FUNCTION_CONTROL,
            AfterRead::SetPowerDown(_, _) => SYSTEM_CONTROL,
        }
    }

    /// The value that the operation writes back when it has read `value`.
    pub open spec fn modified(&self, value: u8) -> u8 {
        match *self {
            AfterRead::SetMute(channel, mute) => spec_with_mute(value, channel, mute),
            AfterRead::SetPowerDown(channel, down) => spec_with_power_down(value, channel, down),
        }
    }

    /// The step that follows a read that ended with `outcome`.
    pub open spec fn spec_resume(self, outcome: Result<u8, Error>) -> Step {
        match outcome {
            Ok(value) => Step::Write(
                RegisterWrite { addr: self.register(), value: self.modified(value) },
                AfterWrite::Finish,
            ),
            Err(error) => Step::Done(Err(error)),
        }
    }

    /// Resumes the operation after its read. `outcome` is the result of the
    /// read, as [`RegisterRead::complete`] gave it.
    ///
    /// If the read failed, the operation ends with that error and writes
    /// nothing. Otherwise one write follows and ends the operation: it puts
    /// the value back into the register it was read from, with the bit that
    /// the operation is about changed and every other bit as it was read.
    #[verifier::when_used_as_spec(spec_resume)]
    pub fn resume(self, outcome: Result<u8, Error>) -> (step: Step)
        ensures
            step == self.spec_resume(outcome),
            outcome matches Err(error) ==> step == Step::Done(Err(error)),
            outcome matches Ok(value) ==> step == Step::Write(
                (RegisterWrite { addr: self.register(), value: self.modified(value) }),
                AfterWrite::Finish,
            ),
            step.wf(),
    {
        match outcome {
            Ok(value) => {
                let write = match self {
                    AfterRead::SetMute(channel, mute) => RegisterWrite {
                        addr: FUNCTION_CONTROL,
                        value: with_mute(value, channel, mute),
                    },
                    AfterRead::SetPowerDown(channel, down) => RegisterWrite {
                        addr: SYSTEM_CONTROL,
                        value: with_power_down(value, channel, down),
                    },
                };
                Step::Write(write, AfterWrite::Finish)
            },
            Err(error) => Step::Done(Err(error)),
        }
    }
}

impl AfterWrite {
    /// Every write addresses a register that the device has.
    pub open spec fn wf(&self) -> bool {
        match *self {
            AfterWrite::Finish => true,
            AfterWrite::Write(write) => write.wf(),
            AfterWrite::WriteTwo(first, second) => first.wf() && second.wf(),
        }
    }

    /// The writes, in the order in which they are made.
    pub open spec fn writes(&self) -> Seq<RegisterWrite> {
        match *self {
            AfterWrite::Finish => Seq::empty(),
            AfterWrite::Write(write) => seq![write],
            AfterWrite::WriteTwo(first, second) => seq![first, second],
        }
    }

    /// The step that follows a write that ended with `outcome`.
    pub open spec fn spec_resume(self, outcome: Result<(), Error>) -> Step {
        match outcome {
            Ok(_) => match self {
                AfterWrite::Finish => Step::Done(Ok(())),
                AfterWrite::Write(write) => Step::Write(write, AfterWrite::Finish),
                AfterWrite::WriteTwo(first, second) => Step::Write(first, AfterWrite::Write(second)),
            },
            Err(error) => Step::Done(Err(error)),
        }
    }

    /// Resumes the operation after a write. `outcome` is the result of the
    /// write, as [`RegisterWrite::complete`] gave it.
    ///
    /// If the write failed, the operation ends with that error and the
    /// writes that were left are dropped. Otherwise the first write that is
    /// left comes next and the others stay behind it in their order; with
    /// none left the operation ends in success.
    #[verifier::when_used_as_spec(spec_resume)]
    pub fn resume(self, outcome: Result<(), Error>) -> (step: Step)
        ensures
            step == self.spec_resume(outcome),
            outcome matches Err(error) ==> step == Step::Done(Err(error)),
            outcome is Ok ==> step.writes() == self.writes(),
            outcome is Ok ==> (step == Step::Done(Ok(())) <==> self == AfterWrite::Finish),
            self.wf() ==> step.wf(),
    {
        match outcome {
            Ok(_) => {
                match self {
                    AfterWrite::Finish => Step::Done(Ok(())),
                    AfterWrite::Write(write) => {
                        assert(seq![write] + Seq::<RegisterWrite>::empty() =~= seq![write]);
                        Step::Write(write, AfterWrite::Finish)
                    },
                    AfterWrite::WriteTwo(first, second) => {
                        assert(seq![first] + seq![second] =~= seq![first, second]);
                        Step::Write(first, AfterWrite::Write(second))
                    },
                }
            },
            Err(error) => Step::Done(Err(error)),
        }
    }
}

} // verus!
