//! Operations as sequences of register steps, and the state machine that
//! carries one out: it names the next thing the platform has to do and takes
//! back what the platform read.

use crate::bits::{any_set, extract, field, has_any, merge, merged};
use crate::regs::Register;
use vstd::prelude::*;

verus! {

/// One step of an operation.
#[derive(Clone, Copy, Debug, PartialEq, Eq, Structural)]
pub enum Step {
    /// Switch the peripheral's clock on.
    EnableClock,
    /// Pulse the peripheral's reset line.
    ResetPeripheral,
    /// Busy-sleep for a number of microseconds.
    Delay { micros: u32 },
    /// Store `value` in `reg`; fields that `value` leaves at zero are at
    /// their reset value afterwards.
    Write { reg: Register, value: u32 },
    /// Read `reg`, replace the bits under `mask` by those of `bits`, and store
    /// the result back.
    Modify { reg: Register, mask: u32, bits: u32 },
    /// Poll the status register until "some bit under `mask` is set" equals
    /// `level`. There is no bound on the number of polls.
    Wait { mask: u32, level: bool },
    /// Read `reg` and keep the field under `mask` as the operation's value.
    Fetch { reg: Register, mask: u32, shift: u32 },
}

/// What the platform has to do next.
#[derive(Clone, Copy, Debug, PartialEq, Eq, Structural)]
pub enum Action {
    /// Switch the peripheral's clock on.
    EnableClock,
    /// Pulse the peripheral's reset line.
    ResetPeripheral,
    /// Busy-sleep for this many microseconds.
    Delay(u32),
    /// Read the register and hand its value to `advance`.
    Read(Register),
    /// Store the value in the register.
    Write(Register, u32),
    /// Nothing: the operation is complete.
    Done,
}

impl Step {
    /// What a fetch step keeps of the word it read.
    pub open spec fn fetched(mask: u32, shift: u32, word: u32) -> u32 {
        if shift < 32 {
            field(word, mask, shift)
        } else {
            0
        }
    }
}

/// An operation under way: its steps, the step it is at, the word a modify
/// step has read and not yet written back, and the value fetched so far.
pub struct Machine {
    pub steps: Seq<Step>,
    pub pc: nat,
    pub held: Option<u32>,
    pub value: Option<u32>,
}

impl Machine {
    /// The machine at the first of `steps`.
    pub open spec fn load(steps: Seq<Step>) -> Machine {
        Machine { steps, pc: 0, held: None, value: None }
    }

    /// Whether every step has been carried out.
    pub open spec fn finished(self) -> bool {
        self.pc >= self.steps.len()
    }

    /// The machine at the step after the current one.
    pub open spec fn next(self) -> Machine {
        Machine { pc: self.pc + 1, held: None, ..self }
    }

    /// What the platform has to do next.
    pub open spec fn pending(self) -> Action {
        if self.finished() {
            Action::Done
        } else {
            match self.steps[self.pc as int] {
                Step::EnableClock => Action::EnableClock,
                Step::ResetPeripheral => Action::ResetPeripheral,
                Step::Delay { micros } => Action::Delay(micros),
                Step::Write { reg, value } => Action::Write(reg, value),
                Step::Modify { reg, mask, bits } => match self.held {
                    None => Action::Read(reg),
                    Some(word) => Action::Write(reg, merged(word, mask, bits)),
                },
                Step::Wait { mask, level } => Action::Read(Register::Sts),
                Step::Fetch { reg, mask, shift } => Action::Read(reg),
            }
        }
    }

    /// The machine after the platform has done what was pending; `input` is
    /// the word it read, and is ignored unless a read was pending.
    pub open spec fn advance(self, input: u32) -> Machine {
        if self.finished() {
            self
        } else {
            match self.steps[self.pc as int] {
                Step::Modify { reg, mask, bits } => match self.held {
                    None => Machine { held: Some(input), ..self },
                    Some(word) => self.next(),
                },
                Step::Wait { mask, level } => if any_set(input, mask) == level {
                    self.next()
                } else {
                    self
                },
                Step::Fetch { reg, mask, shift } => Machine {
                    value: Some(Step::fetched(mask, shift, input)),
                    ..self.next()
                },
                _ => self.next(),
            }
        }
    }
}

/// An operation of the driver, ready to be carried out step by step.
///
/// The platform asks `pending` what to do, does it, and reports back through
/// `advance`, until `pending` answers `Action::Done`.
#[derive(Debug)]
pub struct Operation {
    steps: Vec<Step>,
    pc: usize,
    held: Option<u32>,
    value: Option<u32>,
}

impl View for Operation {
    type V = Machine;

    closed spec fn view(&self) -> Machine {
        Machine { steps: self.steps@, pc: self.pc as nat, held: self.held, value: self.value }
    }
}

impl Operation {
    /// An operation that carries out `steps` in order.
    pub fn new(steps: Vec<Step>) -> (op: Operation)
        ensures
            op@ == Machine::load(steps@),
    {
        Operation { steps, pc: 0, held: None, value: None }
    }

    /// The steps of the operation.
    pub fn steps(&self) -> (steps: &Vec<Step>)
        ensures
            steps@ == self@.steps,
    {
        &self.steps
    }

    /// The number of steps already carried out.
    pub fn position(&self) -> (pc: usize)
        ensures
            pc == self@.pc,
    {
        self.pc
    }

    /// Whether the operation is complete.
    pub fn is_done(&self) -> (done: bool)
        ensures
            done == self@.finished(),
    {
        self.pc >= self.steps.len()
    }

    /// The value that a fetch step has read, if one has run.
    pub fn value(&self) -> (value: Option<u32>)
        ensures
            value == self@.value,
    {
        self.value
    }

    /// What the platform has to do next.
    pub fn pending(&self) -> (action: Action)
        ensures
            action == self@.pending(),
    {
        if self.pc >= self.steps.len() {
            return Action::Done;
        }
        match self.steps[self.pc] {
            Step::EnableClock => Action::EnableClock,
            Step::ResetPeripheral => Action::ResetPeripheral,
            Step::Delay { micros } => Action::Delay(micros),
            Step::Write { reg, value } => Action::Write(reg, value),
            Step::Modify { reg, mask, bits } => match self.held {
                None => Action::Read(reg),
                Some(word) => Action::Write(reg, merge(word, mask, bits)),
            },
            Step::Wait { mask, level } => Action::Read(Register::Sts),
            Step::Fetch { reg, mask, shift } => Action::Read(reg),
        }
    }

    /// Takes note that the platform has done what was pending. `input` is the
    /// word it read where a read was pending; any word will do otherwise.
    pub fn advance(&mut self, input: u32)
        ensures
            final(self)@ == old(self)@.advance(input),
    {
        if self.pc >= self.steps.len() {
            return ;
        }
        match self.steps[self.pc] {
            Step::Modify { reg, mask, bits } => match self.held {
                None => {
                    self.held = Some(input);
                },
                Some(word) => {
                    self.held = None;
                    self.pc = self.pc + 1;
                },
            },
            Step::Wait { mask, level } => {
                if has_any(input, mask) == level {
                    self.held = None;
                    self.pc = self.pc + 1;
                }
            },
            Step::Fetch { reg, mask, shift } => {
                let kept: u32 = if shift < 32 {
                    extract(input, mask, shift)
                } else {
                    0
                };
                self.value = Some(kept);
                self.held = None;
                self.pc = self.pc + 1;
            },
            _ => {
                self.held = None;
                self.pc = self.pc + 1;
            },
        }
    }
}

} // verus!
