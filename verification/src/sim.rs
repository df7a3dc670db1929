//! A port that lives in memory: its registers hold what was last stored in
//! them, and its status register reads as a given list of words, one per
//! read. Operations run on it exactly as a platform would run them on the
//! hardware, and everything they ask for is logged.

use crate::bits::any_set;
use crate::regs::{Register, Registers, StatusFlag, STS_SCCB_EN};
use crate::sequence::{Action, Machine, Operation};
use vstd::prelude::*;

verus! {

/// The state of a port in memory.
pub struct PortModel {
    /// What the registers hold: for each the word last stored in it. The
    /// status register is never read from here.
    pub regs: Registers,
    /// What the reads of the status register return, in order.
    pub status: Seq<u32>,
    /// How many status words have been read.
    pub cursor: nat,
    /// Every action carried out so far, in order.
    pub log: Seq<Action>,
}

impl PortModel {
    /// Whether the port has no answer to `action`: a read of the status
    /// register when all the status words have been read.
    pub open spec fn stalls(self, action: Action) -> bool {
        action == Action::Read(Register::Sts) && self.cursor >= self.status.len()
    }

    /// The word the port hands back for `action`: the next status word for a
    /// read of the status register, the register's content for any other
    /// read, zero for an action that reads nothing.
    pub open spec fn reply(self, action: Action) -> u32 {
        match action {
            Action::Read(reg) => if reg == Register::Sts {
                self.status[self.cursor as int]
            } else {
                self.regs.get(reg)
            },
            _ => 0,
        }
    }

    /// The port after `action`: a write is stored, a peripheral reset clears
    /// every register, a read of the status register uses up one status
    /// word, and the action is logged.
    pub open spec fn after(self, action: Action) -> PortModel {
        let logged = PortModel { log: self.log.push(action), ..self };
        match action {
            Action::Read(reg) => if reg == Register::Sts {
                PortModel { cursor: self.cursor + 1, ..logged }
            } else {
                logged
            },
            Action::Write(reg, value) => PortModel { regs: self.regs.put(reg, value), ..logged },
            Action::ResetPeripheral => PortModel { regs: Registers::cleared(), ..logged },
            _ => logged,
        }
    }
}

/// The machine and the port after the machine has run on the port as far as
/// it gets: to its end, or to a read of the status register for which no
/// status word is left.
pub open spec fn run(machine: Machine, port: PortModel) -> (Machine, PortModel)
    decreases
        machine.steps.len() - machine.pc,
        (if machine.held is Some { 0nat } else { 1nat }),
        port.status.len() - port.cursor,
{
    let action = machine.pending();
    if action == Action::Done || port.stalls(action) {
        (machine, port)
    } else {
        run(machine.advance(port.reply(action)), port.after(action))
    }
}

/// Whether a wait that starts on `port` comes to an end: whether, among the
/// status words not yet read, there is one at which "some bit under `mask` is
/// set" equals `level`.
pub open spec fn settles(port: PortModel, mask: u32, level: bool) -> bool
    decreases port.status.len() - port.cursor,
{
    if port.cursor >= port.status.len() {
        false
    } else if any_set(port.status[port.cursor as int], mask) == level {
        true
    } else {
        settles(port.after(Action::Read(Register::Sts)), mask, level)
    }
}

/// The port after a wait has polled it: every status word up to and with the
/// first that ends the wait has been read, or every word there is if none ends
/// it, and nothing else has happened.
pub open spec fn polled(port: PortModel, mask: u32, level: bool) -> PortModel
    decreases port.status.len() - port.cursor,
{
    if port.cursor >= port.status.len() {
        port
    } else if any_set(port.status[port.cursor as int], mask) == level {
        port.after(Action::Read(Register::Sts))
    } else {
        polled(port.after(Action::Read(Register::Sts)), mask, level)
    }
}

/// Whether a control-bus transfer that starts on `port` comes to an end: the
/// bus is seen idle, and after the transfer is started it is seen idle again.
pub open spec fn transfers(port: PortModel) -> bool {
    &&& settles(port, STS_SCCB_EN, false)
    &&& settles(
        polled(port, STS_SCCB_EN, false).after(
            Action::Write(Register::Sts, StatusFlag::Transfer.committed()),
        ),
        STS_SCCB_EN,
        false,
    )
}

/// The port after one control-bus transfer: polled until the bus is idle,
/// the transfer flag written with its write-enable bit, polled until the bus
/// is idle again.
pub open spec fn transferred(port: PortModel) -> PortModel {
    polled(
        polled(port, STS_SCCB_EN, false).after(
            Action::Write(Register::Sts, StatusFlag::Transfer.committed()),
        ),
        STS_SCCB_EN,
        false,
    )
}

/// The writes among the actions of a log, in order.
pub open spec fn writes(log: Seq<Action>) -> Seq<(Register, u32)>
    decreases log.len(),
{
    if log.len() == 0 {
        Seq::empty()
    } else {
        match log.last() {
            Action::Write(reg, value) => writes(log.drop_last()).push((reg, value)),
            _ => writes(log.drop_last()),
        }
    }
}

/// A port in memory, for trying operations out without the hardware.
#[derive(Debug)]
pub struct SimulatedPort {
    /// What the registers hold: for each the word last stored in it. The
    /// status register is never read from here.
    pub regs: Registers,
    /// What the reads of the status register return, in order.
    pub status: Vec<u32>,
    /// How many status words have been read.
    pub cursor: usize,
    /// Every action carried out so far, in order.
    pub log: Vec<Action>,
}

impl View for SimulatedPort {
    type V = PortModel;

    open spec fn view(&self) -> PortModel {
        PortModel {
            regs: self.regs,
            status: self.status@,
            cursor: self.cursor as nat,
            log: self.log@,
        }
    }
}

impl SimulatedPort {
    /// A port with the given register contents whose status register will
    /// read as the words of `status`, one after the other.
    pub fn new(regs: Registers, status: Vec<u32>) -> (port: SimulatedPort)
        ensures
            port@ == (PortModel { regs, status: status@, cursor: 0, log: Seq::empty() }),
    {
        SimulatedPort { regs, status, cursor: 0, log: Vec::new() }
    }

    /// Runs `op` on the port as far as it gets. Returns whether the operation
    /// is complete; it is not when a read of the status register was due and
    /// every status word had been read.
    pub fn run(&mut self, op: &mut Operation) -> (done: bool)
        ensures
            (final(op)@, final(self)@) == run(old(op)@, old(self)@),
            done == final(op)@.finished(),
    {
        loop
            invariant
                run(op@, self@) == run(old(op)@, old(self)@),
            decreases
                op@.steps.len() - op@.pc,
                (if op@.held is Some { 0nat } else { 1nat }),
                self@.status.len() - self@.cursor,
        {
            let action = op.pending();
            let mut input: u32 = 0;
            match action {
                Action::Done => {
                    return true;
                },
                Action::Read(reg) => {
                    if reg == Register::Sts {
                        if self.cursor >= self.status.len() {
                            return false;
                        }
                        input = self.status[self.cursor];
                        self.cursor = self.cursor + 1;
                    } else {
                        input = self.regs.read(reg);
                    }
                },
                Action::Write(reg, value) => {
                    self.regs.write(reg, value);
                },
                Action::ResetPeripheral => {
                    self.regs = Registers::reset();
                },
                _ => {},
            }
            self.log.push(action);
            op.advance(input);
        }
    }
}

} // verus!
