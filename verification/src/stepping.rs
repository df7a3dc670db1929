//! How a run on a port in memory breaks down step by step.

use crate::bits::{any_set, merged};
use crate::dvp::DVP;
use crate::regs::{Register, StatusFlag, STS_SCCB_EN};
use crate::sequence::{Action, Machine, Step};
use crate::sim::{polled, run, settles, transferred, transfers, writes, PortModel};
use vstd::prelude::*;

verus! {

/// A machine that is at its end runs no further, and leaves the port alone.
pub proof fn lemma_run_finished(machine: Machine, port: PortModel)
    requires
        machine.finished(),
    ensures
        run(machine, port) == (machine, port),
{
}

/// Logging one more action adds it to the writes if it is a write, and
/// leaves the writes as they are if it is not.
pub proof fn lemma_writes_push(log: Seq<Action>, action: Action)
    ensures
        writes(log.push(action)) == match action {
            Action::Write(reg, value) => writes(log).push((reg, value)),
            _ => writes(log),
        },
{
    assert(log.push(action).drop_last() =~= log);
}

/// A wait reads status words and does nothing else: registers and status
/// words stay as they are, no write is logged, and the cursor does not go
/// back. A wait that comes to an end has read at least one word, and the last
/// word it read is one that ends it.
pub proof fn lemma_polled(port: PortModel, mask: u32, level: bool)
    ensures
        polled(port, mask, level).regs == port.regs,
        polled(port, mask, level).status == port.status,
        polled(port, mask, level).cursor >= port.cursor,
        writes(polled(port, mask, level).log) == writes(port.log),
        settles(port, mask, level) ==> {
            let last = polled(port, mask, level).cursor - 1;
            &&& port.cursor <= last < port.status.len()
            &&& any_set(port.status[last], mask) == level
        },
        !settles(port, mask, level) ==> polled(port, mask, level).stalls(
            Action::Read(Register::Sts),
        ),
    decreases port.status.len() - port.cursor,
{
    if port.cursor < port.status.len() {
        let next = port.after(Action::Read(Register::Sts));
        lemma_writes_push(port.log, Action::Read(Register::Sts));
        if any_set(port.status[port.cursor as int], mask) != level {
            lemma_polled(next, mask, level);
        }
    }
}

/// A machine at a wait step polls the port; where the wait comes to an end
/// the machine goes on from the next step, and where it does not the machine
/// is left at the wait with every status word read.
pub proof fn lemma_run_wait(machine: Machine, port: PortModel, mask: u32, level: bool)
    requires
        !machine.finished(),
        machine.held is None,
        machine.steps[machine.pc as int] == (Step::Wait { mask, level }),
    ensures
        settles(port, mask, level) ==> run(machine, port) == run(
            machine.next(),
            polled(port, mask, level),
        ),
        !settles(port, mask, level) ==> run(machine, port) == (machine, polled(port, mask, level)),
    decreases port.status.len() - port.cursor,
{
    assert(machine.pending() == Action::Read(Register::Sts));
    if port.cursor < port.status.len() {
        let next = port.after(Action::Read(Register::Sts));
        let word = port.status[port.cursor as int];
        assert(run(machine, port) == run(machine.advance(word), next));
        if any_set(word, mask) != level {
            assert(machine.advance(word) == machine);
            lemma_run_wait(machine, next, mask, level);
        } else {
            assert(machine.advance(word) == machine.next());
        }
    }
}

/// What a machine that is not at its end does on a port, step by step: the
/// run from the current step is the run from the next step on the port as the
/// current step leaves it, unless the current step cannot be completed.
pub proof fn lemma_run_step(machine: Machine, port: PortModel)
    requires
        !machine.finished(),
        machine.held is None,
    ensures
        match machine.steps[machine.pc as int] {
            Step::EnableClock => run(machine, port) == run(
                machine.next(),
                port.after(Action::EnableClock),
            ),
            Step::ResetPeripheral => run(machine, port) == run(
                machine.next(),
                port.after(Action::ResetPeripheral),
            ),
            Step::Delay { micros } => run(machine, port) == run(
                machine.next(),
                port.after(Action::Delay(micros)),
            ),
            Step::Write { reg, value } => run(machine, port) == run(
                machine.next(),
                port.after(Action::Write(reg, value)),
            ),
            Step::Modify { reg, mask, bits } => if port.stalls(Action::Read(reg)) {
                run(machine, port) == (machine, port)
            } else {
                run(machine, port) == run(
                    machine.next(),
                    port.after(Action::Read(reg)).after(
                        Action::Write(reg, merged(port.reply(Action::Read(reg)), mask, bits)),
                    ),
                )
            },
            Step::Wait { mask, level } => if settles(port, mask, level) {
                run(machine, port) == run(machine.next(), polled(port, mask, level))
            } else {
                run(machine, port) == (machine, polled(port, mask, level))
            },
            Step::Fetch { reg, mask, shift } => if port.stalls(Action::Read(reg)) {
                run(machine, port) == (machine, port)
            } else {
                run(machine, port) == run(
                    Machine {
                        value: Some(Step::fetched(mask, shift, port.reply(Action::Read(reg)))),
                        ..machine.next()
                    },
                    port.after(Action::Read(reg)),
                )
            },
        },
{
    match machine.steps[machine.pc as int] {
        Step::Modify { reg, mask, bits } => {
            if !port.stalls(Action::Read(reg)) {
                let word = port.reply(Action::Read(reg));
                let held = machine.advance(word);
                let read = port.after(Action::Read(reg));
                assert(run(machine, port) == run(held, read));
                assert(held.pending() == Action::Write(reg, merged(word, mask, bits)));
                assert(!read.stalls(held.pending()));
                assert(held.advance(0) == machine.next());
                assert(run(held, read) == run(
                    held.advance(read.reply(held.pending())),
                    read.after(held.pending()),
                ));
            }
        },
        Step::Wait { mask, level } => {
            lemma_run_wait(machine, port, mask, level);
        },
        _ => {},
    }
}

/// A machine at the first step of a control-bus transfer runs the transfer;
/// where the transfer comes to an end the machine goes on from the step after
/// it, and where it does not the machine never gets to its end.
pub proof fn lemma_run_transfer(machine: Machine, port: PortModel)
    requires
        machine.pc + 3 <= machine.steps.len(),
        machine.held is None,
        machine.steps[machine.pc as int] == DVP::transfer_steps()[0],
        machine.steps[machine.pc as int + 1] == DVP::transfer_steps()[1],
        machine.steps[machine.pc as int + 2] == DVP::transfer_steps()[2],
    ensures
        transfers(port) ==> run(machine, port) == run(
            machine.next().next().next(),
            transferred(port),
        ),
        !transfers(port) ==> !run(machine, port).0.finished(),
{
    let idle = polled(port, STS_SCCB_EN, false);
    let start = Action::Write(Register::Sts, StatusFlag::Transfer.committed());
    lemma_polled(port, STS_SCCB_EN, false);
    lemma_run_step(machine, port);
    if settles(port, STS_SCCB_EN, false) {
        let second = machine.next();
        lemma_run_step(second, idle);
        let third = second.next();
        lemma_run_step(third, idle.after(start));
        lemma_polled(idle.after(start), STS_SCCB_EN, false);
    }
}

/// What a control-bus transfer leaves behind, whether it comes to an end or
/// not: the start command in the status register, logged as the one write of
/// the transfer, and every other register as it was.
pub proof fn lemma_transferred(port: PortModel)
    ensures
        transferred(port).regs == port.regs.put(
            Register::Sts,
            StatusFlag::Transfer.committed(),
        ),
        transferred(port).status == port.status,
        writes(transferred(port).log) == writes(port.log).push(
            (Register::Sts, StatusFlag::Transfer.committed()),
        ),
{
    let start = Action::Write(Register::Sts, StatusFlag::Transfer.committed());
    let idle = polled(port, STS_SCCB_EN, false);
    lemma_polled(port, STS_SCCB_EN, false);
    lemma_writes_push(idle.log, start);
    lemma_polled(idle.after(start), STS_SCCB_EN, false);
}

/// An operation of one modify step on a register other than the status
/// register reads the register, stores the merged word and is complete.
pub proof fn lemma_run_modify(reg: Register, mask: u32, bits: u32, port: PortModel)
    requires
        reg != Register::Sts,
    ensures
        ({
            let plan = Machine::load(seq![Step::Modify { reg, mask, bits }]);
            let word = merged(port.regs.get(reg), mask, bits);
            let end = run(plan, port);
            &&& end.0.finished()
            &&& end.1.regs == port.regs.put(reg, word)
            &&& end.1.status == port.status
            &&& end.1.cursor == port.cursor
            &&& end.1.log == port.log.push(Action::Read(reg)).push(Action::Write(reg, word))
        }),
{
    let plan = Machine::load(seq![Step::Modify { reg, mask, bits }]);
    let old_word = port.regs.get(reg);
    let word = merged(old_word, mask, bits);
    assert(plan.pending() == Action::Read(reg));
    let plan1 = plan.advance(old_word);
    let port1 = port.after(Action::Read(reg));
    assert(run(plan, port) == run(plan1, port1));
    assert(plan1.pending() == Action::Write(reg, word));
    let plan2 = plan1.advance(0);
    let port2 = port1.after(Action::Write(reg, word));
    assert(run(plan1, port1) == run(plan2, port2));
    assert(plan2.finished());
    lemma_run_finished(plan2, port2);
}

} // verus!
