use k210_dvp::regs::{Register, Registers};
use k210_dvp::sequence::{Action, Step};
use k210_dvp::sim::SimulatedPort;
use k210_dvp::DVP;

const START: u32 = 0x0000_0001;
const FINISH: u32 = 0x0000_0100;
const ACK_START: u32 = 0x0000_0003;
const ACK_FINISH: u32 = 0x0000_0300;
const CONVERT: u32 = 0x0003_0000;
const CAPTURE: u32 = 0x0003_0303;

fn read() -> Action {
    Action::Read(Register::Sts)
}

fn write(value: u32) -> Action {
    Action::Write(Register::Sts, value)
}

#[test]
fn get_image_steps() {
    let op = DVP::new().get_image();
    assert_eq!(
        op.steps(),
        &vec![
            Step::Wait { mask: START, level: true },
            Step::Write { reg: Register::Sts, value: ACK_START },
            Step::Wait { mask: START, level: true },
            Step::Write { reg: Register::Sts, value: CAPTURE },
            Step::Wait { mask: FINISH, level: true },
        ]
    );
}

#[test]
fn get_image_on_start_start_finish() {
    let mut op = DVP::new().get_image();
    let mut port = SimulatedPort::new(Registers::reset(), vec![START, START, FINISH]);
    assert!(port.run(&mut op));
    assert!(op.is_done());
    assert_eq!(port.log, vec![read(), write(ACK_START), read(), write(CAPTURE), read()]);
    // one combined write, after the second start and before the wait for the finish
    assert_eq!(port.log.iter().filter(|a| **a == write(CAPTURE)).count(), 1);
    assert_eq!(port.log.iter().position(|a| *a == write(CAPTURE)), Some(3));
    assert_eq!(port.cursor, 3);
    assert_eq!(port.regs.sts, CAPTURE);
}

#[test]
fn get_image_polls_through_idle_status() {
    let mut op = DVP::new().get_image();
    let status = vec![0, 0, START, 0, FINISH, START | FINISH, 0, START, FINISH];
    let mut port = SimulatedPort::new(Registers::reset(), status);
    assert!(port.run(&mut op));
    assert_eq!(
        port.log,
        vec![
            read(),
            read(),
            read(),
            write(ACK_START),
            read(),
            read(),
            read(),
            write(CAPTURE),
            read(),
            read(),
            read(),
        ]
    );
    assert_eq!(port.cursor, 9);
}

#[test]
fn get_image_does_not_return_before_the_finish() {
    let mut op = DVP::new().get_image();
    let mut port = SimulatedPort::new(Registers::reset(), vec![START, START, 0, START, 0]);
    assert!(!port.run(&mut op));
    assert!(!op.is_done());
    assert_eq!(op.position(), 4);
    assert_eq!(op.pending(), read());
    assert_eq!(port.log.iter().filter(|a| **a == write(CAPTURE)).count(), 1);
    // more status words: the same operation goes on and ends at the finish
    port.status.push(0);
    port.status.push(FINISH);
    assert!(port.run(&mut op));
    assert_eq!(port.log.iter().filter(|a| **a == write(CAPTURE)).count(), 1);
    assert_eq!(port.log.last(), Some(&read()));
}

#[test]
fn get_image_lets_a_frame_under_way_pass() {
    // a finish that shows before the second start does not end the capture
    let mut op = DVP::new().get_image();
    let mut port = SimulatedPort::new(Registers::reset(), vec![START, FINISH, FINISH]);
    assert!(!port.run(&mut op));
    assert_eq!(op.position(), 2);
    assert_eq!(port.log, vec![read(), write(ACK_START), read(), read()]);
}

#[test]
fn get_image_without_any_start_writes_nothing() {
    let mut op = DVP::new().get_image();
    let mut port = SimulatedPort::new(Registers::reset(), vec![0, FINISH, 0]);
    assert!(!port.run(&mut op));
    assert_eq!(op.position(), 0);
    assert_eq!(port.log, vec![read(), read(), read()]);
    assert_eq!(port.regs, Registers::reset());
}

#[test]
fn start_frame_waits_then_acknowledges() {
    let mut op = DVP::new().start_frame();
    assert_eq!(
        op.steps(),
        &vec![
            Step::Wait { mask: START, level: true },
            Step::Write { reg: Register::Sts, value: ACK_START },
        ]
    );
    let mut port = SimulatedPort::new(Registers::reset(), vec![FINISH, START]);
    assert!(port.run(&mut op));
    assert_eq!(port.log, vec![read(), read(), write(ACK_START)]);
}

#[test]
fn start_convert_is_one_write() {
    let mut op = DVP::new().start_convert();
    assert_eq!(op.steps(), &vec![Step::Write { reg: Register::Sts, value: CONVERT }]);
    let mut port = SimulatedPort::new(Registers::reset(), vec![]);
    assert!(port.run(&mut op));
    assert_eq!(port.log, vec![write(CONVERT)]);
}

#[test]
fn finish_convert_waits_then_acknowledges() {
    let mut op = DVP::new().finish_convert();
    assert_eq!(
        op.steps(),
        &vec![
            Step::Wait { mask: FINISH, level: true },
            Step::Write { reg: Register::Sts, value: ACK_FINISH },
        ]
    );
    let mut port = SimulatedPort::new(Registers::reset(), vec![START, 0, FINISH | START]);
    assert!(port.run(&mut op));
    assert_eq!(port.log, vec![read(), read(), read(), write(ACK_FINISH)]);
}

#[test]
fn the_three_primitives_in_a_row_write_what_get_image_spreads_over_two_writes() {
    let dvp = DVP::new();
    let mut port = SimulatedPort::new(Registers::reset(), vec![START, FINISH]);
    assert!(port.run(&mut dvp.start_frame()));
    assert!(port.run(&mut dvp.start_convert()));
    assert!(port.run(&mut dvp.finish_convert()));
    assert_eq!(
        port.log,
        vec![read(), write(ACK_START), write(CONVERT), read(), write(ACK_FINISH)]
    );
}
