use k210_dvp::regs::{Register, Registers};
use k210_dvp::sequence::{Action, Step};
use k210_dvp::sim::SimulatedPort;
use k210_dvp::{sccb_addr_len, DVP};

const IDLE: u32 = 0;
const BUSY: u32 = 0x0100_0000;
const START_TRANSFER: u32 = 0x0300_0000;

fn driver(width: sccb_addr_len) -> DVP {
    let mut dvp = DVP::new();
    let _ = dvp.init(width);
    dvp
}

fn transfer() -> Vec<Step> {
    vec![
        Step::Wait { mask: BUSY, level: false },
        Step::Write { reg: Register::Sts, value: START_TRANSFER },
        Step::Wait { mask: BUSY, level: false },
    ]
}

#[test]
fn new_driver_uses_8_bit_addresses() {
    assert_eq!(DVP::new().sccb_addr_len(), sccb_addr_len::W8);
}

#[test]
fn init_sets_the_address_width() {
    assert_eq!(driver(sccb_addr_len::W16).sccb_addr_len(), sccb_addr_len::W16);
    assert_eq!(driver(sccb_addr_len::W8).sccb_addr_len(), sccb_addr_len::W8);
}

#[test]
fn send_with_8_bit_addresses_is_three_bytes() {
    let op = driver(sccb_addr_len::W8).sccb_send_data(0x42, 0x12, 0x80);
    let mut expected = vec![
        Step::Modify { reg: Register::SccbCfg, mask: 0x3, bits: 2 },
        Step::Write { reg: Register::SccbCtl, value: 0x0080_1243 },
    ];
    expected.extend(transfer());
    assert_eq!(op.steps(), &expected);
}

#[test]
fn send_with_8_bit_addresses_drops_the_high_address_byte() {
    let op = driver(sccb_addr_len::W8).sccb_send_data(0x42, 0x3412, 0x80);
    assert_eq!(op.steps()[1], Step::Write { reg: Register::SccbCtl, value: 0x0080_1243 });
}

#[test]
fn send_with_16_bit_addresses_is_four_bytes() {
    let op = driver(sccb_addr_len::W16).sccb_send_data(0x78, 0x3103, 0x11);
    let mut expected = vec![
        Step::Modify { reg: Register::SccbCfg, mask: 0x3, bits: 3 },
        // device 0x79, address high 0x31, address low 0x03, data 0x11
        Step::Write { reg: Register::SccbCtl, value: 0x1103_3179 },
    ];
    expected.extend(transfer());
    assert_eq!(op.steps(), &expected);
}

#[test]
fn send_keeps_an_odd_device_address() {
    let op = driver(sccb_addr_len::W8).sccb_send_data(0x43, 0x00, 0x00);
    assert_eq!(op.steps()[1], Step::Write { reg: Register::SccbCtl, value: 0x0000_0043 });
    let op = driver(sccb_addr_len::W8).sccb_send_data(0xff, 0xff, 0xff);
    assert_eq!(op.steps()[1], Step::Write { reg: Register::SccbCtl, value: 0x00ff_ffff });
    let op = driver(sccb_addr_len::W16).sccb_send_data(0xfe, 0xffff, 0xff);
    assert_eq!(op.steps()[1], Step::Write { reg: Register::SccbCtl, value: 0xffff_ffff });
}

#[test]
fn send_runs_one_transfer() {
    let mut op = driver(sccb_addr_len::W8).sccb_send_data(0x42, 0x12, 0x80);
    let mut regs = Registers::reset();
    regs.sccb_cfg = 0x00ff_ff00;
    // busy twice before the transfer, busy once after it was started
    let mut port = SimulatedPort::new(regs, vec![BUSY, BUSY, IDLE, BUSY, IDLE]);
    assert!(port.run(&mut op));
    assert_eq!(
        port.log,
        vec![
            Action::Read(Register::SccbCfg),
            Action::Write(Register::SccbCfg, 0x00ff_ff02),
            Action::Write(Register::SccbCtl, 0x0080_1243),
            Action::Read(Register::Sts),
            Action::Read(Register::Sts),
            Action::Read(Register::Sts),
            Action::Write(Register::Sts, START_TRANSFER),
            Action::Read(Register::Sts),
            Action::Read(Register::Sts),
        ]
    );
    assert_eq!(port.cursor, 5);
    assert_eq!(port.regs.sccb_cfg, 0x00ff_ff02);
    assert_eq!(port.regs.sccb_ctl, 0x0080_1243);
    assert_eq!(op.value(), None);
}

#[test]
fn send_hangs_while_the_bus_stays_busy() {
    let mut op = driver(sccb_addr_len::W8).sccb_send_data(0x42, 0x12, 0x80);
    let mut port = SimulatedPort::new(Registers::reset(), vec![BUSY; 7]);
    assert!(!port.run(&mut op));
    assert!(!op.is_done());
    assert_eq!(op.position(), 2);
    assert_eq!(port.cursor, 7);
    // the transfer was never started
    assert!(!port.log.contains(&Action::Write(Register::Sts, START_TRANSFER)));
}

#[test]
fn receive_with_8_bit_addresses_is_two_bytes_then_one() {
    let op = driver(sccb_addr_len::W8).sccb_receive_data(0x42, 0x0a);
    let mut expected = vec![
        Step::Modify { reg: Register::SccbCfg, mask: 0x3, bits: 1 },
        Step::Write { reg: Register::SccbCtl, value: 0x0000_0a43 },
    ];
    expected.extend(transfer());
    expected.push(Step::Write { reg: Register::SccbCtl, value: 0x0000_0043 });
    expected.extend(transfer());
    expected.push(Step::Fetch { reg: Register::SccbCfg, mask: 0xff00_0000, shift: 24 });
    assert_eq!(op.steps(), &expected);
}

#[test]
fn receive_with_16_bit_addresses_is_three_bytes_then_one() {
    let op = driver(sccb_addr_len::W16).sccb_receive_data(0x78, 0x300a);
    let mut expected = vec![
        Step::Modify { reg: Register::SccbCfg, mask: 0x3, bits: 2 },
        Step::Write { reg: Register::SccbCtl, value: 0x000a_3079 },
    ];
    expected.extend(transfer());
    expected.push(Step::Write { reg: Register::SccbCtl, value: 0x0000_0079 });
    expected.extend(transfer());
    expected.push(Step::Fetch { reg: Register::SccbCfg, mask: 0xff00_0000, shift: 24 });
    assert_eq!(op.steps(), &expected);
}

#[test]
fn receive_returns_the_byte_in_the_data_field() {
    let mut op = driver(sccb_addr_len::W8).sccb_receive_data(0x42, 0x0a);
    let mut regs = Registers::reset();
    regs.sccb_cfg = 0xa5ff_ff03;
    let mut port = SimulatedPort::new(regs, vec![IDLE, IDLE, IDLE, IDLE]);
    assert!(port.run(&mut op));
    assert_eq!(op.value(), Some(0xa5));
    assert_eq!(
        port.log,
        vec![
            // setup: two bytes
            Action::Read(Register::SccbCfg),
            Action::Write(Register::SccbCfg, 0xa5ff_ff01),
            Action::Write(Register::SccbCtl, 0x0000_0a43),
            Action::Read(Register::Sts),
            Action::Write(Register::Sts, START_TRANSFER),
            Action::Read(Register::Sts),
            // strobe: the device address alone, marked as in the setup
            Action::Write(Register::SccbCtl, 0x0000_0043),
            Action::Read(Register::Sts),
            Action::Write(Register::Sts, START_TRANSFER),
            Action::Read(Register::Sts),
            // the byte received
            Action::Read(Register::SccbCfg),
        ]
    );
}

#[test]
fn receive_has_no_value_before_the_strobe_is_complete() {
    let mut op = driver(sccb_addr_len::W8).sccb_receive_data(0x42, 0x0a);
    let mut regs = Registers::reset();
    regs.sccb_cfg = 0xa500_0000;
    // the second transfer never ends
    let mut port = SimulatedPort::new(regs, vec![IDLE, IDLE, IDLE, BUSY, BUSY]);
    assert!(!port.run(&mut op));
    assert_eq!(op.value(), None);
    assert_eq!(op.position(), 8);
    assert_eq!(port.log.last(), Some(&Action::Read(Register::Sts)));
}

#[test]
fn receive_reads_the_byte_as_it_is_when_the_strobe_ends() {
    // drive the operation by hand and change the data field late
    let mut op = driver(sccb_addr_len::W16).sccb_receive_data(0x78, 0x300a);
    let mut regs = Registers::reset();
    let mut writes = Vec::new();
    let mut reads_of_cfg = 0;
    loop {
        match op.pending() {
            Action::Done => break,
            Action::Read(Register::Sts) => op.advance(IDLE),
            Action::Read(reg) => {
                if reg == Register::SccbCfg {
                    reads_of_cfg += 1;
                    if reads_of_cfg == 2 {
                        regs.sccb_cfg |= 0x3c00_0000;
                    }
                }
                op.advance(regs.read(reg));
            }
            Action::Write(reg, value) => {
                regs.write(reg, value);
                writes.push((reg, value));
                op.advance(0);
            }
            _ => op.advance(0),
        }
    }
    assert_eq!(op.value(), Some(0x3c));
    assert_eq!(
        writes,
        vec![
            (Register::SccbCfg, 0x0000_0002),
            (Register::SccbCtl, 0x000a_3079),
            (Register::Sts, START_TRANSFER),
            (Register::SccbCtl, 0x0000_0079),
            (Register::Sts, START_TRANSFER),
        ]
    );
}
