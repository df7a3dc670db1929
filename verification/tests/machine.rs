use k210_dvp::bits::{extract, has_any, merge};
use k210_dvp::regs::{Register, Registers, StatusFlag};
use k210_dvp::sequence::{Action, Operation, Step};
use k210_dvp::sim::SimulatedPort;

#[test]
fn merge_replaces_only_the_bits_under_the_mask() {
    assert_eq!(merge(0xffff_ffff, 0x0000_ff00, 0), 0xffff_00ff);
    assert_eq!(merge(0, 0x0000_ff00, 0xffff_ffff), 0x0000_ff00);
    assert_eq!(merge(0x1234_5678, 0x00ff_ff00, 0x00ab_cd00), 0x12ab_cd78);
    assert_eq!(merge(0x1234_5678, 0, 0xffff_ffff), 0x1234_5678);
    assert_eq!(merge(0x1234_5678, 0xffff_ffff, 0x9abc_def0), 0x9abc_def0);
}

#[test]
fn extract_moves_the_field_down() {
    assert_eq!(extract(0xa512_3456, 0xff00_0000, 24), 0xa5);
    assert_eq!(extract(0xa512_3456, 0x0000_0600, 9), 2);
    assert_eq!(extract(0xffff_ffff, 0x3ff0_0000, 20), 0x3ff);
    assert_eq!(extract(0xffff_ffff, 0, 0), 0);
}

#[test]
fn has_any_tests_the_bits_under_the_mask() {
    assert!(has_any(0x0100_0000, 0x0100_0000));
    assert!(!has_any(0x0200_0000, 0x0100_0000));
    assert!(has_any(0x0000_0002, 0x0000_0003));
    assert!(!has_any(0xffff_ffff, 0));
}

#[test]
fn status_flags_commit_with_their_write_enable_bit() {
    assert_eq!(StatusFlag::FrameStart.mask(), 0x0000_0001);
    assert_eq!(StatusFlag::FrameStart.commit(), 0x0000_0003);
    assert_eq!(StatusFlag::FrameFinish.mask(), 0x0000_0100);
    assert_eq!(StatusFlag::FrameFinish.commit(), 0x0000_0300);
    assert_eq!(StatusFlag::Convert.mask(), 0x0001_0000);
    assert_eq!(StatusFlag::Convert.commit(), 0x0003_0000);
    assert_eq!(StatusFlag::Transfer.mask(), 0x0100_0000);
    assert_eq!(StatusFlag::Transfer.commit(), 0x0300_0000);
}

#[test]
fn registers_store_what_is_written() {
    let all = [
        Register::DvpCfg,
        Register::RAddr,
        Register::GAddr,
        Register::BAddr,
        Register::CmosCfg,
        Register::SccbCfg,
        Register::SccbCtl,
        Register::Axi,
        Register::Sts,
        Register::RgbAddr,
    ];
    let mut regs = Registers::reset();
    for (i, reg) in all.iter().enumerate() {
        assert_eq!(regs.read(*reg), 0);
        regs.write(*reg, 100 + i as u32);
    }
    for (i, reg) in all.iter().enumerate() {
        assert_eq!(regs.read(*reg), 100 + i as u32);
    }
    assert_eq!(regs.sccb_ctl, 106);
    assert_eq!(regs.rgb_addr, 109);
}

#[test]
fn an_operation_without_steps_is_done() {
    let mut op = Operation::new(vec![]);
    assert!(op.is_done());
    assert_eq!(op.pending(), Action::Done);
    op.advance(7);
    assert_eq!(op.pending(), Action::Done);
    assert_eq!(op.position(), 0);
    assert_eq!(op.value(), None);
}

#[test]
fn modify_reads_then_writes() {
    let mut op =
        Operation::new(vec![Step::Modify { reg: Register::Axi, mask: 0xff, bits: 0x1203 }]);
    assert_eq!(op.pending(), Action::Read(Register::Axi));
    assert_eq!(op.pending(), Action::Read(Register::Axi));
    op.advance(0xabcd_ef55);
    assert_eq!(op.position(), 0);
    assert_eq!(op.pending(), Action::Write(Register::Axi, 0xabcd_ef03));
    op.advance(0xdead_beef);
    assert_eq!(op.position(), 1);
    assert!(op.is_done());
}

#[test]
fn wait_polls_until_the_level_shows() {
    let mut op = Operation::new(vec![
        Step::Wait { mask: 0x0100_0000, level: false },
        Step::Wait { mask: 0x0000_0101, level: true },
    ]);
    for _ in 0..5 {
        assert_eq!(op.pending(), Action::Read(Register::Sts));
        op.advance(0x0100_0001);
        assert_eq!(op.position(), 0);
    }
    op.advance(0x0200_0000);
    assert_eq!(op.position(), 1);
    assert_eq!(op.pending(), Action::Read(Register::Sts));
    op.advance(0xffff_fefe);
    assert_eq!(op.position(), 1);
    op.advance(0x0000_0100);
    assert!(op.is_done());
}

#[test]
fn fetch_keeps_the_field() {
    let mut op = Operation::new(vec![
        Step::Fetch { reg: Register::DvpCfg, mask: 0x3ff0_0000, shift: 20 },
        Step::Fetch { reg: Register::Axi, mask: 0xffff_ffff, shift: 32 },
    ]);
    assert_eq!(op.pending(), Action::Read(Register::DvpCfg));
    op.advance(0xfff0_0000);
    assert_eq!(op.value(), Some(0x3ff));
    assert_eq!(op.pending(), Action::Read(Register::Axi));
    op.advance(0xffff_ffff);
    assert_eq!(op.value(), Some(0));
    assert!(op.is_done());
}

#[test]
fn plain_steps_ask_once_each() {
    let mut op = Operation::new(vec![
        Step::EnableClock,
        Step::ResetPeripheral,
        Step::Delay { micros: 12 },
        Step::Write { reg: Register::RgbAddr, value: 34 },
    ]);
    let mut asked = Vec::new();
    while !op.is_done() {
        asked.push(op.pending());
        op.advance(0);
    }
    assert_eq!(
        asked,
        vec![
            Action::EnableClock,
            Action::ResetPeripheral,
            Action::Delay(12),
            Action::Write(Register::RgbAddr, 34),
        ]
    );
}

#[test]
fn simulated_reset_clears_the_registers() {
    let mut regs = Registers::reset();
    regs.dvp_cfg = 0xffff_ffff;
    regs.rgb_addr = 0x1234;
    let mut port = SimulatedPort::new(regs, vec![]);
    let mut op = Operation::new(vec![
        Step::ResetPeripheral,
        Step::Write { reg: Register::Axi, value: 3 },
    ]);
    assert!(port.run(&mut op));
    let mut expected = Registers::reset();
    expected.axi = 3;
    assert_eq!(port.regs, expected);
}

#[test]
fn simulated_status_reads_come_from_the_list() {
    let mut regs = Registers::reset();
    regs.sts = 0x0000_0101;
    let mut port = SimulatedPort::new(regs, vec![0xa000_0000]);
    let mut op = Operation::new(vec![
        Step::Fetch { reg: Register::Sts, mask: 0xf000_0000, shift: 28 },
        Step::Fetch { reg: Register::Sts, mask: 0xf000_0000, shift: 28 },
    ]);
    assert!(!port.run(&mut op));
    assert_eq!(op.value(), Some(0xa));
    assert_eq!(op.position(), 1);
    assert_eq!(port.log, vec![Action::Read(Register::Sts)]);
}
