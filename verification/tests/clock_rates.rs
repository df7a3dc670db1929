use k210_dvp::clock::{sccb_period_count, sccb_rate_for, xclk_period_count, xclk_rate_achieved};
use k210_dvp::regs::{Register, Registers};
use k210_dvp::sequence::{Action, Step};
use k210_dvp::sim::SimulatedPort;
use k210_dvp::DVP;

fn some_registers() -> Registers {
    Registers {
        dvp_cfg: 0x1234_5678,
        r_addr: 0x8000_0000,
        g_addr: 0x8001_0000,
        b_addr: 0x8002_0000,
        cmos_cfg: 0x0101_0103,
        sccb_cfg: 0xab12_3402,
        sccb_ctl: 0x0000_2143,
        axi: 0x0000_0003,
        sts: 0,
        rgb_addr: 0x8003_0000,
    }
}

#[test]
fn sccb_clk_rate_programs_truncated_period() {
    let dvp = DVP::new();
    // 50 MHz / 100 kHz / 2 = 250
    let (rate, mut op) = dvp.sccb_set_clk_rate(50_000_000, 100_000_000, 100_000);
    assert_eq!(rate, 100_000_000 / 500);
    assert_eq!(
        op.steps(),
        &vec![Step::Modify { reg: Register::SccbCfg, mask: 0x00ff_ff00, bits: 0x00fa_fa00 }]
    );
    let mut port = SimulatedPort::new(some_registers(), vec![]);
    assert!(port.run(&mut op));
    let mut expected = some_registers();
    expected.sccb_cfg = 0xabfa_fa02;
    assert_eq!(port.regs, expected);
    assert_eq!(
        port.log,
        vec![Action::Read(Register::SccbCfg), Action::Write(Register::SccbCfg, 0xabfa_fa02)]
    );
}

#[test]
fn sccb_clk_rate_truncates_not_rounds() {
    let dvp = DVP::new();
    // 1000 / 3 = 333, 333 / 2 = 166; rounding would give 167
    let (rate, op) = dvp.sccb_set_clk_rate(1000, 1000, 3);
    assert_eq!(rate, 1000 / 332);
    assert_eq!(
        op.steps(),
        &vec![Step::Modify { reg: Register::SccbCfg, mask: 0x00ff_ff00, bits: 0x00a6_a600 }]
    );
}

#[test]
fn sccb_clk_rate_uses_pixel_clock_for_the_result() {
    let dvp = DVP::new();
    let (rate, _) = dvp.sccb_set_clk_rate(1000, 7_000_000, 100);
    // period 5, from the bus clock; rate from the pixel clock
    assert_eq!(rate, 700_000);
}

#[test]
fn sccb_clk_rate_period_255_is_the_last_that_fits() {
    let dvp = DVP::new();
    let (rate, op) = dvp.sccb_set_clk_rate(510, 5100, 1);
    assert_eq!(rate, 10);
    assert_eq!(
        op.steps(),
        &vec![Step::Modify { reg: Register::SccbCfg, mask: 0x00ff_ff00, bits: 0x00ff_ff00 }]
    );
}

#[test]
fn sccb_clk_rate_out_of_reach_returns_zero_and_touches_nothing() {
    let dvp = DVP::new();
    // period 256
    let (rate, mut op) = dvp.sccb_set_clk_rate(512, 5100, 1);
    assert_eq!(rate, 0);
    assert!(op.steps().is_empty());
    assert!(op.is_done());
    assert_eq!(op.pending(), Action::Done);
    let mut port = SimulatedPort::new(some_registers(), vec![]);
    assert!(port.run(&mut op));
    assert_eq!(port.regs, some_registers());
    assert!(port.log.is_empty());
    assert_eq!(port.cursor, 0);
}

#[test]
fn sccb_period_count_values() {
    assert_eq!(sccb_period_count(50_000_000, 100_000), Some(250));
    assert_eq!(sccb_period_count(50_000_000, 1000), None);
    assert_eq!(sccb_period_count(511, 1), Some(255));
    assert_eq!(sccb_period_count(512, 1), None);
    assert_eq!(sccb_period_count(1, 1), Some(0));
    assert_eq!(sccb_rate_for(1000, 5), 100);
}

#[test]
fn xclk_rate_divides_the_bus_clock() {
    let dvp = DVP::new();
    // 100 / 10 - 1 = 9; 100 / 20 = 5
    let (rate, op) = dvp.set_xclk_rate(100, 5);
    assert_eq!(rate, 5);
    assert_eq!(
        op.steps()[0],
        Step::Modify { reg: Register::CmosCfg, mask: 0x0000_01ff, bits: 0x0000_0109 }
    );
    // 195 MHz for 24 MHz: 195 / 48 = 4, period 3, rate 195 MHz / 8
    let (rate, op) = dvp.set_xclk_rate(195_000_000, 24_000_000);
    assert_eq!(rate, 24_375_000);
    assert_eq!(
        op.steps()[0],
        Step::Modify { reg: Register::CmosCfg, mask: 0x0000_01ff, bits: 0x0000_0103 }
    );
}

#[test]
fn xclk_rate_with_slow_bus_clock_runs_undivided() {
    let dvp = DVP::new();
    // bus clock equal to twice the rate: period 0, half the bus clock
    let (rate, op) = dvp.set_xclk_rate(10, 5);
    assert_eq!(rate, 5);
    assert_eq!(
        op.steps()[0],
        Step::Modify { reg: Register::CmosCfg, mask: 0x0000_01ff, bits: 0x0000_0100 }
    );
    let (rate, _) = dvp.set_xclk_rate(1, 1);
    assert_eq!(rate, 0);
    let (rate, _) = dvp.set_xclk_rate(0, 0);
    assert_eq!(rate, 0);
    let (rate, _) = dvp.set_xclk_rate(0, 7);
    assert_eq!(rate, 0);
}

#[test]
fn xclk_rate_caps_the_period_at_255() {
    let dvp = DVP::new();
    let (rate, op) = dvp.set_xclk_rate(4_000_000_000, 1);
    assert_eq!(rate, 4_000_000_000 / 512);
    assert_eq!(
        op.steps()[0],
        Step::Modify { reg: Register::CmosCfg, mask: 0x0000_01ff, bits: 0x0000_01ff }
    );
    // quotient 256: period 255 without the cap being needed
    assert_eq!(xclk_period_count(512, 1), 255);
    assert_eq!(xclk_period_count(514, 1), 255);
    assert_eq!(xclk_period_count(510, 1), 254);
}

#[test]
fn xclk_rate_does_not_overflow_on_large_rates() {
    let dvp = DVP::new();
    // twice the rate is beyond 32 bits: the bus clock is below it
    let (rate, _) = dvp.set_xclk_rate(4_000_000_000, 3_000_000_000);
    assert_eq!(rate, 2_000_000_000);
    assert_eq!(xclk_period_count(u32::MAX, u32::MAX), 0);
    assert_eq!(xclk_rate_achieved(u32::MAX, 0), u32::MAX / 2);
}

#[test]
fn xclk_rate_resets_the_sensor() {
    let dvp = DVP::new();
    let (_, mut op) = dvp.set_xclk_rate(100, 5);
    let mut port = SimulatedPort::new(Registers::reset(), vec![]);
    assert!(port.run(&mut op));
    assert_eq!(
        port.log,
        vec![
            Action::Read(Register::CmosCfg),
            Action::Write(Register::CmosCfg, 0x0000_0109),
            Action::Read(Register::CmosCfg),
            Action::Write(Register::CmosCfg, 0x0100_0109),
            Action::Delay(200_000),
            Action::Read(Register::CmosCfg),
            Action::Write(Register::CmosCfg, 0x0000_0109),
            Action::Delay(200_000),
            Action::Read(Register::CmosCfg),
            Action::Write(Register::CmosCfg, 0x0000_0109),
            Action::Delay(200_000),
            Action::Read(Register::CmosCfg),
            Action::Write(Register::CmosCfg, 0x0001_0109),
            Action::Delay(200_000),
        ]
    );
    assert_eq!(port.regs.cmos_cfg, 0x0001_0109);
}
