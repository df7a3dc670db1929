//! What holds of the driver's operations whatever the port held before,
//! stated over a port in memory.

use crate::bits::{any_set, field, lemma_merged_bits, lemma_merged_idempotent, merged};
use crate::clock::{sccb_period, xclk_period, xclk_rate_for, MAX_PERIOD};
use crate::codes::image_format;
use crate::dvp::{
    burst_count, burst_length, clock_word, ctl_word, format_word, geometry_fits, geometry_word,
    output_mode, sccb_addr_len, scl_counts, switched, DVP,
};
use crate::regs::{
    Register, StatusFlag, AXI_GM_MLEN, AXI_GM_MLEN_SHIFT, CFG_BURST_SIZE_4BEATS, CFG_FORMAT,
    CFG_FORMAT_SHIFT, CFG_GEOMETRY, CFG_HREF_BURST_NUM, CFG_HREF_BURST_NUM_SHIFT, CFG_LINE_NUM,
    CFG_LINE_NUM_SHIFT, CMOS_CLK_DIV, CMOS_CLK_DIV_SHIFT, CMOS_CLK_ENABLE, CMOS_CLOCK,
    CMOS_POWER_DOWN, CMOS_RESET, CTL_DEVICE_ADDRESS, CTL_DEVICE_ADDRESS_SHIFT, CTL_REG_ADDRESS,
    CTL_REG_ADDRESS_SHIFT, CTL_WDATA_BYTE0, CTL_WDATA_BYTE0_SHIFT, CTL_WDATA_BYTE1,
    CTL_WDATA_BYTE1_SHIFT, SCCB_BYTE_NUM, SCCB_BYTE_NUM_SHIFT, SCCB_RDATA, SCCB_RDATA_SHIFT,
    SCCB_SCL_COUNTS, SCCB_SCL_HCNT, SCCB_SCL_HCNT_SHIFT, SCCB_SCL_LCNT, SCCB_SCL_LCNT_SHIFT,
    STS_FRAME_FINISH, STS_FRAME_START,
};
use crate::sequence::{Action, Machine, Step};
use crate::sim::{polled, run, settles, transferred, transfers, writes, PortModel};
use crate::stepping::{
    lemma_polled, lemma_run_finished, lemma_run_modify, lemma_run_step, lemma_run_transfer,
    lemma_transferred, lemma_writes_push,
};
use vstd::prelude::*;

verus! {

/// Setting a control-bus clock rate whose period count fits the counters
/// stores that count, the bus clock over the rate over two, in the low and in
/// the high counter, leaves the rest of the port as it was, and reports the
/// pixel clock over twice the count.
pub proof fn law_clk_rate_programs_period(
    bus_freq: u32,
    pixel_freq: u32,
    clk_rate: u32,
    port: PortModel,
)
    requires
        clk_rate > 0,
        0 < sccb_period(bus_freq, clk_rate) <= MAX_PERIOD,
    ensures
        ({
            let count = bus_freq as int / clk_rate as int / 2;
            let end = run(Machine::load(DVP::clk_rate_steps(bus_freq, clk_rate)), port);
            let word = end.1.regs.sccb_cfg;
            &&& DVP::clk_rate_result(bus_freq, pixel_freq, clk_rate) == pixel_freq as int / (count
                * 2)
            &&& end.0.finished()
            &&& field(word, SCCB_SCL_LCNT, SCCB_SCL_LCNT_SHIFT) == count
            &&& field(word, SCCB_SCL_HCNT, SCCB_SCL_HCNT_SHIFT) == count
            &&& field(word, SCCB_BYTE_NUM, SCCB_BYTE_NUM_SHIFT) == field(
                port.regs.sccb_cfg,
                SCCB_BYTE_NUM,
                SCCB_BYTE_NUM_SHIFT,
            )
            &&& field(word, SCCB_RDATA, SCCB_RDATA_SHIFT) == field(
                port.regs.sccb_cfg,
                SCCB_RDATA,
                SCCB_RDATA_SHIFT,
            )
            &&& end.1.regs == port.regs.put(Register::SccbCfg, word)
        }),
{
    let count = sccb_period(bus_freq, clk_rate);
    let c = count as u8;
    let bits = scl_counts(c);
    let before = port.regs.sccb_cfg;
    lemma_run_modify(Register::SccbCfg, SCCB_SCL_COUNTS, bits, port);
    assert(DVP::clk_rate_steps(bus_freq, clk_rate) == seq![
        Step::Modify { reg: Register::SccbCfg, mask: SCCB_SCL_COUNTS, bits },
    ]);
    let mask = SCCB_SCL_COUNTS;
    let word = merged(before, mask, bits);
    assert(bits == c * 0x100 + c * 0x1_0000);
    assert({
        &&& (word & 0x0000_ff00u32) >> 8u32 == c
        &&& (word & 0x00ff_0000u32) >> 16u32 == c
        &&& (word & 0x0000_0003u32) >> 0u32 == (before & 0x0000_0003u32) >> 0u32
        &&& (word & 0xff00_0000u32) >> 24u32 == (before & 0xff00_0000u32) >> 24u32
    }) by (bit_vector)
        requires
            word == (before & !mask) | (bits & mask),
            mask == 0x0000_ff00u32 | 0x00ff_0000u32,
            bits == c * 0x100 + c * 0x1_0000,
    ;
}

/// Setting a control-bus clock rate whose period count does not fit the
/// counters reports zero and does nothing: the operation has no step, and
/// running it leaves the port exactly as it was.
pub proof fn law_clk_rate_out_of_reach(
    bus_freq: u32,
    pixel_freq: u32,
    clk_rate: u32,
    port: PortModel,
)
    requires
        sccb_period(bus_freq, clk_rate) > MAX_PERIOD,
    ensures
        DVP::clk_rate_result(bus_freq, pixel_freq, clk_rate) == 0,
        DVP::clk_rate_steps(bus_freq, clk_rate).len() == 0,
        Machine::load(DVP::clk_rate_steps(bus_freq, clk_rate)).pending() == Action::Done,
        run(Machine::load(DVP::clk_rate_steps(bus_freq, clk_rate)), port).1 == port,
{
}

/// Setting a bit of the configuration register a second time to the same
/// value changes no register: switching an output, an interrupt or automatic
/// capture on or off twice leaves the registers as doing it once.
pub proof fn law_config_bit_idempotent(mask: u32, on: bool, port: PortModel)
    ensures
        ({
            let plan = Machine::load(DVP::config_bit_steps(mask, on));
            let once = run(plan, port);
            let twice = run(plan, once.1);
            &&& once.0.finished()
            &&& twice.0.finished()
            &&& twice.1.regs == once.1.regs
        }),
{
    let plan = Machine::load(DVP::config_bit_steps(mask, on));
    let bits = switched(mask, on);
    lemma_run_modify(Register::DvpCfg, mask, bits, port);
    let once = run(plan, port);
    lemma_run_modify(Register::DvpCfg, mask, bits, once.1);
    lemma_merged_idempotent(port.regs.dvp_cfg, mask, bits);
}

/// Switching an output on or off a second time changes no register: the
/// registers are as after the first time.
pub proof fn law_output_enable_idempotent(index: output_mode, enable: bool, port: PortModel)
    ensures
        ({
            let plan = Machine::load(DVP::config_bit_steps(index.enable_bit(), enable));
            let once = run(plan, port);
            let twice = run(plan, once.1);
            &&& once.0.finished()
            &&& twice.0.finished()
            &&& twice.1.regs == once.1.regs
            &&& any_set(once.1.regs.dvp_cfg, index.enable_bit()) == enable
            &&& once.1.regs.dvp_cfg & !index.enable_bit() == port.regs.dvp_cfg
                & !index.enable_bit()
            &&& once.1.regs == port.regs.put(Register::DvpCfg, once.1.regs.dvp_cfg)
        }),
{
    let mask = index.enable_bit();
    let bits = switched(mask, enable);
    let before = port.regs.dvp_cfg;
    law_config_bit_idempotent(mask, enable, port);
    lemma_run_modify(Register::DvpCfg, mask, bits, port);
    lemma_merged_bits(before, mask, bits);
    assert(((((before & !mask) | (bits & mask)) & mask) != 0) == (bits == mask)) by (bit_vector)
        requires
            mask == 4u32 || mask == 8u32,
            bits == mask || bits == 0,
    ;
}

/// The sensor clock rate for a wanted rate is zero where the bus clock is at
/// most twice that rate, and else the bus clock over twice the capped
/// quotient. Left out are the bus clocks of two and more that are at most
/// twice the wanted rate: there the divider period is zero and the rate is
/// half the bus clock.
pub proof fn law_xclk_rate(bus_freq: u32, xclk_rate: u32)
    requires
        bus_freq > 2 * xclk_rate || bus_freq < 2,
    ensures
        bus_freq <= 2 * xclk_rate ==> xclk_rate_for(bus_freq, xclk_period(bus_freq, xclk_rate))
            == 0,
        bus_freq > 2 * xclk_rate ==> xclk_rate_for(bus_freq, xclk_period(bus_freq, xclk_rate)) == {
            let capped = if bus_freq as int / (2 * xclk_rate) - 1 < 255 {
                bus_freq as int / (2 * xclk_rate) - 1
            } else {
                255
            };
            bus_freq as int / ((capped + 1) * 2)
        },
{
    if bus_freq <= 2 * xclk_rate {
        assert(xclk_period(bus_freq, xclk_rate) == 0);
        assert((0 + 1) * 2 == 2);
        assert(bus_freq as int / 2 == 0);
    }
}

/// Where the bus clock is at most twice the wanted rate, the sensor clock
/// runs at half the bus clock.
pub proof fn law_xclk_rate_undivided(bus_freq: u32, xclk_rate: u32)
    requires
        bus_freq <= 2 * xclk_rate,
    ensures
        xclk_period(bus_freq, xclk_rate) == 0,
        xclk_rate_for(bus_freq, xclk_period(bus_freq, xclk_rate)) == bus_freq as int / 2,
{
    assert((0 + 1) * 2 == 2);
}

/// Setting the sensor clock rate stores the divider period in the divider
/// field and switches the clock on; the reset sequence that follows leaves
/// the power-down line low and the reset line high. Every other bit of the
/// port is as it was, and the operation never waits.
pub proof fn law_xclk_programs_divider(bus_freq: u32, xclk_rate: u32, port: PortModel)
    requires
        xclk_rate > 0 || bus_freq == 0,
    ensures
        ({
            let period = xclk_period(bus_freq, xclk_rate);
            let end = run(Machine::load(DVP::xclk_steps(period as u8)), port);
            let word = end.1.regs.cmos_cfg;
            let touched = CMOS_CLOCK | CMOS_POWER_DOWN | CMOS_RESET;
            &&& end.0.finished()
            &&& field(word, CMOS_CLK_DIV, CMOS_CLK_DIV_SHIFT) == period
            &&& any_set(word, CMOS_CLK_ENABLE)
            &&& !any_set(word, CMOS_POWER_DOWN)
            &&& any_set(word, CMOS_RESET)
            &&& word & !touched == port.regs.cmos_cfg & !touched
            &&& end.1.regs == port.regs.put(Register::CmosCfg, word)
        }),
{
    let period = xclk_period(bus_freq, xclk_rate);
    assert(0 <= period <= 255) by {
        if bus_freq > 2 * xclk_rate {
            let quotient = bus_freq as int / (2 * xclk_rate);
            assert(quotient >= 1) by (nonlinear_arith)
                requires
                    quotient == bus_freq as int / (2 * xclk_rate),
                    0 < 2 * xclk_rate < bus_freq,
            ;
        }
    }
    let p = period as u8;
    let steps = DVP::xclk_steps(p);
    let clock = clock_word(p);
    assert(steps =~= seq![
        Step::Modify { reg: Register::CmosCfg, mask: CMOS_CLOCK, bits: clock },
        DVP::reset_steps()[0],
        DVP::reset_steps()[1],
        DVP::reset_steps()[2],
        DVP::reset_steps()[3],
        DVP::reset_steps()[4],
        DVP::reset_steps()[5],
        DVP::reset_steps()[6],
        DVP::reset_steps()[7],
    ]);
    let w0 = port.regs.cmos_cfg;
    let m0 = Machine::load(steps);
    lemma_run_step(m0, port);
    let w1 = merged(w0, CMOS_CLOCK, clock);
    let p1 = port.after(Action::Read(Register::CmosCfg)).after(
        Action::Write(Register::CmosCfg, w1),
    );
    let m1 = m0.next();
    lemma_run_step(m1, p1);
    let w2 = merged(w1, CMOS_POWER_DOWN, CMOS_POWER_DOWN);
    let p2 = p1.after(Action::Read(Register::CmosCfg)).after(
        Action::Write(Register::CmosCfg, w2),
    );
    let m2 = m1.next();
    lemma_run_step(m2, p2);
    let p3 = p2.after(Action::Delay(crate::dvp::RESET_SETTLE_MICROS));
    let m3 = m2.next();
    lemma_run_step(m3, p3);
    let w4 = merged(w2, CMOS_POWER_DOWN, 0);
    let p4 = p3.after(Action::Read(Register::CmosCfg)).after(
        Action::Write(Register::CmosCfg, w4),
    );
    let m4 = m3.next();
    lemma_run_step(m4, p4);
    let p5 = p4.after(Action::Delay(crate::dvp::RESET_SETTLE_MICROS));
    let m5 = m4.next();
    lemma_run_step(m5, p5);
    let w6 = merged(w4, CMOS_RESET, 0);
    let p6 = p5.after(Action::Read(Register::CmosCfg)).after(
        Action::Write(Register::CmosCfg, w6),
    );
    let m6 = m5.next();
    lemma_run_step(m6, p6);
    let p7 = p6.after(Action::Delay(crate::dvp::RESET_SETTLE_MICROS));
    let m7 = m6.next();
    lemma_run_step(m7, p7);
    let w8 = merged(w6, CMOS_RESET, CMOS_RESET);
    let p8 = p7.after(Action::Read(Register::CmosCfg)).after(
        Action::Write(Register::CmosCfg, w8),
    );
    let m8 = m7.next();
    lemma_run_step(m8, p8);
    let p9 = p8.after(Action::Delay(crate::dvp::RESET_SETTLE_MICROS));
    lemma_run_finished(m8.next(), p9);
    let touched = CMOS_CLOCK | CMOS_POWER_DOWN | CMOS_RESET;
    let cm = CMOS_CLOCK;
    assert({
        &&& (w8 & 0x0000_00ffu32) >> 0u32 == p
        &&& w8 & 0x0000_0100u32 != 0
        &&& w8 & 0x0100_0000u32 == 0
        &&& w8 & 0x0001_0000u32 != 0
        &&& w8 & !touched == w0 & !touched
    }) by (bit_vector)
        requires
            cm == 0x0000_00ffu32 | 0x0000_0100u32,
            touched == cm | 0x0100_0000u32 | 0x0001_0000u32,
            clock == p + 0x0000_0100u32,
            w1 == (w0 & !cm) | (clock & cm),
            w2 == (w1 & !0x0100_0000u32) | (0x0100_0000u32 & 0x0100_0000u32),
            w4 == (w2 & !0x0100_0000u32) | (0u32 & 0x0100_0000u32),
            w6 == (w4 & !0x0001_0000u32) | (0u32 & 0x0001_0000u32),
            w8 == (w6 & !0x0001_0000u32) | (0x0001_0000u32 & 0x0001_0000u32),
    ;
}

/// Capturing a frame, whatever the status register reads. The operation
/// polls until a frame start shows and acknowledges it, polls until the next
/// frame start shows, writes the one word that acknowledges both frame events
/// and switches conversion on, and polls until the frame finish shows. It is
/// complete exactly when all three waits come to an end, and then the last
/// status word it read shows the frame finish. It writes nothing but the
/// acknowledge and, after it, the capture word, each at most once.
pub proof fn law_get_image_trace(port: PortModel)
    ensures
        ({
            let ack = Action::Write(Register::Sts, StatusFlag::FrameStart.committed());
            let capture = Action::Write(Register::Sts, DVP::capture_word());
            let end = run(Machine::load(DVP::get_image_steps()), port);
            let first = polled(port, STS_FRAME_START, true);
            let second = polled(first.after(ack), STS_FRAME_START, true);
            let last = polled(second.after(capture), STS_FRAME_FINISH, true);
            let started = settles(port, STS_FRAME_START, true);
            let restarted = started && settles(first.after(ack), STS_FRAME_START, true);
            let finished = restarted && settles(second.after(capture), STS_FRAME_FINISH, true);
            &&& end.0.finished() == finished
            &&& finished ==> end.1 == last
            &&& finished ==> any_set(port.status[end.1.cursor - 1], STS_FRAME_FINISH)
            &&& writes(end.1.log) == if restarted {
                writes(port.log).push((Register::Sts, StatusFlag::FrameStart.committed())).push(
                    (Register::Sts, DVP::capture_word()),
                )
            } else if started {
                writes(port.log).push((Register::Sts, StatusFlag::FrameStart.committed()))
            } else {
                writes(port.log)
            }
        }),
{
    let ack = Action::Write(Register::Sts, StatusFlag::FrameStart.committed());
    let capture = Action::Write(Register::Sts, DVP::capture_word());
    let m0 = Machine::load(DVP::get_image_steps());
    let first = polled(port, STS_FRAME_START, true);
    lemma_polled(port, STS_FRAME_START, true);
    lemma_run_step(m0, port);
    if settles(port, STS_FRAME_START, true) {
        let m1 = m0.next();
        lemma_run_step(m1, first);
        lemma_writes_push(first.log, ack);
        let m2 = m1.next();
        let second = polled(first.after(ack), STS_FRAME_START, true);
        lemma_polled(first.after(ack), STS_FRAME_START, true);
        lemma_run_step(m2, first.after(ack));
        if settles(first.after(ack), STS_FRAME_START, true) {
            let m3 = m2.next();
            lemma_run_step(m3, second);
            lemma_writes_push(second.log, capture);
            let m4 = m3.next();
            let last = polled(second.after(capture), STS_FRAME_FINISH, true);
            lemma_polled(second.after(capture), STS_FRAME_FINISH, true);
            lemma_run_step(m4, second.after(capture));
            if settles(second.after(capture), STS_FRAME_FINISH, true) {
                lemma_run_finished(m4.next(), last);
            }
        }
    }
}

/// Writing a register over the control bus, whatever the status register
/// reads. The operation sets the transfer length to three bytes with 8-bit
/// and four bytes with 16-bit register addresses, loads the payload and runs
/// one transfer. It is complete exactly when the transfer comes to an end.
pub proof fn law_send_trace(dvp: DVP, dev_addr: u8, reg_addr: u16, reg_data: u8, port: PortModel)
    ensures
        ({
            let end = run(Machine::load(dvp.send_steps(dev_addr, reg_addr, reg_data)), port);
            let length = merged(
                port.regs.sccb_cfg,
                SCCB_BYTE_NUM,
                dvp.send_length().code() as u32,
            );
            let payload = dvp.send_payload(dev_addr, reg_addr, reg_data);
            let loaded = port.after(Action::Read(Register::SccbCfg)).after(
                Action::Write(Register::SccbCfg, length),
            ).after(Action::Write(Register::SccbCtl, payload));
            &&& field(length, SCCB_BYTE_NUM, SCCB_BYTE_NUM_SHIFT) == dvp.send_length().code()
            &&& dvp.send_length().bytes() == match dvp.addr_len() {
                sccb_addr_len::W8 => 3nat,
                sccb_addr_len::W16 => 4nat,
            }
            &&& end.0.finished() == transfers(loaded)
            &&& transfers(loaded) ==> end.1 == transferred(loaded)
            &&& transfers(loaded) ==> writes(end.1.log) == writes(port.log).push(
                (Register::SccbCfg, length),
            ).push((Register::SccbCtl, payload)).push(
                (Register::Sts, StatusFlag::Transfer.committed()),
            )
        }),
{
    let code = dvp.send_length().code() as u32;
    let before = port.regs.sccb_cfg;
    let length = merged(before, SCCB_BYTE_NUM, code);
    let payload = dvp.send_payload(dev_addr, reg_addr, reg_data);
    let steps = dvp.send_steps(dev_addr, reg_addr, reg_data);
    assert(steps =~= seq![
        Step::Modify { reg: Register::SccbCfg, mask: SCCB_BYTE_NUM, bits: code },
        Step::Write { reg: Register::SccbCtl, value: payload },
        DVP::transfer_steps()[0],
        DVP::transfer_steps()[1],
        DVP::transfer_steps()[2],
    ]);
    assert((((before & !0x0000_0003u32) | (code & 0x0000_0003u32)) & 0x0000_0003u32) >> 0u32
        == code) by (bit_vector)
        requires
            code <= 3,
    ;
    let m0 = Machine::load(steps);
    lemma_run_step(m0, port);
    let p1 = port.after(Action::Read(Register::SccbCfg)).after(
        Action::Write(Register::SccbCfg, length),
    );
    lemma_writes_push(port.log, Action::Read(Register::SccbCfg));
    lemma_writes_push(
        port.after(Action::Read(Register::SccbCfg)).log,
        Action::Write(Register::SccbCfg, length),
    );
    let m1 = m0.next();
    lemma_run_step(m1, p1);
    let p2 = p1.after(Action::Write(Register::SccbCtl, payload));
    lemma_writes_push(p1.log, Action::Write(Register::SccbCtl, payload));
    let m2 = m1.next();
    lemma_run_transfer(m2, p2);
    lemma_transferred(p2);
    if transfers(p2) {
        lemma_run_finished(m2.next().next().next(), transferred(p2));
    }
}

/// Reading a register over the control bus, whatever the status register
/// reads. Setup: the operation sets the transfer length to two bytes with
/// 8-bit and three bytes with 16-bit register addresses, loads the marked
/// device address and the register address, and runs one transfer. Strobe:
/// it loads the marked device address alone, one byte, and runs a second
/// transfer.
/// It is complete exactly when both transfers come to an end, and its value
/// is then the byte that the data field of the control-bus configuration
/// register holds.
pub proof fn law_receive_trace(dvp: DVP, dev_addr: u8, reg_addr: u16, port: PortModel)
    ensures
        ({
            let end = run(Machine::load(dvp.receive_steps(dev_addr, reg_addr)), port);
            let length = merged(
                port.regs.sccb_cfg,
                SCCB_BYTE_NUM,
                dvp.receive_length().code() as u32,
            );
            let payload = dvp.receive_payload(dev_addr, reg_addr);
            let start = (Register::Sts, StatusFlag::Transfer.committed());
            let setup = port.after(Action::Read(Register::SccbCfg)).after(
                Action::Write(Register::SccbCfg, length),
            ).after(Action::Write(Register::SccbCtl, payload));
            let strobe = transferred(setup).after(
                Action::Write(Register::SccbCtl, DVP::strobe_payload(dev_addr)),
            );
            let complete = transfers(setup) && transfers(strobe);
            &&& field(length, SCCB_BYTE_NUM, SCCB_BYTE_NUM_SHIFT) == dvp.receive_length().code()
            &&& dvp.receive_length().bytes() == match dvp.addr_len() {
                sccb_addr_len::W8 => 2nat,
                sccb_addr_len::W16 => 3nat,
            }
            &&& end.0.finished() == complete
            &&& complete ==> end.1 == transferred(strobe).after(Action::Read(Register::SccbCfg))
            &&& complete ==> end.0.value == Some(
                field(end.1.regs.sccb_cfg, SCCB_RDATA, SCCB_RDATA_SHIFT),
            )
            &&& complete ==> end.0.value == Some(
                field(port.regs.sccb_cfg, SCCB_RDATA, SCCB_RDATA_SHIFT),
            )
            &&& complete ==> writes(end.1.log) == writes(port.log).push(
                (Register::SccbCfg, length),
            ).push((Register::SccbCtl, payload)).push(start).push(
                (Register::SccbCtl, DVP::strobe_payload(dev_addr)),
            ).push(start)
        }),
{
    let code = dvp.receive_length().code() as u32;
    let before = port.regs.sccb_cfg;
    let length = merged(before, SCCB_BYTE_NUM, code);
    let payload = dvp.receive_payload(dev_addr, reg_addr);
    let alone = DVP::strobe_payload(dev_addr);
    let steps = dvp.receive_steps(dev_addr, reg_addr);
    assert(steps =~= seq![
        Step::Modify { reg: Register::SccbCfg, mask: SCCB_BYTE_NUM, bits: code },
        Step::Write { reg: Register::SccbCtl, value: payload },
        DVP::transfer_steps()[0],
        DVP::transfer_steps()[1],
        DVP::transfer_steps()[2],
        Step::Write { reg: Register::SccbCtl, value: alone },
        DVP::transfer_steps()[0],
        DVP::transfer_steps()[1],
        DVP::transfer_steps()[2],
        Step::Fetch { reg: Register::SccbCfg, mask: SCCB_RDATA, shift: SCCB_RDATA_SHIFT },
    ]);
    assert({
        &&& (((before & !0x0000_0003u32) | (code & 0x0000_0003u32)) & 0x0000_0003u32) >> 0u32
            == code
        &&& (((before & !0x0000_0003u32) | (code & 0x0000_0003u32)) & 0xff00_0000u32) >> 24u32 == (
        before & 0xff00_0000u32) >> 24u32
    }) by (bit_vector)
        requires
            code <= 3,
    ;
    let m0 = Machine::load(steps);
    lemma_run_step(m0, port);
    let p1 = port.after(Action::Read(Register::SccbCfg)).after(
        Action::Write(Register::SccbCfg, length),
    );
    lemma_writes_push(port.log, Action::Read(Register::SccbCfg));
    lemma_writes_push(
        port.after(Action::Read(Register::SccbCfg)).log,
        Action::Write(Register::SccbCfg, length),
    );
    let m1 = m0.next();
    lemma_run_step(m1, p1);
    let setup = p1.after(Action::Write(Register::SccbCtl, payload));
    lemma_writes_push(p1.log, Action::Write(Register::SccbCtl, payload));
    let m2 = m1.next();
    lemma_run_transfer(m2, setup);
    lemma_transferred(setup);
    if transfers(setup) {
        let m5 = m2.next().next().next();
        lemma_run_step(m5, transferred(setup));
        let strobe = transferred(setup).after(Action::Write(Register::SccbCtl, alone));
        lemma_writes_push(transferred(setup).log, Action::Write(Register::SccbCtl, alone));
        let m6 = m5.next();
        lemma_run_transfer(m6, strobe);
        lemma_transferred(strobe);
        if transfers(strobe) {
            let m9 = m6.next().next().next();
            lemma_run_step(m9, transferred(strobe));
            let done = transferred(strobe).after(Action::Read(Register::SccbCfg));
            lemma_writes_push(transferred(strobe).log, Action::Read(Register::SccbCfg));
            lemma_run_finished(
                Machine {
                    value: Some(
                        Step::fetched(SCCB_RDATA, SCCB_RDATA_SHIFT, transferred(strobe).regs.sccb_cfg),
                    ),
                    ..m9.next()
                },
                done,
            );
        }
    }
}

/// Setting the pixel format stores the format's number in the format field
/// and leaves every other bit of the port as it was.
pub proof fn law_format_programs_field(format: image_format, port: PortModel)
    ensures
        ({
            let end = run(Machine::load(DVP::format_steps(format)), port);
            let word = end.1.regs.dvp_cfg;
            &&& end.0.finished()
            &&& field(word, CFG_FORMAT, CFG_FORMAT_SHIFT) == format.code()
            &&& word & !CFG_FORMAT == port.regs.dvp_cfg & !CFG_FORMAT
            &&& end.1.regs == port.regs.put(Register::DvpCfg, word)
        }),
{
    let code = format.code();
    let bits = format_word(format);
    let before = port.regs.dvp_cfg;
    lemma_run_modify(Register::DvpCfg, CFG_FORMAT, bits, port);
    lemma_merged_bits(before, CFG_FORMAT, bits);
    let word = merged(before, CFG_FORMAT, bits);
    assert((word & 0x0000_0600u32) >> 9u32 == code) by (bit_vector)
        requires
            word == (before & !0x0000_0600u32) | (bits & 0x0000_0600u32),
            bits == code * 0x200,
            code <= 3,
    ;
}

/// Switching burst mode sets the burst bit to the mode and the burst length
/// of the memory bus to four beats with burst mode and to one without, and
/// leaves every other bit of the port as it was.
pub proof fn law_burst_programs_both(burst: bool, port: PortModel)
    ensures
        ({
            let end = run(Machine::load(DVP::burst_steps(burst)), port);
            let cfg = end.1.regs.dvp_cfg;
            let axi = end.1.regs.axi;
            &&& end.0.finished()
            &&& any_set(cfg, CFG_BURST_SIZE_4BEATS) == burst
            &&& cfg & !CFG_BURST_SIZE_4BEATS == port.regs.dvp_cfg & !CFG_BURST_SIZE_4BEATS
            &&& field(axi, AXI_GM_MLEN, AXI_GM_MLEN_SHIFT) == burst_length(burst).code()
            &&& burst_length(burst).beats() == if burst {
                4nat
            } else {
                1nat
            }
            &&& axi & !AXI_GM_MLEN == port.regs.axi & !AXI_GM_MLEN
            &&& end.1.regs == port.regs.put(Register::DvpCfg, cfg).put(Register::Axi, axi)
        }),
{
    let bit = switched(CFG_BURST_SIZE_4BEATS, burst);
    let code = burst_length(burst).code() as u32;
    let m0 = Machine::load(DVP::burst_steps(burst));
    lemma_run_step(m0, port);
    let cfg = merged(port.regs.dvp_cfg, CFG_BURST_SIZE_4BEATS, bit);
    let p1 = port.after(Action::Read(Register::DvpCfg)).after(
        Action::Write(Register::DvpCfg, cfg),
    );
    let m1 = m0.next();
    lemma_run_step(m1, p1);
    let axi = merged(port.regs.axi, AXI_GM_MLEN, code);
    let p2 = p1.after(Action::Read(Register::Axi)).after(Action::Write(Register::Axi, axi));
    lemma_run_finished(m1.next(), p2);
    lemma_merged_bits(port.regs.dvp_cfg, CFG_BURST_SIZE_4BEATS, bit);
    lemma_merged_bits(port.regs.axi, AXI_GM_MLEN, code);
    let before = port.regs.dvp_cfg;
    let before_axi = port.regs.axi;
    assert(((((before & !0x0000_0100u32) | (bit & 0x0000_0100u32)) & 0x0000_0100u32) != 0) == (bit
        == 0x0000_0100u32)) by (bit_vector)
        requires
            bit == 0x0000_0100u32 || bit == 0,
    ;
    assert((((before_axi & !0x0000_00ffu32) | (code & 0x0000_00ffu32)) & 0x0000_00ffu32) >> 0u32
        == code) by (bit_vector)
        requires
            code <= 3,
    ;
}

/// Setting an image size that fits stores the burst count, an eighth of the
/// width over the beats of a burst, and the height in their counters, and
/// leaves every other bit of the port as it was.
pub proof fn law_image_size_programs_counters(
    burst: bool,
    width: u16,
    height: u16,
    port: PortModel,
)
    requires
        geometry_fits(burst, width, height),
    ensures
        ({
            let end = run(Machine::load(DVP::image_size_steps(burst, width, height)), port);
            let word = end.1.regs.dvp_cfg;
            &&& end.0.finished()
            &&& field(word, CFG_HREF_BURST_NUM, CFG_HREF_BURST_NUM_SHIFT) == width as int / 8 / (
            if burst {
                4int
            } else {
                1int
            })
            &&& field(word, CFG_LINE_NUM, CFG_LINE_NUM_SHIFT) == height
            &&& word & !CFG_GEOMETRY == port.regs.dvp_cfg & !CFG_GEOMETRY
            &&& end.1.regs == port.regs.put(Register::DvpCfg, word)
        }),
{
    let bursts = burst_count(burst, width);
    let bits = geometry_word(bursts, height as int);
    let before = port.regs.dvp_cfg;
    let mask = CFG_GEOMETRY;
    lemma_run_modify(Register::DvpCfg, mask, bits, port);
    lemma_merged_bits(before, mask, bits);
    let word = merged(before, mask, bits);
    let b = bursts as u32;
    assert(bits == b * 0x1000 + height * 0x10_0000);
    assert({
        &&& (word & 0x000f_f000u32) >> 12u32 == b
        &&& (word & 0x3ff0_0000u32) >> 20u32 == height
    }) by (bit_vector)
        requires
            word == (before & !mask) | (bits & mask),
            mask == 0x000f_f000u32 | 0x3ff0_0000u32,
            bits == b * 0x1000 + height * 0x10_0000,
            b < 256,
            height < 1024,
    ;
}

/// The payload word holds each of its four bytes in the field meant for it.
pub proof fn law_payload_fields(device: u8, address: u8, byte0: u8, byte1: u8)
    ensures
        field(ctl_word(device, address, byte0, byte1), CTL_DEVICE_ADDRESS, CTL_DEVICE_ADDRESS_SHIFT)
            == device,
        field(ctl_word(device, address, byte0, byte1), CTL_REG_ADDRESS, CTL_REG_ADDRESS_SHIFT)
            == address,
        field(ctl_word(device, address, byte0, byte1), CTL_WDATA_BYTE0, CTL_WDATA_BYTE0_SHIFT)
            == byte0,
        field(ctl_word(device, address, byte0, byte1), CTL_WDATA_BYTE1, CTL_WDATA_BYTE1_SHIFT)
            == byte1,
{
    let word = ctl_word(device, address, byte0, byte1);
    assert({
        &&& (word & 0x0000_00ffu32) >> 0u32 == device
        &&& (word & 0x0000_ff00u32) >> 8u32 == address
        &&& (word & 0x00ff_0000u32) >> 16u32 == byte0
        &&& (word & 0xff00_0000u32) >> 24u32 == byte1
    }) by (bit_vector)
        requires
            word == device + address * 0x100 + byte0 * 0x1_0000 + byte1 * 0x100_0000,
    ;
}

} // verus!
