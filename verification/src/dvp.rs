//! The video port driver: every operation of the port as the sequence of
//! register steps that carries it out.

use crate::bits::{any_set, has_any};
use crate::clock::{
    sccb_period, sccb_period_count, sccb_rate, sccb_rate_for, xclk_period, xclk_period_count,
    xclk_rate_achieved, xclk_rate_for, MAX_PERIOD,
};
use crate::codes::{
    burst_length_code, format_code, image_format, transfer_length_code, BurstLength,
    TransferLength,
};
use crate::regs::{
    Register, StatusFlag, AXI_GM_MLEN, CFG_AI_OUTPUT_ENABLE, CFG_AUTO_ENABLE,
    CFG_BURST_SIZE_4BEATS, CFG_DISPLAY_OUTPUT_ENABLE, CFG_FINISH_INT_ENABLE, CFG_FORMAT,
    CFG_GEOMETRY, CFG_START_INT_ENABLE, CMOS_CLK_ENABLE, CMOS_CLOCK, CMOS_POWER_DOWN, CMOS_RESET,
    SCCB_BYTE_NUM, SCCB_RDATA, SCCB_RDATA_SHIFT, SCCB_SCL_COUNTS, STS_FRAME_FINISH,
    STS_FRAME_START, STS_SCCB_EN,
};
use crate::sequence::{Machine, Operation, Step};
use vstd::prelude::*;

verus! {

/// Output mode: planar RGB for the AI engine, or packed RGB565 for display.
#[allow(non_camel_case_types)]
#[derive(Clone, Copy, Debug, PartialEq, Eq, Structural)]
pub enum output_mode {
    AI,
    DISPLAY,
}

/// Width of a register address on the control bus.
#[allow(non_camel_case_types)]
#[derive(Clone, Copy, Debug, PartialEq, Eq, Structural)]
pub enum sccb_addr_len {
    W8,
    W16,
}

/// Interrupt source.
#[allow(non_camel_case_types)]
#[derive(Clone, Copy, Debug, PartialEq, Eq, Structural)]
pub enum interrupt {
    frame_start,
    frame_finish,
}

/// Why an image geometry cannot be programmed.
#[derive(Clone, Copy, Debug, PartialEq, Eq, Structural)]
pub enum GeometryError {
    /// The line needs 256 bursts or more.
    BurstCount,
    /// The image has 1024 lines or more.
    Height,
}

/// Time the sensor is given to settle after each change of its power-down or
/// reset line, in microseconds.
pub const RESET_SETTLE_MICROS: u32 = 200_000;

/// Sensor clock divider that initialisation programs: the bus clock over
/// (3 + 1) * 2.
pub const INIT_CLK_DIV: u8 = 3;

/// Number of bursts per line at which the burst counter overflows.
pub const BURST_COUNT_LIMIT: u16 = 256;

/// Number of lines at which the line counter overflows.
pub const HEIGHT_LIMIT: u16 = 1024;

impl output_mode {
    /// The bit of the configuration register that switches the output on.
    pub open spec fn enable_bit(self) -> u32 {
        match self {
            output_mode::AI => CFG_AI_OUTPUT_ENABLE,
            output_mode::DISPLAY => CFG_DISPLAY_OUTPUT_ENABLE,
        }
    }

    /// The mask of the output's enable bit.
    pub fn enable_mask(self) -> (mask: u32)
        ensures
            mask == self.enable_bit(),
    {
        match self {
            output_mode::AI => CFG_AI_OUTPUT_ENABLE,
            output_mode::DISPLAY => CFG_DISPLAY_OUTPUT_ENABLE,
        }
    }
}

impl interrupt {
    /// The bit of the configuration register that enables the interrupt.
    pub open spec fn enable_bit(self) -> u32 {
        match self {
            interrupt::frame_start => CFG_START_INT_ENABLE,
            interrupt::frame_finish => CFG_FINISH_INT_ENABLE,
        }
    }

    /// The status flag that reports the interrupt.
    pub open spec fn flag(self) -> StatusFlag {
        match self {
            interrupt::frame_start => StatusFlag::FrameStart,
            interrupt::frame_finish => StatusFlag::FrameFinish,
        }
    }

    /// The mask of the interrupt's enable bit.
    pub fn enable_mask(self) -> (mask: u32)
        ensures
            mask == self.enable_bit(),
    {
        match self {
            interrupt::frame_start => CFG_START_INT_ENABLE,
            interrupt::frame_finish => CFG_FINISH_INT_ENABLE,
        }
    }

    /// The status flag of the interrupt.
    pub fn status_flag(self) -> (flag: StatusFlag)
        ensures
            flag == self.flag(),
    {
        match self {
            interrupt::frame_start => StatusFlag::FrameStart,
            interrupt::frame_finish => StatusFlag::FrameFinish,
        }
    }
}

/// The low byte of a register address.
pub open spec fn low_byte(reg_addr: u16) -> u8 {
    (reg_addr % 256) as u8
}

/// The high byte of a register address.
pub open spec fn high_byte(reg_addr: u16) -> u8 {
    (reg_addr / 256) as u8
}

/// A device address with its lowest bit set.
pub open spec fn marked(dev_addr: u8) -> u8 {
    if dev_addr % 2 == 0 {
        (dev_addr + 1) as u8
    } else {
        dev_addr
    }
}

/// The payload word with the four bytes in their fields, lowest first:
/// device address, register address, first and second data byte.
pub open spec fn ctl_word(device: u8, address: u8, byte0: u8, byte1: u8) -> u32 {
    (device + address * 0x100 + byte0 * 0x1_0000 + byte1 * 0x100_0000) as u32
}

/// The same count in the low and in the high period counter.
pub open spec fn scl_counts(count: u8) -> u32 {
    (count * 0x100 + count * 0x1_0000) as u32
}

/// The sensor clock divider with the clock switched on.
pub open spec fn clock_word(period: u8) -> u32 {
    (period + CMOS_CLK_ENABLE) as u32
}

/// The pixel format in its field.
pub open spec fn format_word(format: image_format) -> u32 {
    (format.code() * 0x200) as u32
}

/// Burst count and line count in their fields.
pub open spec fn geometry_word(bursts: int, height: int) -> u32 {
    (bursts * 0x1000 + height * 0x10_0000) as u32
}

/// `mask` where the bit is to be set, zero where it is to be cleared.
pub open spec fn switched(mask: u32, on: bool) -> u32 {
    if on {
        mask
    } else {
        0
    }
}

/// Memory-bus burst length that goes with a burst mode.
pub open spec fn burst_length(burst: bool) -> BurstLength {
    if burst {
        BurstLength::Four
    } else {
        BurstLength::One
    }
}

/// Bursts per line: an eighth of the width, over the beats of a burst,
/// rounding down each time.
pub open spec fn burst_count(burst: bool, width: u16) -> int {
    width as int / 8 / (burst_length(burst).beats() as int)
}

/// Whether burst count and height fit their counters.
pub open spec fn geometry_fits(burst: bool, width: u16, height: u16) -> bool {
    burst_count(burst, width) < BURST_COUNT_LIMIT && height < HEIGHT_LIMIT
}

fn low_byte_of(reg_addr: u16) -> (byte: u8)
    ensures
        byte == low_byte(reg_addr),
{
    assert(reg_addr & 0xff == reg_addr % 256) by (bit_vector);
    (reg_addr & 0xff) as u8
}

fn high_byte_of(reg_addr: u16) -> (byte: u8)
    ensures
        byte == high_byte(reg_addr),
{
    assert(reg_addr >> 8 == reg_addr / 256) by (bit_vector);
    (reg_addr >> 8) as u8
}

fn mark(dev_addr: u8) -> (byte: u8)
    ensures
        byte == marked(dev_addr),
{
    assert(dev_addr | 1 == if dev_addr % 2 == 0 {
        (dev_addr + 1) as u8
    } else {
        dev_addr
    }) by (bit_vector);
    dev_addr | 1
}

fn make_ctl_word(device: u8, address: u8, byte0: u8, byte1: u8) -> (word: u32)
    ensures
        word == ctl_word(device, address, byte0, byte1),
{
    device as u32 + address as u32 * 0x100 + byte0 as u32 * 0x1_0000 + byte1 as u32 * 0x100_0000
}

fn switch(mask: u32, on: bool) -> (bits: u32)
    ensures
        bits == switched(mask, on),
{
    if on {
        mask
    } else {
        0
    }
}

/// The video port driver. It holds the register-address width of the sensor
/// on the control bus, which shapes every control-bus transfer.
#[derive(Debug)]
pub struct DVP {
    sccb_addr_len: sccb_addr_len,
}

impl DVP {
    /// The register-address width in use.
    pub closed spec fn addr_len(&self) -> sccb_addr_len {
        self.sccb_addr_len
    }

    /// The steps that put `count` into both period counters of the control
    /// bus, which gives a clock of equal low and high time.
    pub open spec fn clk_steps(count: u8) -> Seq<Step> {
        seq![Step::Modify { reg: Register::SccbCfg, mask: SCCB_SCL_COUNTS, bits: scl_counts(count) }]
    }

    /// The steps of one control-bus transfer: wait until the bus is idle, set
    /// the transfer flag with its write-enable bit, wait until the bus is idle
    /// again.
    pub open spec fn transfer_steps() -> Seq<Step> {
        seq![
            Step::Wait { mask: STS_SCCB_EN, level: false },
            Step::Write { reg: Register::Sts, value: StatusFlag::Transfer.committed() },
            Step::Wait { mask: STS_SCCB_EN, level: false },
        ]
    }

    /// The steps of the sensor reset sequence: power-down on, power-down off,
    /// reset line low, reset line high, with a settling time after each.
    pub open spec fn reset_steps() -> Seq<Step> {
        seq![
            Step::Modify { reg: Register::CmosCfg, mask: CMOS_POWER_DOWN, bits: CMOS_POWER_DOWN },
            Step::Delay { micros: RESET_SETTLE_MICROS },
            Step::Modify { reg: Register::CmosCfg, mask: CMOS_POWER_DOWN, bits: 0 },
            Step::Delay { micros: RESET_SETTLE_MICROS },
            Step::Modify { reg: Register::CmosCfg, mask: CMOS_RESET, bits: 0 },
            Step::Delay { micros: RESET_SETTLE_MICROS },
            Step::Modify { reg: Register::CmosCfg, mask: CMOS_RESET, bits: CMOS_RESET },
            Step::Delay { micros: RESET_SETTLE_MICROS },
        ]
    }

    /// The steps that program the sensor clock divider, switch the clock on
    /// and reset the sensor.
    pub open spec fn xclk_steps(period: u8) -> Seq<Step> {
        seq![Step::Modify { reg: Register::CmosCfg, mask: CMOS_CLOCK, bits: clock_word(period) }]
            + Self::reset_steps()
    }

    /// The steps of initialisation.
    pub open spec fn init_steps() -> Seq<Step> {
        seq![
            Step::EnableClock,
            Step::ResetPeripheral,
            Step::Modify { reg: Register::CmosCfg, mask: CMOS_CLOCK, bits: clock_word(INIT_CLK_DIV) },
        ] + Self::clk_steps(MAX_PERIOD as u8) + Self::reset_steps()
    }

    /// A driver for a sensor with 8-bit register addresses.
    pub fn new() -> (dvp: DVP)
        ensures
            dvp.addr_len() == sccb_addr_len::W8,
    {
        DVP { sccb_addr_len: sccb_addr_len::W8 }
    }

    /// The register-address width in use.
    pub fn sccb_addr_len(&self) -> (width: sccb_addr_len)
        ensures
            width == self.addr_len(),
    {
        self.sccb_addr_len
    }

    /// Appends the steps that set the control-bus clock as slow as it goes.
    fn sccb_clk_init(steps: &mut Vec<Step>)
        ensures
            final(steps)@ == old(steps)@ + Self::clk_steps(MAX_PERIOD as u8),
    {
        Self::push_clk(steps, MAX_PERIOD as u8);
    }

    /// Appends the steps that put `count` into both period counters.
    fn push_clk(steps: &mut Vec<Step>, count: u8)
        ensures
            final(steps)@ == old(steps)@ + Self::clk_steps(count),
    {
        let bits: u32 = count as u32 * 0x100 + count as u32 * 0x1_0000;
        steps.push(Step::Modify { reg: Register::SccbCfg, mask: SCCB_SCL_COUNTS, bits });
        assert(steps@ =~= old(steps)@ + Self::clk_steps(count));
    }

    /// Appends the steps of one control-bus transfer.
    fn sccb_start_transfer(steps: &mut Vec<Step>)
        ensures
            final(steps)@ == old(steps)@ + Self::transfer_steps(),
    {
        steps.push(Step::Wait { mask: STS_SCCB_EN, level: false });
        steps.push(Step::Write { reg: Register::Sts, value: StatusFlag::Transfer.commit() });
        steps.push(Step::Wait { mask: STS_SCCB_EN, level: false });
        assert(steps@ =~= old(steps)@ + Self::transfer_steps());
    }

    /// Appends the steps of the sensor reset sequence.
    fn reset(steps: &mut Vec<Step>)
        ensures
            final(steps)@ == old(steps)@ + Self::reset_steps(),
    {
        steps.push(
            Step::Modify { reg: Register::CmosCfg, mask: CMOS_POWER_DOWN, bits: CMOS_POWER_DOWN },
        );
        steps.push(Step::Delay { micros: RESET_SETTLE_MICROS });
        steps.push(Step::Modify { reg: Register::CmosCfg, mask: CMOS_POWER_DOWN, bits: 0 });
        steps.push(Step::Delay { micros: RESET_SETTLE_MICROS });
        steps.push(Step::Modify { reg: Register::CmosCfg, mask: CMOS_RESET, bits: 0 });
        steps.push(Step::Delay { micros: RESET_SETTLE_MICROS });
        steps.push(Step::Modify { reg: Register::CmosCfg, mask: CMOS_RESET, bits: CMOS_RESET });
        steps.push(Step::Delay { micros: RESET_SETTLE_MICROS });
        assert(steps@ =~= old(steps)@ + Self::reset_steps());
    }

    /// Appends the step that programs the sensor clock divider and switches
    /// the clock on.
    fn push_clock(steps: &mut Vec<Step>, period: u8)
        ensures
            final(steps)@ == old(steps)@.push(
                Step::Modify { reg: Register::CmosCfg, mask: CMOS_CLOCK, bits: clock_word(period) },
            ),
    {
        let bits: u32 = period as u32 + CMOS_CLK_ENABLE;
        steps.push(Step::Modify { reg: Register::CmosCfg, mask: CMOS_CLOCK, bits });
    }

    /// Initialises the port for a sensor with the given register-address
    /// width: clock on, peripheral reset, sensor clock at an eighth of the bus
    /// clock, control bus at its slowest, sensor reset.
    pub fn init(&mut self, sccb_addr_len: sccb_addr_len) -> (op: Operation)
        ensures
            final(self).addr_len() == sccb_addr_len,
            op@ == Machine::load(Self::init_steps()),
    {
        self.sccb_addr_len = sccb_addr_len;
        let mut steps: Vec<Step> = Vec::new();
        steps.push(Step::EnableClock);
        steps.push(Step::ResetPeripheral);
        Self::push_clock(&mut steps, INIT_CLK_DIV);
        Self::sccb_clk_init(&mut steps);
        Self::reset(&mut steps);
        assert(steps@ =~= Self::init_steps());
        Operation::new(steps)
    }

    /// The steps of setting the control-bus clock rate: none where the period
    /// count does not fit the counters, else the count into both of them.
    pub open spec fn clk_rate_steps(bus_freq: u32, clk_rate: u32) -> Seq<Step> {
        if sccb_period(bus_freq, clk_rate) > MAX_PERIOD {
            Seq::empty()
        } else {
            Self::clk_steps(sccb_period(bus_freq, clk_rate) as u8)
        }
    }

    /// The rate that setting the control-bus clock rate reports: zero where
    /// the period count does not fit the counters, else the pixel clock over
    /// the full period.
    pub open spec fn clk_rate_result(bus_freq: u32, pixel_freq: u32, clk_rate: u32) -> int {
        if sccb_period(bus_freq, clk_rate) > MAX_PERIOD {
            0
        } else {
            sccb_rate(pixel_freq, sccb_period(bus_freq, clk_rate))
        }
    }

    /// Sets the control-bus clock rate. `bus_freq` is the frequency of the
    /// bus clock, from which the period count is derived; `pixel_freq` is the
    /// frequency of the pixel clock, from which the rate achieved is derived.
    ///
    /// Returns the rate achieved and the operation that programs it. A rate so
    /// low that the period count exceeds 255 yields the rate 0 and an
    /// operation that does nothing. A rate above half the bus clock has no
    /// period at all and is not accepted.
    pub fn sccb_set_clk_rate(&self, bus_freq: u32, pixel_freq: u32, clk_rate: u32) -> (r: (
        u32,
        Operation,
    ))
        requires
            clk_rate > 0,
            sccb_period(bus_freq, clk_rate) > 0,
        ensures
            r.0 == Self::clk_rate_result(bus_freq, pixel_freq, clk_rate),
            r.1@ == Machine::load(Self::clk_rate_steps(bus_freq, clk_rate)),
    {
        let mut steps: Vec<Step> = Vec::new();
        match sccb_period_count(bus_freq, clk_rate) {
            None => (0, Operation::new(steps)),
            Some(count) => {
                Self::push_clk(&mut steps, count);
                assert(steps@ =~= Self::clk_steps(count));
                (sccb_rate_for(pixel_freq, count), Operation::new(steps))
            },
        }
    }

    /// The transfer length of a register write.
    pub open spec fn send_length(&self) -> TransferLength {
        match self.addr_len() {
            sccb_addr_len::W8 => TransferLength::Three,
            sccb_addr_len::W16 => TransferLength::Four,
        }
    }

    /// The payload of a register write: the marked device address, the
    /// register address in one or two bytes, high byte first, then the data.
    pub open spec fn send_payload(&self, dev_addr: u8, reg_addr: u16, reg_data: u8) -> u32 {
        match self.addr_len() {
            sccb_addr_len::W8 => ctl_word(marked(dev_addr), low_byte(reg_addr), reg_data, 0),
            sccb_addr_len::W16 => ctl_word(
                marked(dev_addr),
                high_byte(reg_addr),
                low_byte(reg_addr),
                reg_data,
            ),
        }
    }

    /// The steps of a register write: set the transfer length, load the
    /// payload, run one transfer.
    pub open spec fn send_steps(&self, dev_addr: u8, reg_addr: u16, reg_data: u8) -> Seq<Step> {
        seq![
            Step::Modify {
                reg: Register::SccbCfg,
                mask: SCCB_BYTE_NUM,
                bits: self.send_length().code() as u32,
            },
            Step::Write {
                reg: Register::SccbCtl,
                value: self.send_payload(dev_addr, reg_addr, reg_data),
            },
        ] + Self::transfer_steps()
    }

    /// Writes `reg_data` to register `reg_addr` of the device at `dev_addr`.
    /// With 8-bit addressing only the low byte of `reg_addr` goes on the wire.
    pub fn sccb_send_data(&self, dev_addr: u8, reg_addr: u16, reg_data: u8) -> (op: Operation)
        ensures
            op@ == Machine::load(self.send_steps(dev_addr, reg_addr, reg_data)),
    {
        let mut steps: Vec<Step> = Vec::new();
        match self.sccb_addr_len {
            sccb_addr_len::W8 => {
                steps.push(
                    Step::Modify {
                        reg: Register::SccbCfg,
                        mask: SCCB_BYTE_NUM,
                        bits: transfer_length_code(TransferLength::Three) as u32,
                    },
                );
                steps.push(
                    Step::Write {
                        reg: Register::SccbCtl,
                        value: make_ctl_word(mark(dev_addr), low_byte_of(reg_addr), reg_data, 0),
                    },
                );
            },
            sccb_addr_len::W16 => {
                steps.push(
                    Step::Modify {
                        reg: Register::SccbCfg,
                        mask: SCCB_BYTE_NUM,
                        bits: transfer_length_code(TransferLength::Four) as u32,
                    },
                );
                steps.push(
                    Step::Write {
                        reg: Register::SccbCtl,
                        value: make_ctl_word(
                            mark(dev_addr),
                            high_byte_of(reg_addr),
                            low_byte_of(reg_addr),
                            reg_data,
                        ),
                    },
                );
            },
        }
        Self::sccb_start_transfer(&mut steps);
        assert(steps@ =~= self.send_steps(dev_addr, reg_addr, reg_data));
        Operation::new(steps)
    }

    /// The transfer length of the setup phase of a register read: one byte
    /// less than a write, as no data is sent.
    pub open spec fn receive_length(&self) -> TransferLength {
        match self.addr_len() {
            sccb_addr_len::W8 => TransferLength::Two,
            sccb_addr_len::W16 => TransferLength::Three,
        }
    }

    /// The payload of the setup phase of a register read: the marked device
    /// address and the register address.
    pub open spec fn receive_payload(&self, dev_addr: u8, reg_addr: u16) -> u32 {
        match self.addr_len() {
            sccb_addr_len::W8 => ctl_word(marked(dev_addr), low_byte(reg_addr), 0, 0),
            sccb_addr_len::W16 => ctl_word(
                marked(dev_addr),
                high_byte(reg_addr),
                low_byte(reg_addr),
                0,
            ),
        }
    }

    /// The payload of the strobe phase of a register read: the marked device
    /// address and nothing else.
    pub open spec fn strobe_payload(dev_addr: u8) -> u32 {
        ctl_word(marked(dev_addr), 0, 0, 0)
    }

    /// The steps of a register read. Setup: set the transfer length, load
    /// device and register address, run one transfer. Strobe: load the
    /// device address alone and run a second transfer. Then fetch the
    /// received byte. The device address is marked in both phases, as it is
    /// in a write.
    pub open spec fn receive_steps(&self, dev_addr: u8, reg_addr: u16) -> Seq<Step> {
        seq![
            Step::Modify {
                reg: Register::SccbCfg,
                mask: SCCB_BYTE_NUM,
                bits: self.receive_length().code() as u32,
            },
            Step::Write { reg: Register::SccbCtl, value: self.receive_payload(dev_addr, reg_addr) },
        ] + Self::transfer_steps() + seq![
            Step::Write { reg: Register::SccbCtl, value: Self::strobe_payload(dev_addr) },
        ] + Self::transfer_steps() + seq![
            Step::Fetch { reg: Register::SccbCfg, mask: SCCB_RDATA, shift: SCCB_RDATA_SHIFT },
        ]
    }

    /// Reads register `reg_addr` of the device at `dev_addr`. When the
    /// operation is done its value is the byte received. With 8-bit
    /// addressing only the low byte of `reg_addr` goes on the wire.
    pub fn sccb_receive_data(&self, dev_addr: u8, reg_addr: u16) -> (op: Operation)
        ensures
            op@ == Machine::load(self.receive_steps(dev_addr, reg_addr)),
    {
        let mut steps: Vec<Step> = Vec::new();
        match self.sccb_addr_len {
            sccb_addr_len::W8 => {
                steps.push(
                    Step::Modify {
                        reg: Register::SccbCfg,
                        mask: SCCB_BYTE_NUM,
                        bits: transfer_length_code(TransferLength::Two) as u32,
                    },
                );
                steps.push(
                    Step::Write {
                        reg: Register::SccbCtl,
                        value: make_ctl_word(mark(dev_addr), low_byte_of(reg_addr), 0, 0),
                    },
                );
            },
            sccb_addr_len::W16 => {
                steps.push(
                    Step::Modify {
                        reg: Register::SccbCfg,
                        mask: SCCB_BYTE_NUM,
                        bits: transfer_length_code(TransferLength::Three) as u32,
                    },
                );
                steps.push(
                    Step::Write {
                        reg: Register::SccbCtl,
                        value: make_ctl_word(
                            mark(dev_addr),
                            high_byte_of(reg_addr),
                            low_byte_of(reg_addr),
                            0,
                        ),
                    },
                );
            },
        }
        Self::sccb_start_transfer(&mut steps);
        steps.push(
            Step::Write { reg: Register::SccbCtl, value: make_ctl_word(mark(dev_addr), 0, 0, 0) },
        );
        Self::sccb_start_transfer(&mut steps);
        steps.push(
            Step::Fetch { reg: Register::SccbCfg, mask: SCCB_RDATA, shift: SCCB_RDATA_SHIFT },
        );
        assert(steps@ =~= self.receive_steps(dev_addr, reg_addr));
        Operation::new(steps)
    }

    /// Sets the sensor clock rate, derived from the bus clock at `bus_freq`:
    /// programs the divider, switches the clock on and resets the sensor, which
    /// has to synchronise with the new clock. Returns the rate achieved and the
    /// operation that programs it.
    pub fn set_xclk_rate(&self, bus_freq: u32, xclk_rate: u32) -> (r: (u32, Operation))
        requires
            xclk_rate > 0 || bus_freq == 0,
        ensures
            r.0 == xclk_rate_for(bus_freq, xclk_period(bus_freq, xclk_rate)),
            r.1@ == Machine::load(Self::xclk_steps(xclk_period(bus_freq, xclk_rate) as u8)),
    {
        let period: u8 = xclk_period_count(bus_freq, xclk_rate);
        let mut steps: Vec<Step> = Vec::new();
        Self::push_clock(&mut steps, period);
        Self::reset(&mut steps);
        assert(steps@ =~= Self::xclk_steps(period));
        (xclk_rate_achieved(bus_freq, period), Operation::new(steps))
    }

    /// The steps that set the pixel format.
    pub open spec fn format_steps(format: image_format) -> Seq<Step> {
        seq![Step::Modify { reg: Register::DvpCfg, mask: CFG_FORMAT, bits: format_word(format) }]
    }

    /// The steps that switch burst mode: the burst bit of the configuration
    /// register, and the burst length of the memory bus that goes with it.
    pub open spec fn burst_steps(burst: bool) -> Seq<Step> {
        seq![
            Step::Modify {
                reg: Register::DvpCfg,
                mask: CFG_BURST_SIZE_4BEATS,
                bits: switched(CFG_BURST_SIZE_4BEATS, burst),
            },
            Step::Modify {
                reg: Register::Axi,
                mask: AXI_GM_MLEN,
                bits: burst_length(burst).code() as u32,
            },
        ]
    }

    /// The steps that program burst count and line count.
    pub open spec fn image_size_steps(burst: bool, width: u16, height: u16) -> Seq<Step> {
        seq![
            Step::Modify {
                reg: Register::DvpCfg,
                mask: CFG_GEOMETRY,
                bits: geometry_word(burst_count(burst, width), height as int),
            },
        ]
    }

    /// The steps that configure format, burst mode and geometry in one go.
    pub open spec fn configure_steps(
        format: image_format,
        burst: bool,
        width: u16,
        height: u16,
    ) -> Seq<Step> {
        Self::format_steps(format) + Self::burst_steps(burst) + Self::image_size_steps(
            burst,
            width,
            height,
        )
    }

    fn push_format(steps: &mut Vec<Step>, format: image_format)
        ensures
            final(steps)@ == old(steps)@ + Self::format_steps(format),
    {
        let bits: u32 = format_code(format) as u32 * 0x200;
        steps.push(Step::Modify { reg: Register::DvpCfg, mask: CFG_FORMAT, bits });
        assert(steps@ =~= old(steps)@ + Self::format_steps(format));
    }

    fn push_burst(steps: &mut Vec<Step>, burst: bool)
        ensures
            final(steps)@ == old(steps)@ + Self::burst_steps(burst),
    {
        let length = if burst {
            BurstLength::Four
        } else {
            BurstLength::One
        };
        steps.push(
            Step::Modify {
                reg: Register::DvpCfg,
                mask: CFG_BURST_SIZE_4BEATS,
                bits: switch(CFG_BURST_SIZE_4BEATS, burst),
            },
        );
        steps.push(
            Step::Modify {
                reg: Register::Axi,
                mask: AXI_GM_MLEN,
                bits: burst_length_code(length) as u32,
            },
        );
        assert(steps@ =~= old(steps)@ + Self::burst_steps(burst));
    }

    fn push_image_size(steps: &mut Vec<Step>, burst: bool, width: u16, height: u16)
        requires
            geometry_fits(burst, width, height),
        ensures
            final(steps)@ == old(steps)@ + Self::image_size_steps(burst, width, height),
    {
        let bursts: u16 = if burst {
            width / 8 / 4
        } else {
            width / 8
        };
        let bits: u32 = bursts as u32 * 0x1000 + height as u32 * 0x10_0000;
        steps.push(Step::Modify { reg: Register::DvpCfg, mask: CFG_GEOMETRY, bits });
        assert(steps@ =~= old(steps)@ + Self::image_size_steps(burst, width, height));
    }

    /// The counter that a geometry which does not fit overflows; the burst
    /// count is looked at first.
    pub open spec fn geometry_fault(burst: bool, width: u16, height: u16) -> GeometryError {
        if burst_count(burst, width) >= BURST_COUNT_LIMIT {
            GeometryError::BurstCount
        } else {
            GeometryError::Height
        }
    }

    /// Tells whether a geometry fits the counters, and if not, which counter
    /// it overflows; the burst count is looked at first.
    pub fn check_geometry(burst: bool, width: u16, height: u16) -> (r: Result<(), GeometryError>)
        ensures
            r is Ok <==> geometry_fits(burst, width, height),
            r matches Err(e) ==> e == Self::geometry_fault(burst, width, height),
    {
        let bursts: u16 = if burst {
            width / 8 / 4
        } else {
            width / 8
        };
        if bursts >= BURST_COUNT_LIMIT {
            Err(GeometryError::BurstCount)
        } else if height >= HEIGHT_LIMIT {
            Err(GeometryError::Height)
        } else {
            Ok(())
        }
    }

    /// Sets the pixel format of the incoming image.
    pub fn set_image_format(&self, format: image_format) -> (op: Operation)
        ensures
            op@ == Machine::load(Self::format_steps(format)),
    {
        let mut steps: Vec<Step> = Vec::new();
        Self::push_format(&mut steps, format);
        assert(steps@ =~= Self::format_steps(format));
        Operation::new(steps)
    }

    /// Switches burst mode on: four beats per burst.
    pub fn enable_burst(&self) -> (op: Operation)
        ensures
            op@ == Machine::load(Self::burst_steps(true)),
    {
        let mut steps: Vec<Step> = Vec::new();
        Self::push_burst(&mut steps, true);
        assert(steps@ =~= Self::burst_steps(true));
        Operation::new(steps)
    }

    /// Switches burst mode off: single beats.
    pub fn disable_burst(&self) -> (op: Operation)
        ensures
            op@ == Machine::load(Self::burst_steps(false)),
    {
        let mut steps: Vec<Step> = Vec::new();
        Self::push_burst(&mut steps, false);
        assert(steps@ =~= Self::burst_steps(false));
        Operation::new(steps)
    }

    /// Sets the image size. `burst` tells whether burst mode is on, as the
    /// burst count depends on it: a line may be up to 8191 pixels wide with
    /// burst mode and up to 2047 without, and an image up to 1023 lines high.
    /// A larger size is refused, and then there is no operation to carry out.
    pub fn set_image_size(&self, burst: bool, width: u16, height: u16) -> (r: Result<
        Operation,
        GeometryError,
    >)
        ensures
            r is Ok <==> geometry_fits(burst, width, height),
            r matches Ok(op) ==> op@ == Machine::load(
                Self::image_size_steps(burst, width, height),
            ),
            r matches Err(e) ==> e == Self::geometry_fault(burst, width, height),
    {
        match Self::check_geometry(burst, width, height) {
            Err(e) => Err(e),
            Ok(_) => {
                let mut steps: Vec<Step> = Vec::new();
                Self::push_image_size(&mut steps, burst, width, height);
                assert(steps@ =~= Self::image_size_steps(burst, width, height));
                Ok(Operation::new(steps))
            },
        }
    }

    /// Configures pixel format, burst mode and image size together. A size
    /// that does not fit is refused as a whole: there is then no operation to
    /// carry out, and no register is touched.
    pub fn configure(&self, format: image_format, burst: bool, width: u16, height: u16) -> (r:
        Result<Operation, GeometryError>)
        ensures
            r is Ok <==> geometry_fits(burst, width, height),
            r matches Ok(op) ==> op@ == Machine::load(
                Self::configure_steps(format, burst, width, height),
            ),
            r matches Err(e) ==> e == Self::geometry_fault(burst, width, height),
    {
        match Self::check_geometry(burst, width, height) {
            Err(e) => Err(e),
            Ok(_) => {
                let mut steps: Vec<Step> = Vec::new();
                Self::push_format(&mut steps, format);
                Self::push_burst(&mut steps, burst);
                Self::push_image_size(&mut steps, burst, width, height);
                assert(steps@ =~= Self::configure_steps(format, burst, width, height));
                Ok(Operation::new(steps))
            },
        }
    }

    /// The steps that set the three plane addresses of the planar output.
    pub open spec fn ai_addr_steps(r_addr: u32, g_addr: u32, b_addr: u32) -> Seq<Step> {
        seq![
            Step::Write { reg: Register::RAddr, value: r_addr },
            Step::Write { reg: Register::GAddr, value: g_addr },
            Step::Write { reg: Register::BAddr, value: b_addr },
        ]
    }

    /// Sets the addresses of the red, green and blue plane of the planar
    /// output. The port addresses the first 4 GiB of memory.
    pub fn set_ai_addr(&self, r_addr: u32, g_addr: u32, b_addr: u32) -> (op: Operation)
        ensures
            op@ == Machine::load(Self::ai_addr_steps(r_addr, g_addr, b_addr)),
    {
        let mut steps: Vec<Step> = Vec::new();
        steps.push(Step::Write { reg: Register::RAddr, value: r_addr });
        steps.push(Step::Write { reg: Register::GAddr, value: g_addr });
        steps.push(Step::Write { reg: Register::BAddr, value: b_addr });
        assert(steps@ =~= Self::ai_addr_steps(r_addr, g_addr, b_addr));
        Operation::new(steps)
    }

    /// The steps that set the address of the interleaved output.
    pub open spec fn display_addr_steps(addr: u32) -> Seq<Step> {
        seq![Step::Write { reg: Register::RgbAddr, value: addr }]
    }

    /// Sets the address of the 16-bit interleaved output. The port addresses
    /// the first 4 GiB of memory.
    pub fn set_display_addr(&self, addr: u32) -> (op: Operation)
        ensures
            op@ == Machine::load(Self::display_addr_steps(addr)),
    {
        let mut steps: Vec<Step> = Vec::new();
        steps.push(Step::Write { reg: Register::RgbAddr, value: addr });
        assert(steps@ =~= Self::display_addr_steps(addr));
        Operation::new(steps)
    }

    /// The steps of waiting for a frame to start and acknowledging it.
    pub open spec fn start_frame_steps() -> Seq<Step> {
        seq![
            Step::Wait { mask: STS_FRAME_START, level: true },
            Step::Write { reg: Register::Sts, value: StatusFlag::FrameStart.committed() },
        ]
    }

    /// Waits for the start of a frame and acknowledges it.
    pub fn start_frame(&self) -> (op: Operation)
        ensures
            op@ == Machine::load(Self::start_frame_steps()),
    {
        let mut steps: Vec<Step> = Vec::new();
        steps.push(Step::Wait { mask: STS_FRAME_START, level: true });
        steps.push(Step::Write { reg: Register::Sts, value: StatusFlag::FrameStart.commit() });
        assert(steps@ =~= Self::start_frame_steps());
        Operation::new(steps)
    }

    /// The steps of switching conversion on.
    pub open spec fn start_convert_steps() -> Seq<Step> {
        seq![Step::Write { reg: Register::Sts, value: StatusFlag::Convert.committed() }]
    }

    /// Switches conversion of the incoming frame on.
    pub fn start_convert(&self) -> (op: Operation)
        ensures
            op@ == Machine::load(Self::start_convert_steps()),
    {
        let mut steps: Vec<Step> = Vec::new();
        steps.push(Step::Write { reg: Register::Sts, value: StatusFlag::Convert.commit() });
        assert(steps@ =~= Self::start_convert_steps());
        Operation::new(steps)
    }

    /// The steps of waiting for a frame to finish and acknowledging it.
    pub open spec fn finish_convert_steps() -> Seq<Step> {
        seq![
            Step::Wait { mask: STS_FRAME_FINISH, level: true },
            Step::Write { reg: Register::Sts, value: StatusFlag::FrameFinish.committed() },
        ]
    }

    /// Waits for the end of the frame and acknowledges it.
    pub fn finish_convert(&self) -> (op: Operation)
        ensures
            op@ == Machine::load(Self::finish_convert_steps()),
    {
        let mut steps: Vec<Step> = Vec::new();
        steps.push(Step::Wait { mask: STS_FRAME_FINISH, level: true });
        steps.push(Step::Write { reg: Register::Sts, value: StatusFlag::FrameFinish.commit() });
        assert(steps@ =~= Self::finish_convert_steps());
        Operation::new(steps)
    }

    /// The word that acknowledges both frame events and switches conversion
    /// on, in one write.
    pub open spec fn capture_word() -> u32 {
        (StatusFlag::FrameFinish.committed() + StatusFlag::FrameStart.committed()
            + StatusFlag::Convert.committed()) as u32
    }

    /// The steps of capturing one whole frame. Wait for a frame to start and
    /// acknowledge it: that frame may be under way already and is let pass.
    /// Wait for the next frame to start; acknowledge start and finish and
    /// switch conversion on, all in one write; wait for the frame to finish.
    pub open spec fn get_image_steps() -> Seq<Step> {
        seq![
            Step::Wait { mask: STS_FRAME_START, level: true },
            Step::Write { reg: Register::Sts, value: StatusFlag::FrameStart.committed() },
            Step::Wait { mask: STS_FRAME_START, level: true },
            Step::Write { reg: Register::Sts, value: Self::capture_word() },
            Step::Wait { mask: STS_FRAME_FINISH, level: true },
        ]
    }

    /// Captures one whole frame, from its first line to its last.
    pub fn get_image(&self) -> (op: Operation)
        ensures
            op@ == Machine::load(Self::get_image_steps()),
    {
        let mut steps: Vec<Step> = Vec::new();
        let capture: u32 = StatusFlag::FrameFinish.commit() + StatusFlag::FrameStart.commit()
            + StatusFlag::Convert.commit();
        steps.push(Step::Wait { mask: STS_FRAME_START, level: true });
        steps.push(Step::Write { reg: Register::Sts, value: StatusFlag::FrameStart.commit() });
        steps.push(Step::Wait { mask: STS_FRAME_START, level: true });
        steps.push(Step::Write { reg: Register::Sts, value: capture });
        steps.push(Step::Wait { mask: STS_FRAME_FINISH, level: true });
        assert(steps@ =~= Self::get_image_steps());
        Operation::new(steps)
    }

    /// The steps that set one bit of the configuration register to `on`.
    pub open spec fn config_bit_steps(mask: u32, on: bool) -> Seq<Step> {
        seq![Step::Modify { reg: Register::DvpCfg, mask, bits: switched(mask, on) }]
    }

    fn config_bit(mask: u32, on: bool) -> (op: Operation)
        ensures
            op@ == Machine::load(Self::config_bit_steps(mask, on)),
    {
        let mut steps: Vec<Step> = Vec::new();
        steps.push(Step::Modify { reg: Register::DvpCfg, mask, bits: switch(mask, on) });
        assert(steps@ =~= Self::config_bit_steps(mask, on));
        Operation::new(steps)
    }

    /// Enables or disables an interrupt.
    pub fn config_interrupt(&self, interrupt: interrupt, enable: bool) -> (op: Operation)
        ensures
            op@ == Machine::load(Self::config_bit_steps(interrupt.enable_bit(), enable)),
    {
        Self::config_bit(interrupt.enable_mask(), enable)
    }

    /// Tells whether an interrupt is pending in `status`, a word read from
    /// the status register.
    pub fn get_interrupt(&self, status: u32, interrupt: interrupt) -> (pending: bool)
        ensures
            pending == any_set(status, interrupt.flag().bit()),
    {
        has_any(status, interrupt.status_flag().mask())
    }

    /// The steps that acknowledge an interrupt: the flag and its write-enable
    /// bit are set in the status word as read, and the word is written back.
    pub open spec fn clear_interrupt_steps(interrupt: interrupt) -> Seq<Step> {
        seq![
            Step::Modify {
                reg: Register::Sts,
                mask: interrupt.flag().committed(),
                bits: interrupt.flag().committed(),
            },
        ]
    }

    /// Acknowledges an interrupt.
    pub fn clear_interrupt(&self, interrupt: interrupt) -> (op: Operation)
        ensures
            op@ == Machine::load(Self::clear_interrupt_steps(interrupt)),
    {
        let word: u32 = interrupt.status_flag().commit();
        let mut steps: Vec<Step> = Vec::new();
        steps.push(Step::Modify { reg: Register::Sts, mask: word, bits: word });
        assert(steps@ =~= Self::clear_interrupt_steps(interrupt));
        Operation::new(steps)
    }

    /// Switches automatic capture of every frame on.
    pub fn enable_auto(&self) -> (op: Operation)
        ensures
            op@ == Machine::load(Self::config_bit_steps(CFG_AUTO_ENABLE, true)),
    {
        Self::config_bit(CFG_AUTO_ENABLE, true)
    }

    /// Switches automatic capture off: each frame is asked for.
    pub fn disable_auto(&self) -> (op: Operation)
        ensures
            op@ == Machine::load(Self::config_bit_steps(CFG_AUTO_ENABLE, false)),
    {
        Self::config_bit(CFG_AUTO_ENABLE, false)
    }

    /// Switches one of the two outputs on or off; the other is left as it is.
    pub fn set_output_enable(&self, index: output_mode, enable: bool) -> (op: Operation)
        ensures
            op@ == Machine::load(Self::config_bit_steps(index.enable_bit(), enable)),
    {
        Self::config_bit(index.enable_mask(), enable)
    }
}

} // verus!
