//! Register block of the video port: the registers the driver touches, the
//! place of every field inside them, and a plain store of their contents.

use vstd::prelude::*;

verus! {

/// A register of the video port.
#[derive(Clone, Copy, Debug, PartialEq, Eq, Structural)]
pub enum Register {
    /// Capture configuration: interrupt enables, outputs, burst, format, geometry.
    DvpCfg,
    /// Base address of the red plane.
    RAddr,
    /// Base address of the green plane.
    GAddr,
    /// Base address of the blue plane.
    BAddr,
    /// Sensor clock divider, reset and power-down lines.
    CmosCfg,
    /// Control-bus configuration: transfer length, clock counts, received byte.
    SccbCfg,
    /// Control-bus payload: device address, register address, data bytes.
    SccbCtl,
    /// Memory-bus burst length.
    Axi,
    /// Status and command bits, each with a write-enable bit beside it.
    Sts,
    /// Base address of the interleaved 16-bit pixel buffer.
    RgbAddr,
}

// Capture configuration register.
pub const CFG_START_INT_ENABLE: u32 = 0x0000_0001;

pub const CFG_FINISH_INT_ENABLE: u32 = 0x0000_0002;

pub const CFG_AI_OUTPUT_ENABLE: u32 = 0x0000_0004;

pub const CFG_DISPLAY_OUTPUT_ENABLE: u32 = 0x0000_0008;

pub const CFG_AUTO_ENABLE: u32 = 0x0000_0010;

pub const CFG_BURST_SIZE_4BEATS: u32 = 0x0000_0100;

pub const CFG_FORMAT: u32 = 0x0000_0600;

pub const CFG_FORMAT_SHIFT: u32 = 9;

pub const CFG_HREF_BURST_NUM: u32 = 0x000f_f000;

pub const CFG_HREF_BURST_NUM_SHIFT: u32 = 12;

pub const CFG_LINE_NUM: u32 = 0x3ff0_0000;

pub const CFG_LINE_NUM_SHIFT: u32 = 20;

/// Burst count and line count together.
pub const CFG_GEOMETRY: u32 = CFG_HREF_BURST_NUM | CFG_LINE_NUM;

// Sensor configuration register.
pub const CMOS_CLK_DIV: u32 = 0x0000_00ff;

pub const CMOS_CLK_DIV_SHIFT: u32 = 0;

pub const CMOS_CLK_ENABLE: u32 = 0x0000_0100;

pub const CMOS_RESET: u32 = 0x0001_0000;

pub const CMOS_POWER_DOWN: u32 = 0x0100_0000;

/// Clock divider and clock enable together.
pub const CMOS_CLOCK: u32 = CMOS_CLK_DIV | CMOS_CLK_ENABLE;

// Control-bus configuration register.
pub const SCCB_BYTE_NUM: u32 = 0x0000_0003;

pub const SCCB_BYTE_NUM_SHIFT: u32 = 0;

pub const SCCB_SCL_LCNT: u32 = 0x0000_ff00;

pub const SCCB_SCL_LCNT_SHIFT: u32 = 8;

pub const SCCB_SCL_HCNT: u32 = 0x00ff_0000;

pub const SCCB_SCL_HCNT_SHIFT: u32 = 16;

pub const SCCB_RDATA: u32 = 0xff00_0000;

pub const SCCB_RDATA_SHIFT: u32 = 24;

/// Low and high period counters together.
pub const SCCB_SCL_COUNTS: u32 = SCCB_SCL_LCNT | SCCB_SCL_HCNT;

// Control-bus payload register.
pub const CTL_DEVICE_ADDRESS: u32 = 0x0000_00ff;

pub const CTL_DEVICE_ADDRESS_SHIFT: u32 = 0;

pub const CTL_REG_ADDRESS: u32 = 0x0000_ff00;

pub const CTL_REG_ADDRESS_SHIFT: u32 = 8;

pub const CTL_WDATA_BYTE0: u32 = 0x00ff_0000;

pub const CTL_WDATA_BYTE0_SHIFT: u32 = 16;

pub const CTL_WDATA_BYTE1: u32 = 0xff00_0000;

pub const CTL_WDATA_BYTE1_SHIFT: u32 = 24;

// Memory-bus register.
pub const AXI_GM_MLEN: u32 = 0x0000_00ff;

pub const AXI_GM_MLEN_SHIFT: u32 = 0;

// Status register.
pub const STS_FRAME_START: u32 = 0x0000_0001;

pub const STS_FRAME_START_WE: u32 = 0x0000_0002;

pub const STS_FRAME_FINISH: u32 = 0x0000_0100;

pub const STS_FRAME_FINISH_WE: u32 = 0x0000_0200;

pub const STS_DVP_EN: u32 = 0x0001_0000;

pub const STS_DVP_EN_WE: u32 = 0x0002_0000;

pub const STS_SCCB_EN: u32 = 0x0100_0000;

pub const STS_SCCB_EN_WE: u32 = 0x0200_0000;

/// A bit of the status register that takes effect only when it is written
/// together with the write-enable bit beside it.
#[derive(Clone, Copy, Debug, PartialEq, Eq, Structural)]
pub enum StatusFlag {
    /// A frame has started; writing it acknowledges the event.
    FrameStart,
    /// A frame is complete; writing it acknowledges the event.
    FrameFinish,
    /// Conversion of the incoming frame is switched on.
    Convert,
    /// A control-bus transfer is under way; writing it starts one.
    Transfer,
}

impl StatusFlag {
    /// The value bit of the flag.
    pub open spec fn bit(self) -> u32 {
        match self {
            StatusFlag::FrameStart => STS_FRAME_START,
            StatusFlag::FrameFinish => STS_FRAME_FINISH,
            StatusFlag::Convert => STS_DVP_EN,
            StatusFlag::Transfer => STS_SCCB_EN,
        }
    }

    /// The write-enable bit that commits the flag.
    pub open spec fn write_enable(self) -> u32 {
        match self {
            StatusFlag::FrameStart => STS_FRAME_START_WE,
            StatusFlag::FrameFinish => STS_FRAME_FINISH_WE,
            StatusFlag::Convert => STS_DVP_EN_WE,
            StatusFlag::Transfer => STS_SCCB_EN_WE,
        }
    }

    /// The flag together with its write-enable bit: the two bits are
    /// neighbours, so their sum is the word with both set.
    pub open spec fn committed(self) -> u32 {
        (self.bit() + self.write_enable()) as u32
    }

    /// The mask that selects the flag in a status word.
    pub fn mask(self) -> (r: u32)
        ensures
            r == self.bit(),
    {
        match self {
            StatusFlag::FrameStart => STS_FRAME_START,
            StatusFlag::FrameFinish => STS_FRAME_FINISH,
            StatusFlag::Convert => STS_DVP_EN,
            StatusFlag::Transfer => STS_SCCB_EN,
        }
    }

    /// The word that sets the flag when written to the status register: the
    /// value bit and its write-enable bit in one write.
    pub fn commit(self) -> (r: u32)
        ensures
            r == self.committed(),
    {
        match self {
            StatusFlag::FrameStart => STS_FRAME_START + STS_FRAME_START_WE,
            StatusFlag::FrameFinish => STS_FRAME_FINISH + STS_FRAME_FINISH_WE,
            StatusFlag::Convert => STS_DVP_EN + STS_DVP_EN_WE,
            StatusFlag::Transfer => STS_SCCB_EN + STS_SCCB_EN_WE,
        }
    }
}

/// What each register holds.
#[derive(Clone, Copy, Debug, PartialEq, Eq, Structural)]
pub struct Registers {
    pub dvp_cfg: u32,
    pub r_addr: u32,
    pub g_addr: u32,
    pub b_addr: u32,
    pub cmos_cfg: u32,
    pub sccb_cfg: u32,
    pub sccb_ctl: u32,
    pub axi: u32,
    pub sts: u32,
    pub rgb_addr: u32,
}

impl Registers {
    /// The content of `reg`.
    pub open spec fn get(self, reg: Register) -> u32 {
        match reg {
            Register::DvpCfg => self.dvp_cfg,
            Register::RAddr => self.r_addr,
            Register::GAddr => self.g_addr,
            Register::BAddr => self.b_addr,
            Register::CmosCfg => self.cmos_cfg,
            Register::SccbCfg => self.sccb_cfg,
            Register::SccbCtl => self.sccb_ctl,
            Register::Axi => self.axi,
            Register::Sts => self.sts,
            Register::RgbAddr => self.rgb_addr,
        }
    }

    /// The registers with `value` stored in `reg` and the others as they are.
    pub open spec fn put(self, reg: Register, value: u32) -> Registers {
        match reg {
            Register::DvpCfg => Registers { dvp_cfg: value, ..self },
            Register::RAddr => Registers { r_addr: value, ..self },
            Register::GAddr => Registers { g_addr: value, ..self },
            Register::BAddr => Registers { b_addr: value, ..self },
            Register::CmosCfg => Registers { cmos_cfg: value, ..self },
            Register::SccbCfg => Registers { sccb_cfg: value, ..self },
            Register::SccbCtl => Registers { sccb_ctl: value, ..self },
            Register::Axi => Registers { axi: value, ..self },
            Register::Sts => Registers { sts: value, ..self },
            Register::RgbAddr => Registers { rgb_addr: value, ..self },
        }
    }

    /// Every register at the value it has after a peripheral reset.
    pub open spec fn cleared() -> Registers {
        Registers {
            dvp_cfg: 0,
            r_addr: 0,
            g_addr: 0,
            b_addr: 0,
            cmos_cfg: 0,
            sccb_cfg: 0,
            sccb_ctl: 0,
            axi: 0,
            sts: 0,
            rgb_addr: 0,
        }
    }

    /// The registers as a peripheral reset leaves them: all zero.
    pub fn reset() -> (r: Registers)
        ensures
            r == Registers::cleared(),
    {
        Registers {
            dvp_cfg: 0,
            r_addr: 0,
            g_addr: 0,
            b_addr: 0,
            cmos_cfg: 0,
            sccb_cfg: 0,
            sccb_ctl: 0,
            axi: 0,
            sts: 0,
            rgb_addr: 0,
        }
    }

    /// Reads `reg`.
    pub fn read(&self, reg: Register) -> (value: u32)
        ensures
            value == self.get(reg),
    {
        match reg {
            Register::DvpCfg => self.dvp_cfg,
            Register::RAddr => self.r_addr,
            Register::GAddr => self.g_addr,
            Register::BAddr => self.b_addr,
            Register::CmosCfg => self.cmos_cfg,
            Register::SccbCfg => self.sccb_cfg,
            Register::SccbCtl => self.sccb_ctl,
            Register::Axi => self.axi,
            Register::Sts => self.sts,
            Register::RgbAddr => self.rgb_addr,
        }
    }

    /// Stores `value` in `reg`.
    pub fn write(&mut self, reg: Register, value: u32)
        ensures
            *final(self) == old(self).put(reg, value),
    {
        match reg {
            Register::DvpCfg => { self.dvp_cfg = value; },
            Register::RAddr => { self.r_addr = value; },
            Register::GAddr => { self.g_addr = value; },
            Register::BAddr => { self.b_addr = value; },
            Register::CmosCfg => { self.cmos_cfg = value; },
            Register::SccbCfg => { self.sccb_cfg = value; },
            Register::SccbCtl => { self.sccb_ctl = value; },
            Register::Axi => { self.axi = value; },
            Register::Sts => { self.sts = value; },
            Register::RgbAddr => { self.rgb_addr = value; },
        }
    }
}

} // verus!
