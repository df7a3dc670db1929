//! Clock dividers: the control-bus period count and the sensor clock
//! divider, each derived by truncating division from the bus clock.

use vstd::prelude::*;

verus! {

/// Largest value a period counter or the sensor clock divider can hold.
pub const MAX_PERIOD: u32 = 255;

/// Half-period of the control-bus clock in bus-clock ticks: the bus clock
/// divided by the wanted rate and then by two, each time rounding down.
pub open spec fn sccb_period(bus_freq: u32, clk_rate: u32) -> int {
    (bus_freq as int / clk_rate as int) / 2
}

/// Rate that goes with a control-bus period count: the pixel clock divided by
/// the full period.
pub open spec fn sccb_rate(pixel_freq: u32, period: int) -> int {
    pixel_freq as int / (period * 2)
}

/// Divider period of the sensor clock: zero while the bus clock is at most
/// twice the wanted rate, else the rounded-down quotient less one, capped at
/// what the divider field can hold.
pub open spec fn xclk_period(bus_freq: u32, xclk_rate: u32) -> int {
    if bus_freq <= 2 * xclk_rate {
        0
    } else {
        let quotient = bus_freq as int / (2 * xclk_rate);
        if quotient - 1 < MAX_PERIOD {
            quotient - 1
        } else {
            MAX_PERIOD as int
        }
    }
}

/// Sensor clock rate that a divider period yields.
pub open spec fn xclk_rate_for(bus_freq: u32, period: int) -> int {
    bus_freq as int / ((period + 1) * 2)
}

/// Computes the control-bus period count, or `None` where it does not fit the
/// counters.
pub fn sccb_period_count(bus_freq: u32, clk_rate: u32) -> (count: Option<u8>)
    requires
        clk_rate > 0,
    ensures
        count matches Some(c) ==> c == sccb_period(bus_freq, clk_rate),
        count is None <==> sccb_period(bus_freq, clk_rate) > MAX_PERIOD,
{
    let period: u32 = bus_freq / clk_rate / 2;
    if period > MAX_PERIOD {
        None
    } else {
        Some(period as u8)
    }
}

/// Computes the rate that goes with a period count.
pub fn sccb_rate_for(pixel_freq: u32, count: u8) -> (rate: u32)
    requires
        count > 0,
    ensures
        rate == sccb_rate(pixel_freq, count as int),
{
    let full: u32 = count as u32 * 2;
    pixel_freq / full
}

/// Computes the divider period of the sensor clock.
pub fn xclk_period_count(bus_freq: u32, xclk_rate: u32) -> (count: u8)
    requires
        xclk_rate > 0 || bus_freq == 0,
    ensures
        count == xclk_period(bus_freq, xclk_rate),
{
    let twice: u64 = xclk_rate as u64 * 2;
    if bus_freq as u64 <= twice {
        0
    } else {
        let quotient: u64 = bus_freq as u64 / twice;
        assert(quotient >= 1) by (nonlinear_arith)
            requires
                quotient == bus_freq as u64 / twice,
                0 < twice < bus_freq as u64,
        ;
        if quotient - 1 < MAX_PERIOD as u64 {
            (quotient - 1) as u8
        } else {
            MAX_PERIOD as u8
        }
    }
}

/// Computes the sensor clock rate that a divider period yields.
pub fn xclk_rate_achieved(bus_freq: u32, count: u8) -> (rate: u32)
    ensures
        rate == xclk_rate_for(bus_freq, count as int),
{
    let full: u32 = (count as u32 + 1) * 2;
    bus_freq / full
}

} // verus!
