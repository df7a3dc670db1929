//! Field values that the peripheral access crate names: pixel formats,
//! control-bus transfer lengths and memory-bus burst lengths, each with the
//! number that stands for it in its register field.

use k210_hal::pac::dvp::axi::GM_MLEN_A;
use k210_hal::pac::dvp::dvp_cfg::FORMAT_A;
use k210_hal::pac::dvp::sccb_cfg::BYTE_NUM_A;
use vstd::prelude::*;

verus! {

/// Pixel format of the incoming image.
#[allow(non_camel_case_types)]
#[derive(Clone, Copy, Debug, PartialEq, Eq, Structural)]
pub enum image_format {
    RGB,
    YUV,
    Y,
}

/// Number of bytes that one control-bus transfer puts on the wire.
#[derive(Clone, Copy, Debug, PartialEq, Eq, Structural)]
pub enum TransferLength {
    Two,
    Three,
    Four,
}

/// Number of beats the memory bus groups into one burst.
#[derive(Clone, Copy, Debug, PartialEq, Eq, Structural)]
pub enum BurstLength {
    One,
    Four,
}

impl image_format {
    /// The number that stands for the format in the format field.
    pub open spec fn code(self) -> u8 {
        match self {
            image_format::RGB => 0,
            image_format::YUV => 1,
            image_format::Y => 3,
        }
    }
}

impl TransferLength {
    /// The number of bytes in a transfer of this length.
    pub open spec fn bytes(self) -> nat {
        match self {
            TransferLength::Two => 2,
            TransferLength::Three => 3,
            TransferLength::Four => 4,
        }
    }

    /// The number that stands for the length in the byte-count field: one
    /// less than the number of bytes.
    pub open spec fn code(self) -> u8 {
        match self {
            TransferLength::Two => 1,
            TransferLength::Three => 2,
            TransferLength::Four => 3,
        }
    }
}

impl BurstLength {
    /// The number of beats in a burst of this length.
    pub open spec fn beats(self) -> nat {
        match self {
            BurstLength::One => 1,
            BurstLength::Four => 4,
        }
    }

    /// The number that stands for the length in the burst-length field: one
    /// less than the number of beats.
    pub open spec fn code(self) -> u8 {
        match self {
            BurstLength::One => 0,
            BurstLength::Four => 3,
        }
    }
}

/// Asks the peripheral access crate for the number of a pixel format, through
/// the conversion of `dvp_cfg::FORMAT_A` into `u8`. The crate gives 0 for RGB,
/// 1 for YUV and 3 for Y; this is taken on trust from its source.
#[verifier::external_body]
pub(crate) fn format_code(format: image_format) -> (code: u8)
    ensures
        code == format.code(),
{
    u8::from(
        match format {
            image_format::RGB => FORMAT_A::RGB,
            image_format::YUV => FORMAT_A::YUV,
            image_format::Y => FORMAT_A::Y,
        },
    )
}

/// Asks the peripheral access crate for the number of a transfer length,
/// through the conversion of `sccb_cfg::BYTE_NUM_A` into `u8`. The crate gives
/// 1, 2 and 3 for two, three and four bytes; this is taken on trust from its
/// source.
#[verifier::external_body]
pub(crate) fn transfer_length_code(length: TransferLength) -> (code: u8)
    ensures
        code == length.code(),
{
    u8::from(
        match length {
            TransferLength::Two => BYTE_NUM_A::NUM2,
            TransferLength::Three => BYTE_NUM_A::NUM3,
            TransferLength::Four => BYTE_NUM_A::NUM4,
        },
    )
}

/// Asks the peripheral access crate for the number of a burst length, through
/// the conversion of `axi::GM_MLEN_A` into `u8`. The crate gives 0 for single
/// beats and 3 for bursts of four; this is taken on trust from its source.
#[verifier::external_body]
pub(crate) fn burst_length_code(length: BurstLength) -> (code: u8)
    ensures
        code == length.code(),
{
    u8::from(
        match length {
            BurstLength::One => GM_MLEN_A::BYTE1,
            BurstLength::Four => GM_MLEN_A::BYTE4,
        },
    )
}

} // verus!
