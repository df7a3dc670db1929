//! Protocol engine of the K210 digital video port: register layout, clock
//! dividers, control-bus transactions and the frame capture sequence, planned
//! as register operations that a platform layer carries out.

pub mod bits;
pub mod clock;
pub mod codes;
pub mod dvp;
pub mod laws;
pub mod regs;
pub mod sequence;
pub mod sim;
pub mod stepping;

pub use crate::codes::image_format;
pub use crate::dvp::{interrupt, output_mode, sccb_addr_len, GeometryError, DVP};
