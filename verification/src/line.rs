//! Digital output lines, and the words in which the driver says what it
//! asked of them.

use vstd::prelude::*;

verus! {

/// A digital output that can be driven high or low. Either call may fail.
///
/// The register is wired to three of these. Nothing is assumed of them:
/// whatever a call returns, the driver goes on as its contract says.
pub trait OutputPin {
    type Error;

    /// Drives the line low.
    fn set_low(&mut self) -> Result<(), Self::Error>;

    /// Drives the line high.
    fn set_high(&mut self) -> Result<(), Self::Error>;
}

/// The three lines that a shift register is wired to.
#[derive(Clone, Copy, Debug, PartialEq, Eq, Structural)]
pub enum Line {
    Clock,
    Latch,
    Data,
}

/// One step of the protocol: a line and the level to drive it to.
pub struct LineOp {
    pub line: Line,
    pub high: bool,
}

/// One call that was made on a line: the line, the level that was asked
/// for, and whether the line reported success.
pub struct Call {
    pub line: Line,
    pub high: bool,
    pub ok: bool,
}

} // verus!
