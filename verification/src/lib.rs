//! Sink-side USB power-delivery engine for a two-wire-bus transceiver chip.
//!
//! The crate holds the verified core of the firmware: bit-exact register and
//! wire-message codecs, FIFO receive/transmit framing, the sink protocol state
//! machine, and capability negotiation.  Bus transactions, delays and the
//! interrupt line are performed by the caller, which feeds the values it read
//! back into the decision functions defined here.

use vstd::prelude::*;

pub mod bits;
pub mod buffer;
pub mod bq25620;
pub mod fusb302;
pub mod pd;
pub mod proto;
pub mod ws2812;

verus! {

/// Failure taxonomy of the protocol core.  Bus-transport failures are opaque
/// to this crate: the caller performs the transaction and maps the mechanism's
/// error onto `I2cError` before handing control back.
#[derive(Clone, Copy, PartialEq, Eq, Structural, Debug)]
pub enum Error {
    /// A transaction on the shared two-wire bus failed.
    I2cError,
    /// The chip did not report a valid identity after a bounded number of
    /// post-reset polls.
    SoftResetFailure,
    /// The identity register read an all-zero or all-one byte.
    InvalidDeviceId,
    /// Both configuration-channel lines measured the same comparator level.
    NoCcDetected,
    /// A write would exceed a buffer's fixed capacity.
    Index,
}

} // verus!
