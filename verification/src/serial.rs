use vstd::prelude::*;

verus! {

/// Data register of the first serial port.
pub const SERIAL_DATA_PORT: u16 = 0x3F8;

/// FIFO control register.
pub const SERIAL_FIFO_COMMAND_PORT: u16 = 0x3FA;

/// Line control register.
pub const SERIAL_LINE_COMMAND_PORT: u16 = 0x3FB;

/// Modem control register.
pub const SERIAL_MODEM_COMMAND_PORT: u16 = 0x3FC;

/// Line status register.
pub const SERIAL_LINE_STATUS_PORT: u16 = 0x3FD;

/// Writing this to the line control register exposes the baud divisor
/// registers.
pub const SERIAL_LINE_ENABLE_DLAB: u8 = 0x80;

/// The serial line: a plain character sink once the port has been
/// configured.  The port writes themselves are the caller's hardware step;
/// the decisions they need — the divisor bytes and the status test — are
/// here.
pub struct Serial {}

impl Serial {
    pub fn new() -> (s: Serial) {
        Serial {}
    }

    /// The two bytes of the baud-rate divisor as the port expects them,
    /// high byte first.
    pub fn divisor_bytes(divisor: u16) -> (r: (u8, u8))
        ensures
            r.0 == divisor / 256,
            r.1 == divisor % 256,
    {
        ((divisor / 256) as u8, (divisor % 256) as u8)
    }

    /// Line-status decision: the transmit FIFO is empty, so the next byte
    /// may be written, when bit 0x20 of the status register is set.
    pub fn line_ready(status: u8) -> (r: bool)
        ensures
            r <==> (status & 0x20) != 0,
    {
        (status & 0x20) != 0
    }
}

} // verus!
