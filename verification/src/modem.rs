//! Static configuration of the cellular modem.

use vstd::prelude::*;

verus! {

/// The modem module fitted on the board.
pub const MODEL: &'static str = "EC800M";

/// The UART instance wired to the modem.
pub const UART: &'static str = "USART3";

/// The baud rate of the modem UART.
pub const BAUDRATE: u32 = 921_600;

/// Whether the modem UART runs with DMA.
pub const UART_DMA: bool = true;

/// Whether the modem power switch is active when driven high.
pub const POWER_ACTIVE_HIGH: bool = false;

/// Whether the modem power key is active when driven high.
pub const PWRKEY_ACTIVE_HIGH: bool = false;

/// How long the power key is held to switch the modem on, in milliseconds.
pub const PWRKEY_PULSE_MS: u64 = 1_000;

} // verus!
