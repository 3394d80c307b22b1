//! Board description of the ST STM32F427VG board as used by the tbox
//! telematics unit: which MCU pins make up each peripheral group, and the
//! static configuration of the modem, the CAN interface and the tagged logs.

pub mod can;
pub mod modem;
pub mod pins;
pub mod tbox_log;

use crate::pins::Pin;
use vstd::prelude::*;

verus! {

/// The board's peripherals that are still free to be taken, held as the
/// pins not yet handed to a peripheral group.
pub struct OptionalPeripherals {
    pub free_pins: Vec<Pin>,
}

/// The board's init hook. This board sets nothing up before the application
/// starts: it takes no peripheral and leaves the set of free ones as it was.
#[allow(unused_variables)]
pub fn init(peripherals: &mut OptionalPeripherals)
    ensures
        *final(peripherals) == *old(peripherals),
{
}

} // verus!
