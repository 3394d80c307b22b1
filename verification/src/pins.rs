//! The pin map of the board: which GPIO pins make up each peripheral group.
//!
//! A pin is held as a plain value (its GPIO port and its index in that port),
//! so that the assignment itself can be reasoned about.

use vstd::prelude::*;

verus! {

/// The GPIO ports of the STM32F427VG package.
#[derive(Clone, Copy, Debug, PartialEq, Eq, Structural)]
pub enum Port {
    A,
    B,
    C,
    D,
    E,
}

/// A GPIO pin: `P{port}{index}`, as in `PB12`.
#[derive(Clone, Copy, Debug, PartialEq, Eq, Structural)]
pub struct Pin {
    pub port: Port,
    pub index: u8,
}

/// Each port of the package has sixteen pins, numbered 0 to 15.
pub open spec fn pin_is_valid(p: Pin) -> bool {
    p.index < 16
}

/// The letter that names a port.
pub open spec fn port_letter(port: Port) -> char {
    match port {
        Port::A => 'A',
        Port::B => 'B',
        Port::C => 'C',
        Port::D => 'D',
        Port::E => 'E',
    }
}

/// The decimal digits of a natural number, most significant first.
pub open spec fn decimal(n: nat) -> Seq<char>
    decreases n,
{
    let digit = ((n % 10) + ('0' as nat)) as char;
    if n < 10 {
        seq![digit]
    } else {
        decimal(n / 10).push(digit)
    }
}

/// The conventional name of a pin, such as `PB12` or `PE9`.
pub open spec fn pin_name(p: Pin) -> Seq<char> {
    seq!['P', port_letter(p.port)] + decimal(p.index as nat)
}

/// The pins of the user LED group.
#[derive(Clone, Copy, Debug, PartialEq, Eq, Structural)]
pub struct LedPeripherals {
    pub led0: Pin,
}

/// The pins of the user button group.
#[derive(Clone, Copy, Debug, PartialEq, Eq, Structural)]
pub struct ButtonPeripherals {
    pub button0: Pin,
}

/// The pins wired to the cellular modem: its power switch, its power key and
/// the receive and transmit lines of its UART.
#[derive(Clone, Copy, Debug, PartialEq, Eq, Structural)]
pub struct ModemPeripherals {
    pub modem_power: Pin,
    pub modem_pwrkey: Pin,
    pub modem_rx: Pin,
    pub modem_tx: Pin,
}

/// The pins wired to the CAN transceiver: receive, transmit and standby.
#[derive(Clone, Copy, Debug, PartialEq, Eq, Structural)]
pub struct CanPeripherals {
    pub can_rx: Pin,
    pub can_tx: Pin,
    pub can_standby: Pin,
}

pub open spec fn spec_pin(port: Port, index: u8) -> Pin {
    Pin { port, index }
}

pub open spec fn spec_led_peripherals() -> LedPeripherals {
    LedPeripherals { led0: spec_pin(Port::E, 9) }
}

pub open spec fn spec_button_peripherals() -> ButtonPeripherals {
    ButtonPeripherals { button0: spec_pin(Port::C, 13) }
}

pub open spec fn spec_modem_peripherals() -> ModemPeripherals {
    ModemPeripherals {
        modem_power: spec_pin(Port::D, 15),
        modem_pwrkey: spec_pin(Port::D, 13),
        modem_rx: spec_pin(Port::D, 9),
        modem_tx: spec_pin(Port::D, 8),
    }
}

pub open spec fn spec_can_peripherals() -> CanPeripherals {
    CanPeripherals {
        can_rx: spec_pin(Port::B, 12),
        can_tx: spec_pin(Port::B, 13),
        can_standby: spec_pin(Port::B, 4),
    }
}

/// Every pin that the board assigns to a peripheral group, group by group.
pub open spec fn assigned_pins() -> Seq<Pin> {
    let led = spec_led_peripherals();
    let button = spec_button_peripherals();
    let modem = spec_modem_peripherals();
    let can = spec_can_peripherals();
    seq![
        led.led0,
        button.button0,
        modem.modem_power,
        modem.modem_pwrkey,
        modem.modem_rx,
        modem.modem_tx,
        can.can_rx,
        can.can_tx,
        can.can_standby,
    ]
}

/// The LED group: the user LED on `PE9`.
pub fn led_peripherals() -> (p: LedPeripherals)
    ensures
        p == spec_led_peripherals(),
{
    LedPeripherals { led0: Pin { port: Port::E, index: 9 } }
}

/// The button group: the user button on `PC13`.
pub fn button_peripherals() -> (p: ButtonPeripherals)
    ensures
        p == spec_button_peripherals(),
{
    ButtonPeripherals { button0: Pin { port: Port::C, index: 13 } }
}

/// The modem group: power on `PD15`, power key on `PD13`, UART receive on
/// `PD9` and UART transmit on `PD8`.
pub fn modem_peripherals() -> (p: ModemPeripherals)
    ensures
        p == spec_modem_peripherals(),
{
    ModemPeripherals {
        modem_power: Pin { port: Port::D, index: 15 },
        modem_pwrkey: Pin { port: Port::D, index: 13 },
        modem_rx: Pin { port: Port::D, index: 9 },
        modem_tx: Pin { port: Port::D, index: 8 },
    }
}

/// The CAN group: receive on `PB12`, transmit on `PB13`, transceiver
/// standby on `PB4`.
pub fn can_peripherals() -> (p: CanPeripherals)
    ensures
        p == spec_can_peripherals(),
{
    CanPeripherals {
        can_rx: Pin { port: Port::B, index: 12 },
        can_tx: Pin { port: Port::B, index: 13 },
        can_standby: Pin { port: Port::B, index: 4 },
    }
}

/// No pin is assigned twice: the groups are pairwise disjoint and no group
/// names one pin for two roles, so that every group can be taken from the
/// board's peripherals independently of the others.
pub proof fn lemma_assigned_pins_distinct()
    ensures
        assigned_pins().no_duplicates(),
        forall|i: int| 0 <= i < assigned_pins().len() ==> pin_is_valid(#[trigger] assigned_pins()[i]),
{
}

} // verus!
