use ariel_os_boards::{init, OptionalPeripherals};
use ariel_os_boards::can;
use ariel_os_boards::modem;
use ariel_os_boards::pins::{
    button_peripherals, can_peripherals, led_peripherals, modem_peripherals, Pin, Port,
};
use ariel_os_boards::tbox_log;

fn name(p: Pin) -> String {
    let letter = match p.port {
        Port::A => 'A',
        Port::B => 'B',
        Port::C => 'C',
        Port::D => 'D',
        Port::E => 'E',
    };
    format!("P{}{}", letter, p.index)
}

#[test]
fn led_group_is_pe9() {
    let led = led_peripherals();
    assert_eq!(led.led0, Pin { port: Port::E, index: 9 });
}

#[test]
fn button_group_is_pc13() {
    let button = button_peripherals();
    assert_eq!(button.button0, Pin { port: Port::C, index: 13 });
}

#[test]
fn modem_group_pins() {
    let modem = modem_peripherals();
    assert_eq!(modem.modem_power, Pin { port: Port::D, index: 15 });
    assert_eq!(modem.modem_pwrkey, Pin { port: Port::D, index: 13 });
    assert_eq!(modem.modem_rx, Pin { port: Port::D, index: 9 });
    assert_eq!(modem.modem_tx, Pin { port: Port::D, index: 8 });
}

#[test]
fn can_group_pins() {
    let can = can_peripherals();
    assert_eq!(can.can_rx, Pin { port: Port::B, index: 12 });
    assert_eq!(can.can_tx, Pin { port: Port::B, index: 13 });
    assert_eq!(can.can_standby, Pin { port: Port::B, index: 4 });
}

#[test]
fn no_pin_is_assigned_twice() {
    let led = led_peripherals();
    let button = button_peripherals();
    let modem = modem_peripherals();
    let can = can_peripherals();
    let all = [
        led.led0,
        button.button0,
        modem.modem_power,
        modem.modem_pwrkey,
        modem.modem_rx,
        modem.modem_tx,
        can.can_rx,
        can.can_tx,
        can.can_standby,
    ];
    for i in 0..all.len() {
        assert!(all[i].index < 16);
        for j in 0..all.len() {
            if i != j {
                assert_ne!(all[i], all[j]);
            }
        }
    }
}

#[test]
fn can_pin_names_match_pin_group() {
    let pins = can_peripherals();
    assert_eq!(name(pins.can_rx), can::RX_PIN);
    assert_eq!(name(pins.can_tx), can::TX_PIN);
    assert_eq!(name(pins.can_standby), can::STANDBY_PIN);
}

#[test]
fn can_configuration() {
    assert_eq!(can::PERIPHERAL, "CAN2");
    assert_eq!(can::MASTER_PERIPHERAL, "CAN1");
    assert_eq!(can::PHY, "TJA1042");
    assert!(!can::STANDBY_NORMAL_LEVEL_HIGH);
    assert_eq!(can::BITRATE, 250_000);
    assert_eq!(can::SAMPLE_POINT_PERMILLE, 889);
    assert_eq!(can::FILTER_SPLIT_INDEX, 13);
    assert_eq!(can::FILTER_BANK_INDEX, 13);
    assert_eq!(can::TEST_ID, 0x123);
    assert_eq!(can::LOOPBACK_TEST_ID, 0x321);
    assert_eq!(can::LOOPBACK_TIMEOUT_MS, 300);
}

#[test]
fn can_filter_and_ids_are_usable() {
    assert!(can::FILTER_SPLIT_INDEX > 0 && can::FILTER_SPLIT_INDEX < 28);
    assert!(can::FILTER_SPLIT_INDEX <= can::FILTER_BANK_INDEX && can::FILTER_BANK_INDEX < 28);
    assert!(can::TEST_ID < 0x800);
    assert!(can::LOOPBACK_TEST_ID < 0x800);
    assert_ne!(can::TEST_ID, can::LOOPBACK_TEST_ID);
    assert!(can::SAMPLE_POINT_PERMILLE > 0 && can::SAMPLE_POINT_PERMILLE < 1000);
}

#[test]
fn modem_configuration() {
    assert_eq!(modem::MODEL, "EC800M");
    assert_eq!(modem::UART, "USART3");
    assert_eq!(modem::BAUDRATE, 921_600);
    assert!(modem::UART_DMA);
    assert!(!modem::POWER_ACTIVE_HIGH);
    assert!(!modem::PWRKEY_ACTIVE_HIGH);
    assert_eq!(modem::PWRKEY_PULSE_MS, 1_000);
}

#[test]
fn log_tags_and_switches() {
    assert_eq!(tbox_log::kernel::TAG, "kernel");
    assert_eq!(tbox_log::modem::TAG, "modem");
    assert_eq!(tbox_log::can::TAG, "can");
    assert_eq!(tbox_log::vehicle::TAG, "vehicle");
    assert_eq!(tbox_log::remote::TAG, "remote");
    assert!(tbox_log::kernel::ENABLED);
    assert!(tbox_log::modem::ENABLED);
    assert!(tbox_log::can::ENABLED);
    assert!(tbox_log::vehicle::ENABLED);
    assert!(tbox_log::remote::ENABLED);
}

#[test]
fn board_can_peripheral_is_can2() {
    assert_eq!(can::steal_peripheral(), can::CanInstance::Can2);
    assert_eq!(can::master_can_instance(), can::CanInstance::Can1);
    assert_ne!(can::steal_peripheral(), can::master_can_instance());
    assert_eq!(can::PERIPHERAL, "CAN2");
    assert_eq!(can::MASTER_PERIPHERAL, "CAN1");
}

#[test]
fn init_takes_no_peripheral() {
    let free = vec![
        Pin { port: Port::E, index: 9 },
        Pin { port: Port::B, index: 12 },
        Pin { port: Port::D, index: 8 },
    ];
    let mut peripherals = OptionalPeripherals { free_pins: free.clone() };
    init(&mut peripherals);
    assert_eq!(peripherals.free_pins, free);

    let mut empty = OptionalPeripherals { free_pins: Vec::new() };
    init(&mut empty);
    assert!(empty.free_pins.is_empty());
}
