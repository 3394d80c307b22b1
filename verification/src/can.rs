//! Static configuration of the CAN interface: the controller instance, the
//! pins and transceiver, the bus timing, the acceptance filter and the
//! identifiers of the bring-up frames.

use crate::pins::{decimal, pin_name, spec_can_peripherals};
use vstd::prelude::*;

verus! {

/// The bxCAN instance wired to the transceiver.
pub const PERIPHERAL: &'static str = "CAN2";

/// The bxCAN instance that owns the filter banks shared with `PERIPHERAL`.
pub const MASTER_PERIPHERAL: &'static str = "CAN1";

/// The pin that receives from the transceiver.
pub const RX_PIN: &'static str = "PB12";

/// The pin that transmits to the transceiver.
pub const TX_PIN: &'static str = "PB13";

/// The transceiver part.
pub const PHY: &'static str = "TJA1042";

/// The pin that drives the transceiver's standby input.
pub const STANDBY_PIN: &'static str = "PB4";

/// The level of the standby pin that puts the transceiver in normal mode:
/// `false` means low.
pub const STANDBY_NORMAL_LEVEL_HIGH: bool = false;

/// The bus bit rate, in bits per second.
pub const BITRATE: u32 = 250_000;

/// The sample point within a bit, in thousandths of the bit time.
pub const SAMPLE_POINT_PERMILLE: u16 = 889;

/// The first filter bank that belongs to `PERIPHERAL` rather than to
/// `MASTER_PERIPHERAL`.
pub const FILTER_SPLIT_INDEX: u8 = 13;

/// The filter bank that `PERIPHERAL` uses to accept frames.
pub const FILTER_BANK_INDEX: u8 = 13;

/// The standard identifier of the frames sent on the bus during bring-up.
pub const TEST_ID: u16 = 0x123;

/// The standard identifier of the frame sent in the loopback self-test.
pub const LOOPBACK_TEST_ID: u16 = 0x321;

/// How long the loopback self-test waits for its frame, in milliseconds.
pub const LOOPBACK_TIMEOUT_MS: u64 = 300;

/// The two bxCAN instances of the STM32F427VG.
#[derive(Clone, Copy, Debug, PartialEq, Eq, Structural)]
pub enum CanInstance {
    Can1,
    Can2,
}

/// The name of an instance, as the reference manual writes it.
pub open spec fn instance_name(c: CanInstance) -> Seq<char> {
    match c {
        CanInstance::Can1 => seq!['C', 'A', 'N', '1'],
        CanInstance::Can2 => seq!['C', 'A', 'N', '2'],
    }
}

/// Takes the board's CAN peripheral: the bxCAN instance wired to the
/// transceiver, which on this board is `CAN2`. The instance is returned as a
/// plain value; the HAL handle for it is made where the HAL is at hand.
pub fn steal_peripheral() -> (c: CanInstance)
    ensures
        c == CanInstance::Can2,
{
    CanInstance::Can2
}

/// The instance that owns the filter banks that the board's CAN peripheral
/// shares: on this board, `CAN1`.
pub fn master_can_instance() -> (c: CanInstance)
    ensures
        c == CanInstance::Can1,
{
    CanInstance::Can1
}

/// The instance names of the configuration are those of the instances that
/// the board takes: `PERIPHERAL` names the instance that `steal_peripheral`
/// returns and `MASTER_PERIPHERAL` the one that `master_can_instance`
/// returns, and the two differ, as a bxCAN slave needs a master other than
/// itself.
pub proof fn lemma_instance_names_match(board: CanInstance, master: CanInstance)
    requires
        board == CanInstance::Can2,
        master == CanInstance::Can1,
    ensures
        PERIPHERAL@ == instance_name(board),
        MASTER_PERIPHERAL@ == instance_name(master),
        board != master,
{
    reveal_strlit("CAN2");
    reveal_strlit("CAN1");
    assert(PERIPHERAL@ =~= instance_name(board));
    assert(MASTER_PERIPHERAL@ =~= instance_name(master));
}

/// The number of filter banks that the two bxCAN instances share.
pub open spec fn shared_filter_banks() -> nat {
    28
}

/// A standard CAN identifier has eleven bits.
pub open spec fn is_standard_id(id: u16) -> bool {
    id < 0x800
}

/// The pin names of the CAN configuration are those of the CAN pin group:
/// `RX_PIN`, `TX_PIN` and `STANDBY_PIN` name the receive, transmit and
/// standby pins that the group assigns.
pub proof fn lemma_pin_names_match_pin_group()
    ensures
        RX_PIN@ == pin_name(spec_can_peripherals().can_rx),
        TX_PIN@ == pin_name(spec_can_peripherals().can_tx),
        STANDBY_PIN@ == pin_name(spec_can_peripherals().can_standby),
{
    reveal_strlit("PB12");
    reveal_strlit("PB13");
    reveal_strlit("PB4");
    assert(decimal(12) =~= seq!['1', '2']) by {
        reveal_with_fuel(decimal, 2);
    }
    assert(decimal(13) =~= seq!['1', '3']) by {
        reveal_with_fuel(decimal, 2);
    }
    assert(RX_PIN@ =~= pin_name(spec_can_peripherals().can_rx));
    assert(TX_PIN@ =~= pin_name(spec_can_peripherals().can_tx));
    assert(STANDBY_PIN@ =~= pin_name(spec_can_peripherals().can_standby));
}

/// The acceptance filter is one that `PERIPHERAL` owns: the split leaves
/// banks to both instances, and the bank in use lies at or above the split
/// and within the shared banks.
pub proof fn lemma_filter_bank_belongs_to_peripheral()
    ensures
        0 < FILTER_SPLIT_INDEX < shared_filter_banks(),
        FILTER_SPLIT_INDEX <= FILTER_BANK_INDEX < shared_filter_banks(),
{
}

/// The bring-up identifiers are valid standard identifiers, and the
/// loopback self-test can tell its own frame from the bring-up frames.
pub proof fn lemma_test_ids_are_standard()
    ensures
        is_standard_id(TEST_ID),
        is_standard_id(LOOPBACK_TEST_ID),
        TEST_ID != LOOPBACK_TEST_ID,
{
}

/// The sample point lies strictly inside the bit time.
pub proof fn lemma_sample_point_inside_bit()
    ensures
        0 < SAMPLE_POINT_PERMILLE < 1000,
{
}

} // verus!
