//! Moving a box of captured records into a bank file.
//!
//! A bank is a file with a fixed header and an array of slots of fixed size. This library
//! decides whether a file is a bank, finds its slots, tells empty slots from occupied ones,
//! and writes the candidates of a transfer into the first box, each under the tag of the
//! generation it comes from.
//!
//! The library works on bytes in memory. Reading the bank from the host's storage, reading
//! the candidates from the host's memory, and carrying the bank's bytes back is left to the
//! caller.

pub mod game_fs;
pub mod pksm;
pub mod utils;

use game_fs::{opened, FileView};
use pksm::format::{is_valid_bank, slots_are_empty, EXK_PER_BOX};
use pksm::source::{TransferSource, TransferSourceView};
use pksm::transfer::after_transfer;
use pksm::{bank_archive, Bank};
use vstd::prelude::*;

verus! {

/// Where the bank lies in the extra data.
pub const EXTDATA_BANK_FILE_PATH: &'static str = "/banks/transport.bnk\0";

/// Where the bank lies on the SD card.
pub const SD_BANK_FILE_PATH: &'static str = "/3ds/PKSM/banks/transport.bnk\0";

/// Where the host goes on after it has asked for the transfer.
pub const SEND_RETURN_ADDRESS: u32 = 0x24a3dc;

/// Where the host goes on after it has asked whether a transfer is safe.
pub const VERIFY_RETURN_ADDRESS: u32 = 0x248d40;

/// The state that follows a call from a place that asks for nothing.
pub const STATE_NONE: u32 = 0;

/// The state that follows a transfer.
pub const STATE_AFTER_TRANSFER: u32 = 0x10;

/// The state that follows a check which found the transfer safe.
pub const STATE_SAFE: u32 = 3;

/// The state that follows a check which did not find the transfer safe.
pub const STATE_NOT_SAFE: u32 = 7;

/// What the host can ask for.
#[derive(Clone, Copy, Debug, PartialEq, Eq, Structural)]
pub enum Operation {
    SendPokemonToBank,
    VerifySafeTransfer,
}

/// What a call that returns to `return_addr` asks for.
// There is a single entry point for the two operations, so the return address has to tell
// which of them is meant
pub fn operation_for(return_addr: u32) -> (operation: Option<Operation>)
    ensures
        operation == (if return_addr == SEND_RETURN_ADDRESS {
            Some(Operation::SendPokemonToBank)
        } else if return_addr == VERIFY_RETURN_ADDRESS {
            Some(Operation::VerifySafeTransfer)
        } else {
            None
        }),
{
    if return_addr == SEND_RETURN_ADDRESS {
        Some(Operation::SendPokemonToBank)
    } else if return_addr == VERIFY_RETURN_ADDRESS {
        Some(Operation::VerifySafeTransfer)
    } else {
        None
    }
}

/// The bank in the extra data, as the host found it.
pub open spec fn extdata_bank(contents: Option<Vec<u8>>) -> FileView {
    opened(bank_archive(true), EXTDATA_BANK_FILE_PATH@, contents)
}

/// The bank on the SD card, as the host found it.
pub open spec fn sd_bank(contents: Option<Vec<u8>>) -> FileView {
    opened(bank_archive(false), SD_BANK_FILE_PATH@, contents)
}

/// The bank to work on: the one in the extra data where that is a bank, and the one on the
/// SD card otherwise, bank or not.
pub open spec fn chosen_bank(extdata: Option<Vec<u8>>, sd: Option<Vec<u8>>) -> FileView {
    if is_valid_bank(extdata_bank(extdata).readable()) {
        extdata_bank(extdata)
    } else {
        sd_bank(sd)
    }
}

/// The bank after the candidates of `source` were sent to it and it was closed. Nothing is
/// written to a file that is no bank.
pub open spec fn bank_after_sending(bank: FileView, source: TransferSourceView) -> FileView {
    if is_valid_bank(bank.readable()) {
        after_transfer(bank, source).after_close()
    } else {
        bank.after_close()
    }
}

/// Picks the bank to work on. `extdata` and `sd` are what the host found at the bank's
/// place in the extra data and on the SD card: `None` where it could not open the file.
// Instead of reading PKSM's config JSON file, we'll just read each location and default to extdata
pub fn get_bank(extdata: Option<Vec<u8>>, sd: Option<Vec<u8>>) -> (bank: Bank)
    ensures
        bank@ == chosen_bank(extdata, sd),
{
    let mut bank = Bank::new(EXTDATA_BANK_FILE_PATH, true, extdata);

    if !bank.is_valid() {
        bank.close();
        bank = Bank::new(SD_BANK_FILE_PATH, false, sd);
    }

    bank
}

/// Sends the candidates of `source` to the bank and closes it. Returns the next state and
/// the bank, whose bytes the caller carries back to the host.
pub fn send_pokemon_to_bank(
    extdata: Option<Vec<u8>>,
    sd: Option<Vec<u8>>,
    source: &TransferSource,
) -> (sent: (u32, Bank))
    ensures
        sent.0 == STATE_AFTER_TRANSFER,
        sent.1@ == bank_after_sending(chosen_bank(extdata, sd), source@),
{
    let mut bank = get_bank(extdata, sd);

    if bank.is_valid() {
        bank.transfer_box(source);
    }
    bank.close();

    (STATE_AFTER_TRANSFER, bank)
}

/// Whether the first box can take a transfer: the bank is valid and each slot of its first
/// box is empty. Returns the next state.
pub fn verify_safe_transfer(extdata: Option<Vec<u8>>, sd: Option<Vec<u8>>) -> (next_state: u32)
    ensures
        next_state == (if is_valid_bank(chosen_bank(extdata, sd).readable()) && slots_are_empty(
            chosen_bank(extdata, sd).readable(),
            EXK_PER_BOX as int,
        ) {
            STATE_SAFE
        } else {
            STATE_NOT_SAFE
        }),
{
    let mut bank = get_bank(extdata, sd);

    let is_valid = bank.is_valid() && bank.is_first_box_empty();

    let next_state = if is_valid {
        STATE_SAFE
    } else {
        STATE_NOT_SAFE
    };

    bank.close();

    next_state
}

} // verus!
