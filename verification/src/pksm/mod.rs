//! The bank: validation, slot inspection, and the transfer of one box.

pub mod format;
pub mod source;
pub mod transfer;

use crate::game_fs::{opened, Archive, File, FileView};
use crate::utils::slice_compare;
use format::{
    generation_tag, is_valid_bank, slot_is_empty, slot_offset, slots_are_empty, BANK_ENTRY_SIZE,
    BANK_HEADER_MAGIC, BANK_HEADER_SIZE, CHECKED_HEADER_SIZE, CURRENT_GENERATION_TAG, EMPTY_BYTE,
    EMPTY_CHECK_SIZE, EXK_PER_BOX, GENERATION_TAG_SIZE, LEGACY_GENERATION_TAG, MINIMUM_BANK_SIZE,
    PKSM_UNIQUE_ID, SUPPORTED_BANK_VERSION,
};
use source::TransferSource;
use transfer::{
    after_slot_transfer, after_transfer, after_transfer_of, lemma_transfer_of_none,
    lemma_transfer_step,
};
use vstd::prelude::*;

verus! {

/// The namespace a bank lies in: the extra data of PKSM, or the SD card.
pub open spec fn bank_archive(is_ext_data: bool) -> Archive {
    if is_ext_data {
        Archive::ExtData { unique_id: PKSM_UNIQUE_ID }
    } else {
        Archive::Sdmc
    }
}

/// A file that is taken for a bank. Whether it is one, [`Bank::is_valid`] tells.
pub struct Bank {
    file: File,
}

impl Bank {
    /// The bank's file.
    pub closed spec fn view(&self) -> FileView {
        self.file@
    }

    /// The bank at `path`, in the extra data where `is_ext_data` and on the SD card
    /// otherwise. `contents` is what the host found there: `None` where it could not open
    /// the file.
    pub fn new(path: &str, is_ext_data: bool, contents: Option<Vec<u8>>) -> (bank: Bank)
        ensures
            bank@ == opened(bank_archive(is_ext_data), path@, contents),
    {
        let file = if is_ext_data {
            File::new_extdata_file(PKSM_UNIQUE_ID, path, contents)
        } else {
            File::new_sd_file(path, contents)
        };

        Bank { file }
    }

    /// Whether the file is a bank: it is open, large enough for header and one box, and
    /// starts with the magic and the supported version. Nothing tells the caller which of
    /// these a file that is no bank lacks.
    pub fn is_valid(&mut self) -> (valid: bool)
        ensures
            final(self)@ == old(self)@,
            valid == is_valid_bank(old(self)@.readable()),
    {
        // We probably don't need to check if the PKSM box count is greater than 0
        if !self.file.open_success() || self.file.get_size() < MINIMUM_BANK_SIZE {
            return false;
        }
        let mut buffer: [u8; CHECKED_HEADER_SIZE] = [0; CHECKED_HEADER_SIZE];

        self.file.read(0, &mut buffer);

        let magic = slice_compare(&buffer[0..8], &BANK_HEADER_MAGIC);
        let version = slice_compare(&buffer[8..10], &SUPPORTED_BANK_VERSION);
        proof {
            let bytes = self@.readable();
            assert(buffer@.subrange(0, 8) =~= bytes.subrange(0, 8));
            assert(buffer@.subrange(8, 10) =~= bytes.subrange(8, 10));
            assert(magic == (bytes.subrange(0, 8) =~= BANK_HEADER_MAGIC@));
            assert(version == (bytes.subrange(8, 10) =~= SUPPORTED_BANK_VERSION@.subrange(0, 2)));
        }
        magic && version
    }

    /// Where slot `slot` starts in the file, whether the file holds that slot or not.
    pub fn get_slot_offset(&self, slot: u8) -> (offset: u64)
        ensures
            offset == slot_offset(slot as int),
    {
        BANK_HEADER_SIZE + (slot as u64) * BANK_ENTRY_SIZE
    }

    /// Whether slot `slot` is empty: its first ten bytes can be read, and each is `0xff`.
    pub fn is_box_slot_empty(&mut self, slot: u8) -> (empty: bool)
        ensures
            final(self)@ == old(self)@,
            empty == slot_is_empty(old(self)@.readable(), slot as int),
    {
        let start_offset = self.get_slot_offset(slot);
        let mut buffer: [u8; EMPTY_CHECK_SIZE] = [0; EMPTY_CHECK_SIZE];
        let ghost zeros = buffer@;

        // We probably just need to check the sanity bytes
        // Checking the encryption constant, checksum, and species is being extra safe
        self.file.read(start_offset, &mut buffer);

        let mut i: usize = 0;
        while i < EMPTY_CHECK_SIZE
            invariant
                i <= EMPTY_CHECK_SIZE,
                self@ == old(self)@,
                start_offset == slot_offset(slot as int),
                zeros.len() == EMPTY_CHECK_SIZE,
                forall|k: int| 0 <= k < EMPTY_CHECK_SIZE ==> zeros[k] == 0,
                buffer@ == self@.read_into(start_offset as int, zeros),
                forall|k: int| 0 <= k < i ==> buffer@[k] == EMPTY_BYTE,
            decreases EMPTY_CHECK_SIZE - i,
        {
            if buffer[i] != EMPTY_BYTE {
                assert(self@.can_access(start_offset as int, EMPTY_CHECK_SIZE as int)
                    ==> self@.bytes[slot_offset(slot as int) + i] != EMPTY_BYTE);
                return false;
            }
            i += 1;
        }
        proof {
            let bytes = self@.readable();
            assert(buffer@[0] == EMPTY_BYTE);
            assert forall|k: int| 0 <= k < EMPTY_CHECK_SIZE implies #[trigger] bytes[slot_offset(
                slot as int,
            ) + k] == EMPTY_BYTE by {
                assert(buffer@[k] == EMPTY_BYTE);
            }
        }

        true
    }

    /// Whether each of the first `count` slots is empty. Of no slots, each is.
    pub fn are_slots_empty(&mut self, count: u8) -> (empty: bool)
        ensures
            final(self)@ == old(self)@,
            empty == slots_are_empty(old(self)@.readable(), count as int),
    {
        let mut box_slot: u8 = 0;

        while box_slot < count
            invariant
                box_slot <= count,
                self@ == old(self)@,
                slots_are_empty(self@.readable(), box_slot as int),
            decreases count - box_slot,
        {
            if !self.is_box_slot_empty(box_slot) {
                return false;
            }
            box_slot += 1;
        }

        true
    }

    /// Whether each slot of the first box is empty.
    pub fn is_first_box_empty(&mut self) -> (empty: bool)
        ensures
            final(self)@ == old(self)@,
            empty == slots_are_empty(old(self)@.readable(), EXK_PER_BOX as int),
    {
        self.are_slots_empty(EXK_PER_BOX)
    }

    /// Writes the generation tag and then `payload` to slot `pksm_box_slot`. A write that
    /// fails does not keep the other from being made.
    pub fn transfer_slot(&mut self, payload: &[u8], pksm_box_slot: u8, is_legacy_generation: bool)
        ensures
            final(self)@ == after_slot_transfer(
                old(self)@,
                pksm_box_slot as int,
                generation_tag(is_legacy_generation),
                payload@,
            ),
    {
        let pksm_offset = self.get_slot_offset(pksm_box_slot);
        let generation = if is_legacy_generation {
            LEGACY_GENERATION_TAG
        } else {
            CURRENT_GENERATION_TAG
        };

        // Generation data
        self.file.write(pksm_offset, &generation);

        self.file.write(pksm_offset + GENERATION_TAG_SIZE, payload);
    }

    /// Transfers the candidates of `source` into the first box: for each slot of the box, in
    /// order, a candidate is written to the slot with the tag of the source's generation,
    /// and a slot without a candidate is left as it is.
    pub fn transfer_box(&mut self, source: &TransferSource)
        ensures
            final(self)@ == after_transfer(old(self)@, source@),
    {
        let is_legacy_generation = source.is_legacy_generation();
        let mut box_slot: u8 = 0;
        proof {
            use_type_invariant(source);
            lemma_transfer_of_none(self@, source@);
        }

        while box_slot < EXK_PER_BOX
            invariant
                box_slot <= EXK_PER_BOX,
                source@.well_formed(),
                is_legacy_generation == source@.is_legacy_generation(),
                self@ == after_transfer_of(old(self)@, source@, box_slot as int),
            decreases EXK_PER_BOX - box_slot,
        {
            proof {
                lemma_transfer_step(old(self)@, source@, box_slot as int);
            }
            if let Some(ekx_offset) = source.get_ekx_offset(box_slot) {
                let payload = source.payload_at(ekx_offset);
                self.transfer_slot(payload, box_slot, is_legacy_generation);
            }
            box_slot += 1;
        }
    }

    /// Releases the bank's file.
    pub fn close(&mut self)
        ensures
            final(self)@ == old(self)@.after_close(),
    {
        self.file.close();
    }

    /// The bank's file.
    pub fn file(&self) -> (file: &File)
        ensures
            file@ == self@,
    {
        &self.file
    }
}

} // verus!
