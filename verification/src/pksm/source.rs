//! The source of a transfer: what the host holds ready to be moved into the bank.
//!
//! The host keeps three things side by side: a list with one entry per slot of a box, which
//! says whether there is a candidate for that slot; the payloads, one per slot and in the
//! same order; and a code for the format generation the payloads were produced under.

use super::format::{EXK_PER_BOX, PAYLOAD_SIZE};
use vstd::prelude::*;

verus! {

/// The list entry of a slot without a candidate.
pub const NO_CANDIDATE: u32 = 0xffff_ffff;

/// The generation code of the older source format.
pub const LEGACY_GAME_CODE: u32 = 2;

/// What a [`TransferSource`] stands for.
pub struct TransferSourceView {
    /// For each slot, an entry that is [`NO_CANDIDATE`] where there is no candidate for it.
    pub slot_list: Seq<u32>,
    /// The payloads, one behind the other.
    pub payloads: Seq<u8>,
    /// The code of the format generation the payloads were produced under.
    pub game_code: u32,
}

/// The three parts of a source, taken together.
pub open spec fn parts(
    slot_list: Seq<u32>,
    payloads: Seq<u8>,
    game_code: u32,
) -> TransferSourceView {
    TransferSourceView { slot_list, payloads, game_code }
}

/// Where the payload of slot `slot` starts among the payloads.
pub open spec fn payload_offset(slot: int) -> int {
    slot * PAYLOAD_SIZE
}

impl TransferSourceView {
    /// One list entry and one payload for each slot of a box.
    pub open spec fn well_formed(self) -> bool {
        &&& self.slot_list.len() == EXK_PER_BOX
        &&& self.payloads.len() == EXK_PER_BOX * PAYLOAD_SIZE
    }

    /// Whether the payloads come from the older source format.
    pub open spec fn is_legacy_generation(self) -> bool {
        self.game_code == LEGACY_GAME_CODE
    }

    /// Whether there is a candidate for slot `slot`.
    pub open spec fn has_candidate(self, slot: int) -> bool {
        0 <= slot < EXK_PER_BOX && self.slot_list[slot] != NO_CANDIDATE
    }

    /// The payload for slot `slot`.
    pub open spec fn payload(self, slot: int) -> Seq<u8> {
        self.payloads.subrange(payload_offset(slot), payload_offset(slot) + PAYLOAD_SIZE)
    }
}

/// The candidates of one transfer.
pub struct TransferSource {
    slot_list: Vec<u32>,
    payloads: Vec<u8>,
    game_code: u32,
}

impl TransferSource {
    pub closed spec fn view(&self) -> TransferSourceView {
        parts(self.slot_list@, self.payloads@, self.game_code)
    }

    /// Holds of every source: there is no way to make one that lacks an entry or a payload.
    #[verifier::type_invariant]
    pub open spec fn well_formed(&self) -> bool {
        self@.well_formed()
    }

    /// A source of these three parts, where there is one list entry and one payload for
    /// each slot of a box, and `None` otherwise.
    pub fn new(slot_list: Vec<u32>, payloads: Vec<u8>, game_code: u32) -> (source: Option<Self>)
        ensures
            source.is_some() == parts(slot_list@, payloads@, game_code).well_formed(),
            source matches Some(made) ==> made@ == parts(slot_list@, payloads@, game_code),
    {
        let slots = EXK_PER_BOX as usize;
        if slot_list.len() == slots && payloads.len() == slots * PAYLOAD_SIZE as usize {
            Some(TransferSource { slot_list, payloads, game_code })
        } else {
            None
        }
    }

    /// Whether the payloads come from the older source format.
    pub fn is_legacy_generation(&self) -> (is_legacy: bool)
        ensures
            is_legacy == self@.is_legacy_generation(),
    {
        self.game_code == LEGACY_GAME_CODE
    }

    /// Where among the payloads the candidate for slot `box_slot` starts, or `None` where
    /// there is no candidate for that slot.
    pub fn get_ekx_offset(&self, box_slot: u8) -> (offset: Option<u32>)
        ensures
            offset.is_some() == self@.has_candidate(box_slot as int),
            offset matches Some(start) ==> start == payload_offset(box_slot as int),
    {
        proof {
            use_type_invariant(self);
        }
        if box_slot >= EXK_PER_BOX {
            return None;
        }
        let transfer_slot = self.slot_list[box_slot as usize];

        // Check for empty slot
        if transfer_slot == NO_CANDIDATE {
            return None;
        }
        assert(box_slot * PAYLOAD_SIZE <= u32::MAX) by {
            assert(EXK_PER_BOX == 30 && PAYLOAD_SIZE == 332);
        }
        Some(box_slot as u32 * PAYLOAD_SIZE as u32)
    }

    /// The payload that starts at `offset`.
    pub(crate) fn payload_at(&self, offset: u32) -> (payload: &[u8])
        requires
            offset + PAYLOAD_SIZE <= self@.payloads.len(),
        ensures
            payload@ == self@.payloads.subrange(offset as int, offset + PAYLOAD_SIZE),
    {
        proof {
            use_type_invariant(self);
        }
        let start = offset as usize;
        vstd::slice::slice_subrange(self.payloads.as_slice(), start, start + PAYLOAD_SIZE as usize)
    }
}

} // verus!
