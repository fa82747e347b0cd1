//! The layout of a bank file.
//!
//! ```text
//! offset 0  : 8 bytes  magic
//! offset 8  : 4 bytes  version
//! offset 16 : slot 0, slot 1, ...
//! each slot : 4 bytes generation tag, then the payload
//! ```

use vstd::prelude::*;

verus! {

// ---------- if PKSM bank updates, these will most likely need to change -----------------------
/// The bytes a bank file starts with.
pub const BANK_HEADER_MAGIC: [u8; 8] = [0x50, 0x4B, 0x53, 0x4D, 0x42, 0x41, 0x4E, 0x4B];

/// The one bank version that is accepted.
pub const SUPPORTED_BANK_VERSION: [u8; 4] = [3, 0, 0, 0];

/// The title whose extra data holds the bank.
pub const PKSM_UNIQUE_ID: u32 = 0xEC100;

/// Bytes per slot.
pub const BANK_ENTRY_SIZE: u64 = 0x150;

/// Where slot 0 starts.
pub const BANK_HEADER_SIZE: u64 = 0x10;

/// Slots per box.
pub const EXK_PER_BOX: u8 = 30;

/// The size below which no file is a bank: header and one box.
pub const MINIMUM_BANK_SIZE: u64 = BANK_HEADER_SIZE + BANK_ENTRY_SIZE * (EXK_PER_BOX as u64);

/// The tag of a payload that an older source format produced.
pub const LEGACY_GENERATION_TAG: [u8; 4] = [2, 0, 0, 0];

/// The tag of a payload that the current source format produced.
pub const CURRENT_GENERATION_TAG: [u8; 4] = [3, 0, 0, 0];
// ----------------------------------------------------------------------------------------------

/// How many bytes at the start of a bank file are checked against magic and version: the
/// magic and the first two bytes of the version.
pub const CHECKED_HEADER_SIZE: usize = 10;

/// Bytes of a slot's generation tag.
pub const GENERATION_TAG_SIZE: u64 = 4;

/// Bytes of a slot's payload: what follows the tag.
pub const PAYLOAD_SIZE: u64 = BANK_ENTRY_SIZE - GENERATION_TAG_SIZE;

/// How many bytes at the start of a slot decide whether it is empty.
pub const EMPTY_CHECK_SIZE: usize = 10;

/// The value of each of those bytes in an empty slot.
pub const EMPTY_BYTE: u8 = 0xff;

/// Where slot `slot` starts.
pub open spec fn slot_offset(slot: int) -> int {
    BANK_HEADER_SIZE + slot * BANK_ENTRY_SIZE
}

/// Whether a file of these bytes is a bank: large enough for header and one box, and
/// starting with the magic and the supported version.
pub open spec fn is_valid_bank(bytes: Seq<u8>) -> bool {
    &&& bytes.len() >= MINIMUM_BANK_SIZE
    &&& bytes.subrange(0, 8) == BANK_HEADER_MAGIC@
    &&& bytes.subrange(8, 10) == SUPPORTED_BANK_VERSION@.subrange(0, 2)
}

/// Whether slot `slot` is empty: the file holds its first ten bytes, and each is `0xff`.
pub open spec fn slot_is_empty(bytes: Seq<u8>, slot: int) -> bool {
    &&& slot_offset(slot) + EMPTY_CHECK_SIZE <= bytes.len()
    &&& forall|k: int|
        0 <= k < EMPTY_CHECK_SIZE ==> #[trigger] bytes[slot_offset(slot) + k] == EMPTY_BYTE
}

/// Whether each of the first `count` slots is empty.
pub open spec fn slots_are_empty(bytes: Seq<u8>, count: int) -> bool {
    forall|slot: int| 0 <= slot < count ==> slot_is_empty(bytes, slot)
}

/// The tag written with a payload.
pub open spec fn generation_tag(is_legacy_generation: bool) -> Seq<u8> {
    if is_legacy_generation {
        LEGACY_GENERATION_TAG@
    } else {
        CURRENT_GENERATION_TAG@
    }
}

/// A bank cut down to its first `len` bytes is still a bank as long as header and one box
/// are left, and it is none as soon as a single byte of them is missing.
pub proof fn lemma_truncated_bank(bytes: Seq<u8>, len: int)
    requires
        is_valid_bank(bytes),
        0 <= len <= bytes.len(),
    ensures
        is_valid_bank(bytes.subrange(0, len)) == (len >= MINIMUM_BANK_SIZE),
{
    let cut = bytes.subrange(0, len);
    if len >= MINIMUM_BANK_SIZE {
        assert(cut.subrange(0, 8) =~= bytes.subrange(0, 8));
        assert(cut.subrange(8, 10) =~= bytes.subrange(8, 10));
    }
}

/// A bank holds each slot of its first box whole.
pub proof fn lemma_bank_holds_first_box(bytes: Seq<u8>, slot: int)
    requires
        is_valid_bank(bytes),
        0 <= slot < EXK_PER_BOX,
    ensures
        0 <= slot_offset(slot),
        slot_offset(slot) + BANK_ENTRY_SIZE <= bytes.len(),
{
}

/// A file that is too small for header and one box is no bank, whatever it starts with.
pub proof fn lemma_small_file_is_no_bank(bytes: Seq<u8>)
    requires
        bytes.len() < MINIMUM_BANK_SIZE,
    ensures
        !is_valid_bank(bytes),
{
}

/// A file whose magic differs from the expected one in some byte is no bank, whatever its
/// size and its version.
pub proof fn lemma_wrong_magic(bytes: Seq<u8>, index: int)
    requires
        0 <= index < 8,
        index < bytes.len(),
        bytes[index] != BANK_HEADER_MAGIC@[index],
    ensures
        !is_valid_bank(bytes),
{
    if bytes.len() >= MINIMUM_BANK_SIZE {
        assert(bytes.subrange(0, 8)[index] == bytes[index]);
    }
}

/// A file whose version differs from the supported one in one of its first two bytes is no
/// bank, whatever its size.
pub proof fn lemma_wrong_version(bytes: Seq<u8>, index: int)
    requires
        0 <= index < 2,
        8 + index < bytes.len(),
        bytes[8 + index] != SUPPORTED_BANK_VERSION@[index],
    ensures
        !is_valid_bank(bytes),
{
    if bytes.len() >= MINIMUM_BANK_SIZE {
        assert(bytes.subrange(8, 10)[index] == bytes[8 + index]);
        assert(SUPPORTED_BANK_VERSION@.subrange(0, 2)[index] == SUPPORTED_BANK_VERSION@[index]);
    }
}

/// Slots lie one behind the other: each starts where the one before it ends, so that a
/// later slot starts further on and no two slots share a byte.
pub proof fn lemma_slots_are_disjoint(first: int, second: int)
    requires
        first < second,
    ensures
        slot_offset(first + 1) == slot_offset(first) + BANK_ENTRY_SIZE,
        slot_offset(first) < slot_offset(second),
        slot_offset(first) + BANK_ENTRY_SIZE <= slot_offset(second),
{
}

/// A single one of a slot's first ten bytes that is not `0xff` makes the slot occupied.
pub proof fn lemma_changed_byte_occupies_slot(bytes: Seq<u8>, slot: int, index: int, value: u8)
    requires
        0 <= slot,
        0 <= index < EMPTY_CHECK_SIZE,
        slot_offset(slot) + index < bytes.len(),
        value != EMPTY_BYTE,
    ensures
        !slot_is_empty(bytes.update(slot_offset(slot) + index, value), slot),
{
    let changed = bytes.update(slot_offset(slot) + index, value);
    assert(changed[slot_offset(slot) + index] == value);
}

/// Whether a slot is empty depends on its first ten bytes alone: two files that agree in
/// them agree on the slot, whatever else they hold.
pub proof fn lemma_emptiness_reads_ten_bytes(first: Seq<u8>, second: Seq<u8>, slot: int)
    requires
        0 <= slot,
        slot_offset(slot) + EMPTY_CHECK_SIZE <= first.len(),
        slot_offset(slot) + EMPTY_CHECK_SIZE <= second.len(),
        first.subrange(slot_offset(slot), slot_offset(slot) + EMPTY_CHECK_SIZE)
            == second.subrange(slot_offset(slot), slot_offset(slot) + EMPTY_CHECK_SIZE),
    ensures
        slot_is_empty(first, slot) == slot_is_empty(second, slot),
{
    let start = slot_offset(slot);
    let end = start + EMPTY_CHECK_SIZE;
    assert forall|k: int|
        #![trigger first[start + k]]
        #![trigger second[start + k]]
        0 <= k < EMPTY_CHECK_SIZE implies first[start + k] == second[start + k] by {
        assert(first.subrange(start, end)[k] == first[start + k]);
        assert(second.subrange(start, end)[k] == second[start + k]);
    }
}

/// The first `count` slots are all empty if and only if none of them is occupied: one
/// occupied slot at any place among them is enough for the answer to be no.
pub proof fn lemma_occupied_slot(bytes: Seq<u8>, count: int, slot: int)
    requires
        0 <= slot < count,
        !slot_is_empty(bytes, slot),
    ensures
        !slots_are_empty(bytes, count),
{
}

/// Of no slots at all, each is empty.
pub proof fn lemma_no_slots(bytes: Seq<u8>)
    ensures
        slots_are_empty(bytes, 0),
{
}

} // verus!
