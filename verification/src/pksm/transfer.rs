//! What a transfer of one box leaves in a bank, byte by byte.

use super::format::{
    generation_tag, is_valid_bank, lemma_bank_holds_first_box, slot_is_empty, slot_offset,
    slots_are_empty, BANK_ENTRY_SIZE, BANK_HEADER_SIZE, EXK_PER_BOX, GENERATION_TAG_SIZE,
    MINIMUM_BANK_SIZE, PAYLOAD_SIZE,
};
use super::source::{payload_offset, TransferSourceView};
use crate::game_fs::{lemma_overwrite, FileView};
use vstd::prelude::*;

verus! {

/// The slot that the byte at `position` belongs to.
pub open spec fn slot_at(position: int) -> int {
    (position - BANK_HEADER_SIZE) / (BANK_ENTRY_SIZE as int)
}

/// The file after tag and payload were written to slot `slot`, each write by itself: one
/// that the file cannot hold is left out, whatever becomes of the other.
pub open spec fn after_slot_transfer(
    file: FileView,
    slot: int,
    tag: Seq<u8>,
    payload: Seq<u8>,
) -> FileView {
    file.after_write(slot_offset(slot), tag).after_write(
        slot_offset(slot) + GENERATION_TAG_SIZE,
        payload,
    )
}

/// The byte at `position` after the candidates for the first `count` slots were transferred
/// into a file that held `bytes`.
///
/// A byte outside those slots, or in a slot without a candidate, stays. In a slot with a
/// candidate, the first four bytes become the generation tag and the others the payload,
/// each of the two only where the file holds the whole of it.
pub open spec fn byte_after_transfer(
    bytes: Seq<u8>,
    source: TransferSourceView,
    count: int,
    position: int,
) -> u8 {
    let slot = slot_at(position);
    let within = position - slot_offset(slot);
    if !(slot < count && source.has_candidate(slot)) {
        bytes[position]
    } else if within < GENERATION_TAG_SIZE {
        if slot_offset(slot) + GENERATION_TAG_SIZE <= bytes.len() {
            generation_tag(source.is_legacy_generation())[within]
        } else {
            bytes[position]
        }
    } else {
        if slot_offset(slot) + BANK_ENTRY_SIZE <= bytes.len() {
            source.payload(slot)[within - GENERATION_TAG_SIZE]
        } else {
            bytes[position]
        }
    }
}

/// The file after the candidates for the first `count` slots were transferred. Nothing is
/// transferred into a file that is not open.
pub open spec fn after_transfer_of(
    file: FileView,
    source: TransferSourceView,
    count: int,
) -> FileView {
    if file.is_open {
        FileView {
            bytes: Seq::new(
                file.bytes.len(),
                |position: int| byte_after_transfer(file.bytes, source, count, position),
            ),
            ..file
        }
    } else {
        file
    }
}

/// The file after the candidates for all slots of the box were transferred.
pub open spec fn after_transfer(file: FileView, source: TransferSourceView) -> FileView {
    after_transfer_of(file, source, EXK_PER_BOX as int)
}

/// As long as no slot was handled, the file is as it was.
pub proof fn lemma_transfer_of_none(file: FileView, source: TransferSourceView)
    ensures
        after_transfer_of(file, source, 0) == file,
{
    assert(after_transfer_of(file, source, 0).bytes =~= file.bytes);
}

/// The transfer handles the slots one after the other: a slot with a candidate gets its tag
/// and its payload written, a slot without one is passed over.
pub proof fn lemma_transfer_step(file: FileView, source: TransferSourceView, slot: int)
    requires
        source.well_formed(),
        0 <= slot < EXK_PER_BOX,
    ensures
        after_transfer_of(file, source, slot + 1) == (if source.has_candidate(slot) {
            after_slot_transfer(
                after_transfer_of(file, source, slot),
                slot,
                generation_tag(source.is_legacy_generation()),
                source.payload(slot),
            )
        } else {
            after_transfer_of(file, source, slot)
        }),
{
    let before = after_transfer_of(file, source, slot);
    let after = after_transfer_of(file, source, slot + 1);
    let tag = generation_tag(source.is_legacy_generation());
    let payload = source.payload(slot);
    let start = slot_offset(slot);
    assert forall|position: int| slot_at(position) == slot <==> start <= position < start
        + BANK_ENTRY_SIZE by {}
    if !file.is_open {
    } else if source.has_candidate(slot) {
        let tagged = before.after_write(start, tag);
        let written = tagged.after_write(start + GENERATION_TAG_SIZE, payload);
        assert(payload.len() == PAYLOAD_SIZE) by {
            assert(0 <= payload_offset(slot));
            assert(payload_offset(slot) + PAYLOAD_SIZE <= source.payloads.len());
        }
        if before.can_access(start, tag.len() as int) {
            lemma_overwrite(before.bytes, start, tag);
        }
        if tagged.can_access(start + GENERATION_TAG_SIZE, payload.len() as int) {
            lemma_overwrite(tagged.bytes, start + GENERATION_TAG_SIZE, payload);
        }
        assert forall|position: int| 0 <= position < after.bytes.len() implies
            written.bytes[position] == after.bytes[position] by {
            if slot_at(position) != slot {
                assert(tagged.bytes[position] == before.bytes[position]);
            }
        }
        assert(written.bytes =~= after.bytes);
    } else {
        assert(before.bytes =~= after.bytes);
    }
}

/// A transfer leaves the file where it is, open or not as it was, and of the same size.
pub proof fn lemma_transfer_keeps_place_and_size(file: FileView, source: TransferSourceView)
    ensures
        after_transfer(file, source).archive == file.archive,
        after_transfer(file, source).path == file.path,
        after_transfer(file, source).is_open == file.is_open,
        after_transfer(file, source).bytes.len() == file.bytes.len(),
{
}

/// After a transfer, a slot with a candidate that the file holds whole starts with the tag
/// of the source's generation, and the payload of the candidate follows it, byte for byte.
pub proof fn lemma_transferred_slot(file: FileView, source: TransferSourceView, slot: int)
    requires
        source.well_formed(),
        file.is_open,
        source.has_candidate(slot),
        slot_offset(slot) + BANK_ENTRY_SIZE <= file.bytes.len(),
    ensures
        after_transfer(file, source).bytes.subrange(
            slot_offset(slot),
            slot_offset(slot) + GENERATION_TAG_SIZE,
        ) == generation_tag(source.is_legacy_generation()),
        after_transfer(file, source).bytes.subrange(
            slot_offset(slot) + GENERATION_TAG_SIZE,
            slot_offset(slot) + BANK_ENTRY_SIZE,
        ) == source.payload(slot),
{
    let after = after_transfer(file, source).bytes;
    let start = slot_offset(slot);
    let tag = generation_tag(source.is_legacy_generation());
    assert forall|position: int| start <= position < start + BANK_ENTRY_SIZE implies slot_at(
        position,
    ) == slot by {}
    assert(payload_offset(slot) + PAYLOAD_SIZE <= source.payloads.len());
    assert(after.subrange(start, start + GENERATION_TAG_SIZE) =~= tag);
    assert(after.subrange(start + GENERATION_TAG_SIZE, start + BANK_ENTRY_SIZE)
        =~= source.payload(slot));
}

/// A transfer changes no byte but those of the slots with a candidate: every byte of a slot
/// without one, of the header, and of what lies behind the box is as it was.
pub proof fn lemma_untouched_byte(file: FileView, source: TransferSourceView, position: int)
    requires
        0 <= position < file.bytes.len(),
        !source.has_candidate(slot_at(position)),
    ensures
        after_transfer(file, source).bytes[position] == file.bytes[position],
{
}

/// A transfer stays within the first box: the header and what lies behind the box are as
/// they were.
pub proof fn lemma_transfer_stays_in_first_box(
    file: FileView,
    source: TransferSourceView,
    position: int,
)
    requires
        0 <= position < file.bytes.len(),
        position < BANK_HEADER_SIZE || position >= MINIMUM_BANK_SIZE,
    ensures
        after_transfer(file, source).bytes[position] == file.bytes[position],
{
}

/// A slot without a candidate that the file holds whole is the same after a transfer as
/// before it.
pub proof fn lemma_untouched_slot(file: FileView, source: TransferSourceView, slot: int)
    requires
        !source.has_candidate(slot),
        0 <= slot_offset(slot),
        slot_offset(slot) + BANK_ENTRY_SIZE <= file.bytes.len(),
    ensures
        after_transfer(file, source).bytes.subrange(
            slot_offset(slot),
            slot_offset(slot) + BANK_ENTRY_SIZE,
        ) == file.bytes.subrange(slot_offset(slot), slot_offset(slot) + BANK_ENTRY_SIZE),
{
    let after = after_transfer(file, source).bytes;
    let start = slot_offset(slot);
    assert forall|position: int| start <= position < start + BANK_ENTRY_SIZE implies slot_at(
        position,
    ) == slot by {}
    assert(after.subrange(start, start + BANK_ENTRY_SIZE) =~= file.bytes.subrange(
        start,
        start + BANK_ENTRY_SIZE,
    ));
}

/// A transfer does not touch the header: what was a bank before is one after, and what was
/// none is none.
pub proof fn lemma_transfer_keeps_validity(file: FileView, source: TransferSourceView)
    ensures
        is_valid_bank(after_transfer(file, source).readable()) == is_valid_bank(file.readable()),
{
    let before = file.readable();
    let after = after_transfer(file, source).readable();
    if before.len() >= 10 {
        assert(after.subrange(0, 8) =~= before.subrange(0, 8));
        assert(after.subrange(8, 10) =~= before.subrange(8, 10));
    }
}

/// A transfer into a bank occupies the slot of each candidate, so that the first box is
/// not empty once a single candidate was transferred.
pub proof fn lemma_transfer_occupies_slot(file: FileView, source: TransferSourceView, slot: int)
    requires
        source.well_formed(),
        is_valid_bank(file.readable()),
        source.has_candidate(slot),
    ensures
        !slot_is_empty(after_transfer(file, source).readable(), slot),
        !slots_are_empty(after_transfer(file, source).readable(), EXK_PER_BOX as int),
{
    let after = after_transfer(file, source);
    let start = slot_offset(slot);
    let tag = generation_tag(source.is_legacy_generation());
    assert(file.is_open);
    lemma_bank_holds_first_box(file.bytes, slot);
    lemma_transfer_keeps_place_and_size(file, source);
    assert(after.bytes[start + 0] == tag[0]) by {
        lemma_transferred_slot(file, source, slot);
        assert(after.bytes.subrange(start, start + GENERATION_TAG_SIZE)[0] == after.bytes[start]);
    }
    assert(tag[0] != 0xff);
}

/// A second transfer from the same source changes nothing: each slot is overwritten with
/// what the first transfer had put there.
pub proof fn lemma_transfer_twice(file: FileView, source: TransferSourceView)
    ensures
        after_transfer(after_transfer(file, source), source) == after_transfer(file, source),
{
    let once = after_transfer(file, source);
    let twice = after_transfer(once, source);
    assert(twice.bytes =~= once.bytes);
}

} // verus!
