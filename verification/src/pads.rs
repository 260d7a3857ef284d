//! The pads and the notes they stand for.

use vstd::prelude::*;

verus! {

/// Number of pads.
pub const PAD_COUNT: usize = 16;

/// Note of each pad, counted from the note base. The pads are numbered in
/// rows from the top left, the notes rise in rows from the bottom left.
pub const PAD_NOTE_MAP: [u8; 16] = [12, 13, 14, 15, 8, 9, 10, 11, 4, 5, 6, 7, 0, 1, 2, 3];

/// The note of pad `pad`, counted from the note base: the same column, the
/// row counted from the other end.
pub open spec fn pad_note_offset(pad: int) -> int {
    (3 - pad / 4) * 4 + pad % 4
}

/// Looks up the note of a pad, counted from the note base; `None` where
/// there is no such pad.
pub fn pad_note(pad_idx: usize) -> (note: Option<u8>)
    ensures
        match note {
            Some(offset) => pad_idx < PAD_COUNT && offset == pad_note_offset(pad_idx as int),
            None => pad_idx >= PAD_COUNT,
        },
{
    if pad_idx < PAD_COUNT {
        Some(PAD_NOTE_MAP[pad_idx])
    } else {
        None
    }
}

/// Every pad has a note of its own among the sixteen, and the pad that
/// stands at a note's place has that pad's place for its note.
pub proof fn pad_notes_mirror_the_rows(pad: int)
    requires
        0 <= pad < PAD_COUNT,
    ensures
        0 <= pad_note_offset(pad) < PAD_COUNT,
        pad_note_offset(pad_note_offset(pad)) == pad,
{
}

} // verus!
