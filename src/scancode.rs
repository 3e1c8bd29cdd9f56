use vstd::prelude::*;
use crate::ring::{pushed, KeyBuffer};

verus! {

/// Position code of the left shift key.
pub const LEFT_SHIFT: u8 = 0x2A;

/// Position code of the right shift key.
pub const RIGHT_SHIFT: u8 = 0x36;

/// Scancode set 1 position code to ASCII with no shift held; 0 is unmapped.
pub open spec fn unshifted_table() -> Seq<u8> {
    seq![
        0, 27, 0x31, 0x32, 0x33, 0x34, 0x35, 0x36,
        0x37, 0x38, 0x39, 0x30, 0x2D, 0x3D, 8, 0x09,
        0x71, 0x77, 0x65, 0x72, 0x74, 0x79, 0x75, 0x69,
        0x6F, 0x70, 0x5B, 0x5D, 0x0A, 0, 0x61, 0x73,
        0x64, 0x66, 0x67, 0x68, 0x6A, 0x6B, 0x6C, 0x3B,
        0x27, 0x60, 0, 0x5C, 0x7A, 0x78, 0x63, 0x76,
        0x62, 0x6E, 0x6D, 0x2C, 0x2E, 0x2F, 0, 0x2A,
        0, 0x20, 0, 0, 0, 0, 0, 0,
    ]
}

/// Scancode set 1 position code to ASCII with shift held; 0 is unmapped.
pub open spec fn shifted_table() -> Seq<u8> {
    seq![
        0, 27, 0x21, 0x40, 0x23, 0x24, 0x25, 0x5E,
        0x26, 0x2A, 0x28, 0x29, 0x5F, 0x2B, 8, 0x09,
        0x51, 0x57, 0x45, 0x52, 0x54, 0x59, 0x55, 0x49,
        0x4F, 0x50, 0x7B, 0x7D, 0x0A, 0, 0x41, 0x53,
        0x44, 0x46, 0x47, 0x48, 0x4A, 0x4B, 0x4C, 0x3A,
        0x22, 0x7E, 0, 0x7C, 0x5A, 0x58, 0x43, 0x56,
        0x42, 0x4E, 0x4D, 0x3C, 0x3E, 0x3F, 0, 0x2A,
        0, 0x20, 0, 0, 0, 0, 0, 0,
    ]
}

/// The ASCII byte for position code `key` (below 128) under the given shift
/// state; 0 where the position is unmapped.
pub open spec fn key_ascii(key: u8, shift: bool) -> u8 {
    let table = if shift { shifted_table() } else { unshifted_table() };
    if (key as int) < table.len() { table[key as int] } else { 0 }
}

/// Whether `scancode` reports a key being released (high bit set).
pub open spec fn is_release(scancode: u8) -> bool {
    scancode >= 0x80
}

/// The position code carried in the low seven bits.
pub open spec fn position(scancode: u8) -> u8 {
    (scancode % 0x80) as u8
}

pub open spec fn is_shift_key(key: u8) -> bool {
    key == LEFT_SHIFT || key == RIGHT_SHIFT
}

/// Shift state after `scancode`: set by a shift press, cleared by a shift
/// release, otherwise kept.
pub open spec fn shift_after(scancode: u8, shift: bool) -> bool {
    if is_shift_key(position(scancode)) {
        !is_release(scancode)
    } else {
        shift
    }
}

/// The character `scancode` produces: none for shift keys, releases and
/// unmapped positions.
pub open spec fn char_of(scancode: u8, shift: bool) -> Option<u8> {
    let key = position(scancode);
    if is_shift_key(key) || is_release(scancode) || key_ascii(key, shift) == 0 {
        None
    } else {
        Some(key_ascii(key, shift))
    }
}

fn lookup(key: u8, shift: bool) -> (r: u8)
    requires
        key < 0x80,
    ensures
        r == key_ascii(key, shift),
{
    let unshifted: [u8; 64] = [
        0, 27, 0x31, 0x32, 0x33, 0x34, 0x35, 0x36,
        0x37, 0x38, 0x39, 0x30, 0x2D, 0x3D, 8, 0x09,
        0x71, 0x77, 0x65, 0x72, 0x74, 0x79, 0x75, 0x69,
        0x6F, 0x70, 0x5B, 0x5D, 0x0A, 0, 0x61, 0x73,
        0x64, 0x66, 0x67, 0x68, 0x6A, 0x6B, 0x6C, 0x3B,
        0x27, 0x60, 0, 0x5C, 0x7A, 0x78, 0x63, 0x76,
        0x62, 0x6E, 0x6D, 0x2C, 0x2E, 0x2F, 0, 0x2A,
        0, 0x20, 0, 0, 0, 0, 0, 0,
    ];
    let shifted: [u8; 64] = [
        0, 27, 0x21, 0x40, 0x23, 0x24, 0x25, 0x5E,
        0x26, 0x2A, 0x28, 0x29, 0x5F, 0x2B, 8, 0x09,
        0x51, 0x57, 0x45, 0x52, 0x54, 0x59, 0x55, 0x49,
        0x4F, 0x50, 0x7B, 0x7D, 0x0A, 0, 0x41, 0x53,
        0x44, 0x46, 0x47, 0x48, 0x4A, 0x4B, 0x4C, 0x3A,
        0x22, 0x7E, 0, 0x7C, 0x5A, 0x58, 0x43, 0x56,
        0x42, 0x4E, 0x4D, 0x3C, 0x3E, 0x3F, 0, 0x2A,
        0, 0x20, 0, 0, 0, 0, 0, 0,
    ];
    assert(unshifted@ =~= unshifted_table());
    assert(shifted@ =~= shifted_table());
    if key >= 64 {
        0
    } else if shift {
        shifted[key as usize]
    } else {
        unshifted[key as usize]
    }
}

/// Decodes one raw scancode under the current shift state, returning the new
/// shift state and the character produced, if any.
pub fn decode(scancode: u8, shift: bool) -> (r: (bool, Option<u8>))
    ensures
        r.0 == shift_after(scancode, shift),
        r.1 == char_of(scancode, shift),
{
    let release = scancode & 0x80 != 0;
    let key = scancode & 0x7F;
    assert(((scancode & 0x80) != 0) == (scancode >= 0x80)) by (bit_vector);
    assert(scancode & 0x7F == scancode % 0x80) by (bit_vector);
    if key == LEFT_SHIFT || key == RIGHT_SHIFT {
        return (!release, None);
    }
    if release {
        return (shift, None);
    }
    let ascii = lookup(key, shift);
    if ascii != 0 {
        (shift, Some(ascii))
    } else {
        (shift, None)
    }
}

/// Handles one scancode from the keyboard: updates the shift state and pushes
/// the decoded character, if any, into the key buffer.
pub fn handle_scancode(shift_held: &mut bool, buffer: &mut KeyBuffer, scancode: u8)
    requires
        old(buffer).wf(),
    ensures
        final(buffer).wf(),
        *final(shift_held) == shift_after(scancode, *old(shift_held)),
        match char_of(scancode, *old(shift_held)) {
            Some(c) => final(buffer)@ == pushed(old(buffer)@, c),
            None => final(buffer)@ == old(buffer)@,
        },
{
    let (shift, ch) = decode(scancode, *shift_held);
    *shift_held = shift;
    if let Some(c) = ch {
        buffer.push(c);
    }
}

/// A release never produces a character; a shift key never produces one
/// either and sets the shift state on press and clears it on release; any
/// other key leaves the shift state alone.
pub proof fn lemma_release_and_shift(scancode: u8, shift: bool)
    ensures
        is_release(scancode) ==> char_of(scancode, shift) is None,
        is_shift_key(position(scancode)) ==> char_of(scancode, shift) is None && shift_after(
            scancode,
            shift,
        ) == !is_release(scancode),
        !is_shift_key(position(scancode)) ==> shift_after(scancode, shift) == shift,
{
}

} // verus!
