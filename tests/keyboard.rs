use kernel_core::interrupts::keyboard_handler;
use kernel_core::pic::{PortWrite, PIC1_CMD};
use kernel_core::ring::KeyBuffer;
use kernel_core::scancode::{decode, handle_scancode};

#[test]
fn ring_never_exceeds_capacity() {
    let mut b = KeyBuffer::new();
    for i in 0..300u32 {
        b.push((i % 256) as u8);
        assert!(b.len() <= 256);
    }
    assert_eq!(b.len(), 256);
}

#[test]
fn ring_pop_empty_is_none() {
    let mut b = KeyBuffer::new();
    assert_eq!(b.pop(), None);
    b.push(7);
    assert_eq!(b.pop(), Some(7));
    assert_eq!(b.pop(), None);
    assert_eq!(b.len(), 0);
}

#[test]
fn ring_keeps_oldest_on_overflow() {
    let mut b = KeyBuffer::new();
    let pushed: Vec<u8> = (0..257u32).map(|i| b'0' + (i % 10) as u8).collect();
    for &k in &pushed {
        b.push(k);
    }
    let mut drained = Vec::new();
    while let Some(k) = b.pop() {
        drained.push(k);
    }
    assert_eq!(drained.len(), 256);
    assert_eq!(&drained[..], &pushed[..256]);
}

#[test]
fn ring_wraps_around() {
    let mut b = KeyBuffer::new();
    for round in 0..3u32 {
        for i in 0..200u32 {
            b.push(((round * 200 + i) % 251) as u8);
        }
        for i in 0..200u32 {
            assert_eq!(b.pop(), Some(((round * 200 + i) % 251) as u8));
        }
    }
    assert_eq!(b.pop(), None);
}

#[test]
fn decode_digit_one() {
    assert_eq!(decode(0x02, false), (false, Some(b'1')));
    assert_eq!(decode(0x02, true), (true, Some(b'!')));
}

#[test]
fn decode_letters_and_space() {
    assert_eq!(decode(0x1E, false), (false, Some(b'a')));
    assert_eq!(decode(0x1E, true), (true, Some(b'A')));
    assert_eq!(decode(0x39, false), (false, Some(b' ')));
    assert_eq!(decode(0x1C, false), (false, Some(b'\n')));
    assert_eq!(decode(0x0E, false), (false, Some(8)));
}

#[test]
fn decode_release_yields_nothing() {
    assert_eq!(decode(0x82, false), (false, None));
    assert_eq!(decode(0x9E, true), (true, None));
}

#[test]
fn decode_unmapped_yields_nothing() {
    assert_eq!(decode(0x3B, false), (false, None));
    assert_eq!(decode(0x7F, true), (true, None));
}

#[test]
fn decode_shift_keys_toggle_state() {
    assert_eq!(decode(0x2A, false), (true, None));
    assert_eq!(decode(0xAA, true), (false, None));
    assert_eq!(decode(0x36, false), (true, None));
    assert_eq!(decode(0xB6, true), (false, None));
}

#[test]
fn handle_scancode_sequence() {
    let mut shift = false;
    let mut b = KeyBuffer::new();
    for sc in [0x2A, 0x02, 0xAA, 0x02, 0x82, 0x3B] {
        handle_scancode(&mut shift, &mut b, sc);
    }
    assert!(!shift);
    assert_eq!(b.pop(), Some(b'!'));
    assert_eq!(b.pop(), Some(b'1'));
    assert_eq!(b.pop(), None);
}

#[test]
fn keyboard_handler_acknowledges() {
    let mut shift = false;
    let mut b = KeyBuffer::new();
    let writes = keyboard_handler(&mut shift, &mut b, 0x10);
    assert_eq!(writes, vec![PortWrite { port: PIC1_CMD, value: 0x20 }]);
    assert_eq!(b.pop(), Some(b'q'));
}
