use at2xt::CriticalSectionToken;
use at2xt::KeyIn;
use at2xt::KeyOut;
use at2xt::KeycodeBuffer;

#[test]
fn buffer_starts_empty() {
    let tok = CriticalSectionToken::new();
    let mut b = KeycodeBuffer::new();
    assert!(b.is_empty(&tok));
    assert_eq!(b.take(&tok), None);
}

#[test]
fn buffer_put_then_take_returns_value() {
    let tok = CriticalSectionToken::new();
    let mut b = KeycodeBuffer::new();
    b.put(0xABCD, &tok);
    assert!(!b.is_empty(&tok));
    assert_eq!(b.take(&tok), Some(0xABCD));
    assert_eq!(b.take(&tok), None);
}

#[test]
fn buffer_keeps_fifo_order() {
    let tok = CriticalSectionToken::new();
    let mut b = KeycodeBuffer::new();
    b.put(1, &tok);
    b.put(2, &tok);
    b.put(3, &tok);
    assert_eq!(b.take(&tok), Some(1));
    assert_eq!(b.take(&tok), Some(2));
    assert_eq!(b.take(&tok), Some(3));
    assert_eq!(b.take(&tok), None);
}

#[test]
fn buffer_drops_seventeenth_frame() {
    let tok = CriticalSectionToken::new();
    let mut b = KeycodeBuffer::new();
    for i in 0..17u16 {
        b.put(0x100 + i, &tok);
    }
    for i in 0..16u16 {
        assert_eq!(b.take(&tok), Some(0x100 + i));
    }
    assert_eq!(b.take(&tok), None);
}

#[test]
fn buffer_wraps_without_divergence() {
    let tok = CriticalSectionToken::new();
    let mut b = KeycodeBuffer::new();
    for i in 0..40u16 {
        b.put(i, &tok);
        assert!(b.head < 16);
        assert!(b.tail < 16);
        assert_eq!(b.take(&tok), Some(i));
        assert!(b.is_empty(&tok));
    }
}

#[test]
fn buffer_flush_discards_pending() {
    let tok = CriticalSectionToken::new();
    let mut b = KeycodeBuffer::new();
    b.put(7, &tok);
    b.put(8, &tok);
    b.flush(&tok);
    assert!(b.is_empty(&tok));
    assert_eq!(b.take(&tok), None);
    assert_eq!(b.head, 0);
    assert_eq!(b.tail, 0);
}

#[test]
fn keyin_fills_after_eleven_bits() {
    let tok = CriticalSectionToken::new();
    let mut k = KeyIn::new();
    assert!(!k.is_full());
    assert_eq!(k.take(&tok), None);
    for i in 0..11 {
        assert!(!k.is_full());
        assert!(k.shift_in(i % 2 == 0, &tok).is_ok());
    }
    assert!(k.is_full());
}

#[test]
fn keyin_rejects_twelfth_bit() {
    let tok = CriticalSectionToken::new();
    let mut k = KeyIn::new();
    for _ in 0..11 {
        assert!(k.shift_in(true, &tok).is_ok());
    }
    assert!(k.shift_in(true, &tok).is_err());
    assert_eq!(k.pos, 11);
}

#[test]
fn keyin_stores_first_bit_leftmost() {
    let tok = CriticalSectionToken::new();
    let mut k = KeyIn::new();
    // One followed by ten zeroes: the one ends up at the top of the frame.
    assert!(k.shift_in(true, &tok).is_ok());
    for _ in 0..10 {
        assert!(k.shift_in(false, &tok).is_ok());
    }
    assert_eq!(k.take(&tok), Some(0b100_0000_0000));
    assert_eq!(k.pos, 0);
}

#[test]
fn keyin_clear_resets() {
    let tok = CriticalSectionToken::new();
    let mut k = KeyIn::new();
    assert!(k.shift_in(true, &tok).is_ok());
    k.clear(&tok);
    assert_eq!(k.pos, 0);
    assert_eq!(k.contents, 0);
}

#[test]
fn keyout_starts_empty() {
    let k = KeyOut::new();
    assert!(k.is_empty());
}

#[test]
fn keyout_put_loads_parity_and_stop() {
    let tok = CriticalSectionToken::new();
    let mut k = KeyOut::new();
    assert!(k.put(0x00, &tok).is_ok());
    assert_eq!(k.contents, 0x0300);
    k.clear(&tok);
    assert!(k.put(0x01, &tok).is_ok());
    assert_eq!(k.contents, 0x0201);
    k.clear(&tok);
    // 0xFF holds eight ones, an even count, so odd parity sets the bit.
    assert!(k.put(0xFF, &tok).is_ok());
    assert_eq!(k.contents, 0x03FF);
}

#[test]
fn keyout_rejects_put_while_draining() {
    let tok = CriticalSectionToken::new();
    let mut k = KeyOut::new();
    assert!(k.put(0x12, &tok).is_ok());
    assert!(k.put(0x34, &tok).is_err());
    assert_eq!(k.contents, 0x0312);
}

#[test]
fn keyout_shifts_frame_out_in_order() {
    let tok = CriticalSectionToken::new();
    let mut k = KeyOut::new();
    // 0x5A holds four ones, so the odd-parity bit is set.
    assert!(k.put(0x5A, &tok).is_ok());
    let mut bits = Vec::new();
    for _ in 0..10 {
        assert!(!k.is_empty());
        bits.push(k.shift_out(&tok));
    }
    let expected = vec![
        false, true, false, true, true, false, true, false, // D0 to D7 of 0x5A
        true,  // odd parity
        true,  // stop
    ];
    assert_eq!(bits, expected);
    assert!(k.is_empty());
    assert_eq!(k.contents, 0);
}

#[test]
fn keyout_frames_always_carry_stop_and_odd_parity() {
    let tok = CriticalSectionToken::new();
    for b in 0..=255u8 {
        let mut k = KeyOut::new();
        assert!(k.put(b, &tok).is_ok());
        assert_eq!(k.contents & 0x200, 0x200);
        assert_eq!((k.contents & 0x1FF).count_ones() % 2, 1);
        assert_eq!((k.contents & 0xFF) as u8, b);
    }
}

#[test]
fn keyout_clear_empties() {
    let tok = CriticalSectionToken::new();
    let mut k = KeyOut::new();
    assert!(k.put(0x77, &tok).is_ok());
    k.clear(&tok);
    assert!(k.is_empty());
    assert_eq!(k.contents, 0);
}
