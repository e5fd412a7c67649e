use kircast_audio::ring::{RingBuffer, SILENCE};

#[test]
fn new_buffer_is_empty() {
    let rb = RingBuffer::new(8);
    assert!(rb.is_empty());
    assert!(!rb.is_full());
    assert_eq!(rb.len(), 0);
}

#[test]
fn push_pop_fifo_order() {
    let mut rb = RingBuffer::new(8);
    rb.push(1);
    rb.push(2);
    rb.push(3);
    assert_eq!(rb.len(), 3);
    assert_eq!(rb.pop(), Some(1));
    assert_eq!(rb.pop(), Some(2));
    assert_eq!(rb.pop(), Some(3));
    assert_eq!(rb.pop(), None);
}

#[test]
fn capacity_minus_one_samples_fit() {
    let mut rb = RingBuffer::new(4);
    rb.push(10);
    rb.push(20);
    rb.push(30);
    assert!(rb.is_full());
    assert_eq!(rb.len(), 3);
    // a push onto a full buffer drops the sample
    rb.push(40);
    assert_eq!(rb.len(), 3);
    assert_eq!(rb.pop(), Some(10));
    assert_eq!(rb.pop(), Some(20));
    assert_eq!(rb.pop(), Some(30));
    assert_eq!(rb.pop(), None);
}

#[test]
fn push_slice_drops_exactly_the_excess() {
    let mut rb = RingBuffer::new(8);
    let accepted = rb.push_slice(&[1, 2, 3, 4, 5]);
    assert_eq!(accepted, 5);
    // 7 usable slots, 5 held: only 2 of the next 5 fit
    let accepted = rb.push_slice(&[6, 7, 8, 9, 10]);
    assert_eq!(accepted, 2);
    assert_eq!(rb.len(), 7);
    assert!(rb.is_full());
    let mut out = vec![0i16; 7];
    let filled = rb.pop_slice(&mut out);
    assert_eq!(filled, 7);
    assert_eq!(out, vec![1, 2, 3, 4, 5, 6, 7]);
}

#[test]
fn push_slice_onto_full_buffer_accepts_nothing() {
    let mut rb = RingBuffer::new(4);
    assert_eq!(rb.push_slice(&[1, 2, 3]), 3);
    assert_eq!(rb.push_slice(&[4, 5]), 0);
    assert_eq!(rb.len(), 3);
}

#[test]
fn pop_slice_reports_genuinely_filled_count() {
    let mut rb = RingBuffer::new(16);
    rb.push_slice(&[5, 6, 7]);
    let mut out = vec![9i16; 5];
    let filled = rb.pop_slice(&mut out);
    assert_eq!(filled, 3);
    // the remainder of the output is untouched by pop_slice
    assert_eq!(out, vec![5, 6, 7, 9, 9]);
    assert!(rb.is_empty());
}

#[test]
fn pop_silence_padded_fills_shortfall_with_silence() {
    let mut rb = RingBuffer::new(16);
    rb.push_slice(&[5, 6, 7]);
    let mut out = vec![9i16; 5];
    let filled = rb.pop_silence_padded(&mut out);
    assert_eq!(filled, 3);
    assert_eq!(out, vec![5, 6, 7, SILENCE, SILENCE]);
    assert!(rb.is_empty());
    // popping from an empty buffer yields pure silence
    let filled = rb.pop_silence_padded(&mut out);
    assert_eq!(filled, 0);
    assert_eq!(out, vec![SILENCE; 5]);
}

#[test]
fn occupancy_tracks_pushed_minus_popped_across_wraparound() {
    let mut rb = RingBuffer::new(8);
    let mut pushed = 0usize;
    let mut popped = 0usize;
    let mut next: i16 = 0;
    for round in 0..50 {
        let chunk: Vec<i16> = (0..(round % 5) as i16).map(|k| next + k).collect();
        next = next.wrapping_add(chunk.len() as i16);
        pushed += rb.push_slice(&chunk);
        let mut out = vec![0i16; (round % 3) as usize];
        popped += rb.pop_slice(&mut out);
        assert!(popped <= pushed);
        assert_eq!(rb.len(), pushed - popped);
        assert!(rb.len() <= 7);
    }
}
