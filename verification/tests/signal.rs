use audio::signal::{
    interleave_reversed_halves, render_levels, SampleWindow, AREA, HEIGHT, HOP_LEN, WIDTH,
    WINDOW_LEN,
};

#[test]
fn interleave_odd_length() {
    let mut v = vec![1u8, 2, 3, 4, 5];
    let r = interleave_reversed_halves(&mut v);
    assert_eq!(v, vec![2, 1, 3, 4, 5]);
    assert_eq!(r, vec![2, 3, 1, 4]);
}

#[test]
fn interleave_even_length() {
    let mut v = vec![1u32, 2, 3, 4, 5, 6];
    let r = interleave_reversed_halves(&mut v);
    assert_eq!(v, vec![3, 2, 1, 4, 5, 6]);
    assert_eq!(r, vec![3, 4, 2, 5, 1, 6]);
}

#[test]
fn interleave_short_vectors() {
    let mut empty: Vec<u8> = Vec::new();
    assert!(interleave_reversed_halves(&mut empty).is_empty());
    assert!(empty.is_empty());

    let mut one = vec![9i32];
    assert!(interleave_reversed_halves(&mut one).is_empty());
    assert_eq!(one, vec![9]);

    let mut two = vec![7i32, 8];
    assert_eq!(interleave_reversed_halves(&mut two), vec![7, 8]);
    assert_eq!(two, vec![7, 8]);
}

#[test]
fn interleave_complex_bins() {
    // Spectrum bins as (re, im) pairs of floats.
    let mut bins = vec![(0.5f32, 0.0f32), (1.5, -1.0), (2.5, 2.0), (3.5, 0.25)];
    let r = interleave_reversed_halves(&mut bins);
    assert_eq!(bins, vec![(1.5, -1.0), (0.5, 0.0), (2.5, 2.0), (3.5, 0.25)]);
    assert_eq!(r, vec![(1.5, -1.0), (2.5, 2.0), (0.5, 0.0), (3.5, 0.25)]);
}

#[test]
fn interleave_result_reads_reordered_vector() {
    let mut v: Vec<u16> = (0..11).collect();
    let r = interleave_reversed_halves(&mut v);
    let mid = 11 / 2;
    assert_eq!(r.len(), 2 * mid);
    for k in 0..mid {
        assert_eq!(r[2 * k], v[k]);
        assert_eq!(r[2 * k + 1], v[mid + k]);
    }
}

#[test]
fn window_starts_silent() {
    let w = SampleWindow::new();
    assert_eq!(w.values().len(), WINDOW_LEN);
    assert!(w.values().iter().all(|s| *s == 0));
    assert!(w.block().is_empty());
    assert_eq!(w.total_variation(), 0);
}

#[test]
fn window_waits_until_more_than_a_hop() {
    let mut w = SampleWindow::new();
    assert!(!w.feed(&[1u8; 300]));
    assert_eq!(w.block().len(), 300);
    // Exactly a hop pending is not yet enough.
    assert!(!w.feed(&[2u8; 212]));
    assert_eq!(w.block().len(), HOP_LEN);
    assert!(w.values().iter().all(|s| *s == 0));
    assert!(w.feed(&[3u8]));
    assert!(w.block().is_empty());
    let vals = w.values();
    assert_eq!(vals.len(), WINDOW_LEN);
    assert!(vals[..WINDOW_LEN - HOP_LEN].iter().all(|s| *s == 0));
    assert!(vals[WINDOW_LEN - HOP_LEN..WINDOW_LEN - HOP_LEN + 300].iter().all(|s| *s == 1));
    assert!(vals[WINDOW_LEN - HOP_LEN + 300..].iter().all(|s| *s == 2));
}

#[test]
fn window_drops_the_rest_of_a_large_frame() {
    let mut w = SampleWindow::new();
    let frame: Vec<u8> = (0..2000u32).map(|i| (i % 251) as u8).collect();
    assert!(w.feed(&frame));
    assert!(w.block().is_empty());
    assert_eq!(&w.values()[WINDOW_LEN - HOP_LEN..], &frame[..HOP_LEN]);
    // The next small frame waits again.
    assert!(!w.feed(&[5u8; 10]));
    assert_eq!(w.block(), &[5u8; 10][..]);
}

#[test]
fn window_shifts_oldest_samples_out() {
    let mut w = SampleWindow::new();
    for round in 0..8u8 {
        assert!(w.feed(&[round + 1; HOP_LEN + 1]));
    }
    let vals = w.values();
    for round in 0..8usize {
        let chunk = &vals[round * HOP_LEN..(round + 1) * HOP_LEN];
        assert!(chunk.iter().all(|s| *s as usize == round + 1));
    }
    // One more move drops the oldest hop.
    assert!(w.feed(&[9u8; HOP_LEN + 1]));
    assert!(w.values()[..HOP_LEN].iter().all(|s| *s == 2));
    assert!(w.values()[WINDOW_LEN - HOP_LEN..].iter().all(|s| *s == 9));
}

#[test]
fn total_variation_of_a_step_and_a_saw() {
    let mut w = SampleWindow::new();
    // Last hop of the window becomes 100s: one step of 100.
    assert!(w.feed(&[100u8; HOP_LEN + 1]));
    assert_eq!(w.total_variation(), 100);

    let mut saw = SampleWindow::new();
    let frame: Vec<u8> = (0..=HOP_LEN).map(|i| if i % 2 == 0 { 255 } else { 0 }).collect();
    assert!(saw.feed(&frame));
    // 0 -> 255 at the joint, then 511 alternations of 255.
    assert_eq!(saw.total_variation(), 255 * 512);
}

#[test]
fn total_variation_largest() {
    let mut w = SampleWindow::new();
    let frame: Vec<u8> = (0..=HOP_LEN).map(|i| if i % 2 == 0 { 0 } else { 255 }).collect();
    for _ in 0..8 {
        assert!(w.feed(&frame));
    }
    assert_eq!(w.total_variation(), 255 * (WINDOW_LEN as u32 - 1));
}

#[test]
fn levels_picture() {
    let buf = render_levels(0x00AB_CDEF, 0x42);
    assert_eq!(buf.len(), AREA);
    assert_eq!(AREA, WIDTH * HEIGHT);
    for (i, px) in buf.iter().enumerate() {
        if i / WIDTH < HEIGHT / 2 {
            assert_eq!(*px, 0x00AB_CDEF);
        } else {
            assert_eq!(*px, 0x4200);
        }
    }
    assert_eq!(buf[127], 0x00AB_CDEF);
    assert_eq!(buf[128], 0x4200);
}

#[test]
fn levels_picture_extremes() {
    let buf = render_levels(u32::MAX, 255);
    assert_eq!(buf[0], u32::MAX);
    assert_eq!(buf[AREA - 1], 0xFF00);
    let dark = render_levels(0, 0);
    assert!(dark.iter().all(|p| *p == 0));
}
