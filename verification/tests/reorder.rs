use icon_rgba::reorder::bgra_to_rgba;

#[test]
fn one_window_per_pixel_correctness() {
    // One 16-byte window: [B,G,R,A] x 4 becomes [R,G,B,A] x 4.
    let mut buf = vec![
        10u8, 11, 12, 13, 20, 21, 22, 23, 30, 31, 32, 33, 40, 41, 42, 43,
    ];
    bgra_to_rgba(&mut buf);
    assert_eq!(
        buf,
        vec![12u8, 11, 10, 13, 22, 21, 20, 23, 32, 31, 30, 33, 42, 41, 40, 43]
    );
}

#[test]
fn double_application_restores_original() {
    // Two full windows (32 bytes, a multiple of 16).
    let original: Vec<u8> = (0u8..32).collect();
    let mut buf = original.clone();
    bgra_to_rgba(&mut buf);
    assert_ne!(buf, original);
    bgra_to_rgba(&mut buf);
    assert_eq!(buf, original);
}

#[test]
fn double_application_restores_partial_window_too() {
    // 20 bytes: one full window plus one trailing pixel.
    let original: Vec<u8> = (100u8..120).collect();
    let mut buf = original.clone();
    bgra_to_rgba(&mut buf);
    bgra_to_rgba(&mut buf);
    assert_eq!(buf, original);
}

#[test]
fn length_is_preserved() {
    for len in [0usize, 1, 3, 4, 7, 15, 16, 17, 20, 31, 32, 100] {
        let mut buf = vec![7u8; len];
        bgra_to_rgba(&mut buf);
        assert_eq!(buf.len(), len);
    }
}

#[test]
fn empty_buffer_is_unchanged() {
    let mut buf: Vec<u8> = Vec::new();
    bgra_to_rgba(&mut buf);
    assert!(buf.is_empty());
}

#[test]
fn trailing_pixels_of_partial_window_are_reordered() {
    // 20 bytes: the fifth pixel sits in a partial window and is still swapped.
    let mut buf = vec![
        1u8, 2, 3, 4, 5, 6, 7, 8, 9, 10, 11, 12, 13, 14, 15, 16, 17, 18, 19, 20,
    ];
    bgra_to_rgba(&mut buf);
    assert_eq!(
        buf,
        vec![3u8, 2, 1, 4, 7, 6, 5, 8, 11, 10, 9, 12, 15, 14, 13, 16, 19, 18, 17, 20]
    );
}

#[test]
fn bytes_after_last_complete_pixel_are_untouched() {
    // 6 bytes: one complete pixel, then two stray bytes.
    let mut buf = vec![1u8, 2, 3, 4, 5, 6];
    bgra_to_rgba(&mut buf);
    assert_eq!(buf, vec![3u8, 2, 1, 4, 5, 6]);

    // 3 bytes: no complete pixel at all.
    let mut short = vec![9u8, 8, 7];
    bgra_to_rgba(&mut short);
    assert_eq!(short, vec![9u8, 8, 7]);
}

#[test]
fn opaque_red_bgra_becomes_rgba() {
    let mut buf = vec![0u8, 0, 255, 255].repeat(4);
    bgra_to_rgba(&mut buf);
    assert_eq!(buf, vec![255u8, 0, 0, 255].repeat(4));
}
