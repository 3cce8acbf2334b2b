use pixel_sampler::frame::{pixel_at, SampleError};

// A frame of `w` by `h` pixels, four bytes per pixel, where byte `i`
// holds `i` modulo 251 — every nearby byte differs, so a read from the
// wrong offset is caught.
fn patterned_frame(w: usize, h: usize) -> Vec<u8> {
    let mut buf = Vec::new();
    for i in 0..w * h * 4 {
        buf.push((i % 251) as u8);
    }
    buf
}

fn expected_at(buf: &[u8], stride: usize, x: usize, y: usize) -> (u8, u8, u8) {
    let off = stride * y + 4 * x;
    (buf[off + 2], buf[off + 1], buf[off])
}

#[test]
fn reads_origin_pixel() {
    let (w, h) = (7, 5);
    let buf = patterned_frame(w, h);
    let px = pixel_at(&buf, h, 0, 0).unwrap();
    let (r, g, b) = expected_at(&buf, 4 * w, 0, 0);
    assert_eq!((px.r, px.g, px.b), (r, g, b));
}

#[test]
fn reads_last_pixel_of_first_row() {
    let (w, h) = (7, 5);
    let buf = patterned_frame(w, h);
    let px = pixel_at(&buf, h, (w - 1) as i32, 0).unwrap();
    let (r, g, b) = expected_at(&buf, 4 * w, w - 1, 0);
    assert_eq!((px.r, px.g, px.b), (r, g, b));
}

#[test]
fn reads_first_pixel_of_last_row() {
    let (w, h) = (7, 5);
    let buf = patterned_frame(w, h);
    let px = pixel_at(&buf, h, 0, (h - 1) as i32).unwrap();
    let (r, g, b) = expected_at(&buf, 4 * w, 0, h - 1);
    assert_eq!((px.r, px.g, px.b), (r, g, b));
}

#[test]
fn channel_order_is_blue_green_red() {
    // One pixel: blue 10, green 20, red 30, unused 0.
    let buf = vec![10u8, 20, 30, 0];
    let px = pixel_at(&buf, 1, 0, 0).unwrap();
    assert_eq!((px.r, px.g, px.b), (30, 20, 10));
}

#[test]
fn negative_coordinates_are_out_of_range() {
    let buf = patterned_frame(4, 4);
    assert_eq!(pixel_at(&buf, 4, -1, 0), Err(SampleError::OutOfRange));
    assert_eq!(pixel_at(&buf, 4, 0, -1), Err(SampleError::OutOfRange));
}

#[test]
fn coordinates_past_the_buffer_are_out_of_range() {
    let (w, h) = (4, 4);
    let buf = patterned_frame(w, h);
    assert_eq!(pixel_at(&buf, h, 0, h as i32), Err(SampleError::OutOfRange));
    // x far past the row end walks off the whole buffer
    assert_eq!(
        pixel_at(&buf, h, (w * h) as i32, 0),
        Err(SampleError::OutOfRange)
    );
}

#[test]
fn empty_buffer_has_no_pixels() {
    let buf = Vec::new();
    assert_eq!(pixel_at(&buf, 1, 0, 0), Err(SampleError::OutOfRange));
}
