use ciede2000::{Rgb565, Rgb888, CIEDE2000};

#[test]
fn pure_red_widens_to_248() {
    let out = CIEDE2000::rgb565_to_rgb888(Rgb565::new(31, 0, 0));
    assert_eq!(out, Rgb888::new(248, 0, 0));
}

#[test]
fn pure_blue_widens_to_248() {
    let out = CIEDE2000::rgb565_to_rgb888(Rgb565::new(0, 0, 31));
    assert_eq!((out.r(), out.g(), out.b()), (0, 0, 248));
}

#[test]
fn white_widens_without_bit_replication() {
    let out = CIEDE2000::rgb565_to_rgb888(Rgb565::new(31, 63, 31));
    assert_eq!((out.r(), out.g(), out.b()), (248, 252, 248));
}

#[test]
fn black_stays_black() {
    let out = CIEDE2000::rgb565_to_rgb888(Rgb565::new(0, 0, 0));
    assert_eq!((out.r(), out.g(), out.b()), (0, 0, 0));
}

#[test]
fn mixed_channels_shift_by_their_widths() {
    let out = CIEDE2000::rgb565_to_rgb888(Rgb565::new(1, 1, 1));
    assert_eq!((out.r(), out.g(), out.b()), (8, 4, 8));
    let out = CIEDE2000::rgb565_to_rgb888(Rgb565::new(16, 33, 5));
    assert_eq!((out.r(), out.g(), out.b()), (128, 132, 40));
}

#[test]
fn same_color_widens_identically() {
    let c = Rgb565::new(31, 0, 0);
    assert_eq!(CIEDE2000::rgb565_to_rgb888(c), CIEDE2000::rgb565_to_rgb888(c));
}

#[test]
fn distinct_colors_stay_distinct() {
    let red = CIEDE2000::rgb565_to_rgb888(Rgb565::new(31, 0, 0));
    let blue = CIEDE2000::rgb565_to_rgb888(Rgb565::new(0, 0, 31));
    assert_ne!(red, blue);
}

#[test]
fn packed_getters_return_channels() {
    let c = Rgb565::new(3, 60, 17);
    assert_eq!((c.r(), c.g(), c.b()), (3, 60, 17));
}

#[test]
fn byte_getters_return_channels() {
    let c = Rgb888::new(255, 128, 7);
    assert_eq!((c.r(), c.g(), c.b()), (255, 128, 7));
}

#[test]
fn metric_handle_is_stateless() {
    assert_eq!(CIEDE2000::new(), CIEDE2000::new());
}
