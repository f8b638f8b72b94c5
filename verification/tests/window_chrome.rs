use herdr_night_watch::window_chrome::{
    layered_window_alpha, layered_window_alpha_from_transparency, opacity_change,
};

#[test]
fn full_opacity_does_not_use_layered_style() {
    assert_eq!(layered_window_alpha(100), None);
    assert_eq!(layered_window_alpha(101), None);
}

#[test]
fn reduced_opacity_uses_layered_alpha() {
    assert_eq!(layered_window_alpha(90), Some(230));
    assert_eq!(layered_window_alpha(50), Some(128));
    assert_eq!(layered_window_alpha(10), Some(26));
}

#[test]
fn transparency_alpha_mapping() {
    assert_eq!(layered_window_alpha_from_transparency(0), None);
    assert_eq!(layered_window_alpha_from_transparency(10), Some(230));
    assert_eq!(layered_window_alpha_from_transparency(50), Some(128));
    assert_eq!(layered_window_alpha_from_transparency(90), Some(26));
}

#[test]
fn layered_bit_is_set_below_full_opacity_and_cleared_at_full() {
    let change = opacity_change(0x100, 50);
    assert_eq!(change.new_style, Some(0x80100));
    assert_eq!(change.alpha, Some(128));
    assert_eq!(opacity_change(0x80100, 50).new_style, None);
    assert_eq!(opacity_change(0x80100, 100).new_style, Some(0x100));
    assert_eq!(opacity_change(0x100, 100).new_style, None);
    assert_eq!(opacity_change(0x100, 100).alpha, None);
}
