use vipdf::frame::{compose_frame, layout, pack_rgb, Layout};

#[test]
fn packs_rgb() {
    assert_eq!(pack_rgb(0x12, 0x34, 0x56), 0x0012_3456);
    assert_eq!(pack_rgb(255, 255, 255), 0x00FF_FFFF);
}

#[test]
fn layout_centres_a_fitting_page() {
    assert_eq!(
        layout(100, 50, 300, 150, 40),
        Layout { horizontal_padding: 100, vertical_padding: 50, visible_width: 100, visible_height: 50, scroll: 0 }
    );
}

#[test]
fn layout_clamps_the_scroll_of_a_tall_page() {
    assert_eq!(
        layout(400, 1000, 300, 800, 500),
        Layout { horizontal_padding: 0, vertical_padding: 0, visible_width: 300, visible_height: 800, scroll: 200 }
    );
    assert_eq!(layout(400, 1000, 300, 800, 150).scroll, 150);
}

#[test]
fn composes_a_centred_page() {
    // a 2x2 page: red, green / blue, white
    let rgba: Vec<u8> = vec![255, 0, 0, 255, 0, 255, 0, 255, 0, 0, 255, 255, 255, 255, 255, 255];
    let (frame, l) = compose_frame(&rgba, 2, 2, 4, 4, 0);
    assert_eq!(l.horizontal_padding, 1);
    assert_eq!(l.vertical_padding, 1);
    assert_eq!(
        frame,
        vec![
            0, 0, 0, 0,
            0, 0xFF0000, 0x00FF00, 0,
            0, 0x0000FF, 0xFFFFFF, 0,
            0, 0, 0, 0,
        ]
    );
}

#[test]
fn composes_a_scrolled_page() {
    // a 1x3 page of grey levels 10, 20, 30 in a 1x2 window, scrolled by one row
    let rgba: Vec<u8> = vec![10, 10, 10, 255, 20, 20, 20, 255, 30, 30, 30, 255];
    let (frame, l) = compose_frame(&rgba, 1, 3, 1, 2, 5);
    assert_eq!(l.scroll, 1);
    assert_eq!(frame, vec![0x141414, 0x1E1E1E]);
}

#[test]
fn composes_an_empty_window() {
    let (frame, _) = compose_frame(&[], 0, 0, 0, 3, 0);
    assert!(frame.is_empty());
}
