use vipdf::pdfium_renderer::{install_first_page, rgba_frame, PageOutcome, PdfiumRenderError};

#[test]
fn frame_from_rgba_bytes() {
    // a 1x2 page: red over blue, in a 3x2 window
    let rgba = vec![255, 0, 0, 255, 0, 0, 255, 255];
    let (frame, l, w, h, bytes) = rgba_frame(1, 2, Some(rgba.clone()), 3, 2, 0).unwrap();
    assert_eq!((w, h), (1, 2));
    assert_eq!(bytes, rgba);
    assert_eq!(l.horizontal_padding, 1);
    assert_eq!(frame, vec![0, 0xFF0000, 0, 0, 0x0000FF, 0]);
}

#[test]
fn no_frame_without_enough_bytes() {
    assert!(rgba_frame(1, 2, None, 3, 2, 0).is_none());
    assert!(rgba_frame(1, 2, Some(vec![0; 7]), 3, 2, 0).is_none());
    assert!(rgba_frame(-1, 2, Some(vec![0; 8]), 3, 2, 0).is_none());
}

#[test]
fn first_page_failures() {
    assert_eq!(
        install_first_page(Vec::new(), PageOutcome::Unavailable).err(),
        Some(PdfiumRenderError::PageUnavailable(0))
    );
    assert_eq!(
        install_first_page(Vec::new(), PageOutcome::RenderFailed).err(),
        Some(PdfiumRenderError::RenderFailed)
    );
}
