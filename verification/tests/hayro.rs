use hayro::hayro_interpret::InterpreterSettings;
use hayro::vello_cpu::color::palette::css::WHITE;
use hayro::PixmapSettings;
use hayro::hayro_syntax::Pdf;
use hayro::{RenderCache, RenderSettings};
use vipdf::hayro_renderer::{page_frame, page_size, render_all_pages, render_into_pages, HayroRenderer, PdfError, RenderError};
use vipdf::render::render_pdf;

/// A PDF of `sizes.len()` empty pages, the i-th `sizes[i]` points large.
fn pdf_with_pages(sizes: &[(u32, u32)]) -> Vec<u8> {
    let n = sizes.len();
    let mut objects: Vec<String> = Vec::new();
    objects.push("<< /Type /Catalog /Pages 2 0 R >>".to_string());
    let kids: Vec<String> = (0..n).map(|i| format!("{} 0 R", i + 3)).collect();
    objects.push(format!("<< /Type /Pages /Kids [{}] /Count {} >>", kids.join(" "), n));
    for (w, h) in sizes {
        objects.push(format!("<< /Type /Page /Parent 2 0 R /MediaBox [0 0 {w} {h}] >>"));
    }
    let mut out = String::from("%PDF-1.4\n");
    let mut offsets = Vec::new();
    for (i, o) in objects.iter().enumerate() {
        offsets.push(out.len());
        out.push_str(&format!("{} 0 obj\n{}\nendobj\n", i + 1, o));
    }
    let xref = out.len();
    out.push_str(&format!("xref\n0 {}\n0000000000 65535 f \n", objects.len() + 1));
    for off in offsets {
        out.push_str(&format!("{:010} 00000 n \n", off));
    }
    out.push_str(&format!("trailer\n<< /Size {} /Root 1 0 R >>\nstartxref\n{}\n%%EOF\n", objects.len() + 1, xref));
    out.into_bytes()
}

fn unit_scale() -> PixmapSettings {
    PixmapSettings { x_scale: 1.0, y_scale: 1.0, bg_color: WHITE }
}

#[test]
fn refuses_bytes_that_are_no_pdf() {
    let r = HayroRenderer::new(b"hello".to_vec(), InterpreterSettings::default());
    assert_eq!(r.err(), Some(PdfError::Invalid));
}

#[test]
fn renders_first_page_and_placeholders() {
    let mut r = HayroRenderer::new(pdf_with_pages(&[(20, 10), (30, 40), (5, 5)]), InterpreterSettings::default())
        .ok()
        .unwrap();
    let pages = r.render_pdf(None, &unit_scale()).ok().unwrap();
    assert_eq!(pages.len(), 3);
    assert_eq!(page_size(&pages[0]), (20, 10));
    assert_eq!(page_size(&pages[1]), (0, 0));
    assert_eq!(page_size(&pages[2]), (0, 0));
    let pages = r.render_pdf(Some((pages, 1)), &unit_scale()).ok().unwrap();
    assert_eq!(page_size(&pages[0]), (20, 10));
    assert_eq!(page_size(&pages[1]), (30, 40));
    assert_eq!(page_size(&pages[2]), (0, 0));
}

#[test]
fn frame_of_a_white_page() {
    let mut r = HayroRenderer::new(pdf_with_pages(&[(4, 2)]), InterpreterSettings::default()).ok().unwrap();
    let pages = r.render_pdf(None, &unit_scale()).ok().unwrap();
    let (frame, l) = page_frame(&pages[0], 6, 4, 0);
    assert_eq!(l.horizontal_padding, 1);
    assert_eq!(l.vertical_padding, 1);
    assert_eq!(frame.len(), 24);
    assert_eq!(frame[0], 0);
    assert_eq!(frame[6 + 1], 0xFFFFFF);
    assert_eq!(frame[2 * 6 + 4], 0xFFFFFF);
    assert_eq!(frame[2 * 6 + 5], 0);
}

#[test]
fn renders_every_page() {
    let pages = render_pdf(pdf_with_pages(&[(20, 10), (30, 40)]), &InterpreterSettings::default(), &unit_scale())
        .ok()
        .unwrap();
    assert_eq!(pages.len(), 2);
    assert_eq!(page_size(&pages[1]), (30, 40));
    assert!(render_pdf(b"%PDF-".to_vec(), &InterpreterSettings::default(), &unit_scale()).is_err());
}

#[test]
fn renders_into_a_page_list() {
    let pdf = Pdf::new(pdf_with_pages(&[(20, 10), (30, 40)])).ok().unwrap();
    let document = &pdf.pages()[..];
    let cache = RenderCache::new();
    let interpreter = InterpreterSettings::default();
    let settings = RenderSettings::default();
    let pages = render_into_pages(document, &cache, &interpreter, &settings, &unit_scale(), None)
        .ok()
        .unwrap();
    assert_eq!(pages.len(), 2);
    assert_eq!(page_size(&pages[0]), (20, 10));
    assert_eq!(page_size(&pages[1]), (0, 0));
    let pages = render_into_pages(document, &cache, &interpreter, &settings, &unit_scale(), Some((pages, 1)))
        .ok()
        .unwrap();
    assert_eq!(page_size(&pages[1]), (30, 40));
    let three = vec![pages.into_iter().next().unwrap(), hayro::vello_cpu::Pixmap::new(0, 0), hayro::vello_cpu::Pixmap::new(0, 0)];
    assert_eq!(
        render_into_pages(document, &cache, &interpreter, &settings, &unit_scale(), Some((three, 2))).err(),
        Some(RenderError::NoSuchPage)
    );
    assert_eq!(
        render_into_pages(&[], &cache, &interpreter, &settings, &unit_scale(), None).err(),
        Some(RenderError::NoSuchPage)
    );
}

#[test]
fn renders_all_pages_in_order() {
    let pdf = Pdf::new(pdf_with_pages(&[(20, 10), (30, 40), (5, 6)])).ok().unwrap();
    let cache = RenderCache::new();
    let pages = render_all_pages(
        &pdf.pages()[..],
        &cache,
        &InterpreterSettings::default(),
        &RenderSettings::default(),
        &unit_scale(),
    );
    let sizes: Vec<(u32, u32)> = pages.iter().map(page_size).collect();
    assert_eq!(sizes, vec![(20, 10), (30, 40), (5, 6)]);
}
