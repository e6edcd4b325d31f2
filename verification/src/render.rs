//! Rendering every page of a PDF at once.
use vstd::prelude::*;
use crate::hayro_renderer::{
    bytes_page_count, default_render_settings, document_pages, new_render_cache, open_pdf,
    pdf_load_error, render_all_pages,
    PdfError,
};
use hayro::hayro_interpret::InterpreterSettings;
use hayro::vello_cpu::Pixmap;
use hayro::PixmapSettings;

verus! {

/// Opens the PDF held in `file` and renders all of its pages, in order, at
/// the scale and background that `pixmap_settings` give; fails exactly when
/// hayro refuses the bytes; on success there is one pixmap for each page of
/// the document, each rendered from its page (see `render_all_pages`).
pub fn render_pdf(
    file: Vec<u8>,
    interpreter_settings: &InterpreterSettings,
    pixmap_settings: &PixmapSettings,
) -> (r: Result<Vec<Pixmap>, PdfError>)
    ensures
        match r {
            Ok(out) => pdf_load_error(file@) is None && out@.len() == bytes_page_count(file@),
            Err(e) => pdf_load_error(file@) == Some(e),
        },
{
    let pdf = match open_pdf(file) {
        Ok(pdf) => pdf,
        Err(e) => {
            return Err(e);
        },
    };
    let render_settings = default_render_settings();
    let cache = new_render_cache();
    let pages = document_pages(&pdf);
    let output = render_all_pages(pages, &cache, interpreter_settings, &render_settings, pixmap_settings);
    Ok(output)
}

} // verus!
