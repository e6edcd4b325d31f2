//! Rendering PDF pages with PDFium (a native library, loaded at run time):
//! rendering pages on demand into a list that holds placeholders for the pages
//! not rendered yet, and reading the pixels of a rendered page.
use vstd::prelude::*;
use crate::frame::{compose_frame, frame_pixel, layout_spec, Layout};
use pdfium::{PdfiumBitmap, PdfiumBitmapFormat, PdfiumDocument, PdfiumPage, PdfiumRenderConfig};

verus! {

#[verifier::external_type_specification]
#[verifier::external_body]
pub struct ExPdfiumDocument(PdfiumDocument);

#[verifier::external_type_specification]
#[verifier::external_body]
pub struct ExPdfiumPage(PdfiumPage);

#[verifier::external_type_specification]
#[verifier::external_body]
pub struct ExPdfiumBitmap(PdfiumBitmap);

#[verifier::external_type_specification]
#[verifier::external_body]
pub struct ExPdfiumRenderConfig(PdfiumRenderConfig);

/// `PdfiumDocument::page_count`. Nothing is stated of it: PDFium tells.
#[verifier::external_body]
fn document_page_count(pdf: &PdfiumDocument) -> i32 {
    pdf.page_count()
}

/// `PdfiumDocument::page`, `None` in place of its error. Nothing is stated of
/// when it fails: PDFium decides.
#[verifier::external_body]
fn load_page(pdf: &PdfiumDocument, index: i32) -> Option<PdfiumPage> {
    pdf.page(index).ok()
}

/// `PdfiumPage::render`, `None` in place of its error. Nothing is stated of the
/// bitmap or of when it fails: PDFium decides.
#[verifier::external_body]
fn render_bitmap(page: &PdfiumPage, config: &PdfiumRenderConfig) -> Option<PdfiumBitmap> {
    page.render(config).ok()
}

/// `PdfiumBitmap::empty(1, 1, PdfiumBitmapFormat::Bgra)`, `None` in place of
/// its error. Nothing is stated of when it fails: PDFium decides.
#[verifier::external_body]
fn placeholder_bitmap() -> Option<PdfiumBitmap> {
    PdfiumBitmap::empty(1, 1, PdfiumBitmapFormat::Bgra).ok()
}

/// `PdfiumBitmap::width`. Nothing is stated of it: PDFium tells.
#[verifier::external_body]
fn bitmap_width(bitmap: &PdfiumBitmap) -> i32 {
    bitmap.width()
}

/// `PdfiumBitmap::height`. Nothing is stated of it: PDFium tells.
#[verifier::external_body]
fn bitmap_height(bitmap: &PdfiumBitmap) -> i32 {
    bitmap.height()
}

/// `PdfiumBitmap::as_rgba_bytes`, `None` in place of its error. Nothing is
/// stated of the bytes: PDFium holds them.
#[verifier::external_body]
fn bitmap_rgba(bitmap: &PdfiumBitmap) -> Option<Vec<u8>> {
    bitmap.as_rgba_bytes().ok()
}

/// Why a page could not be rendered with PDFium.
#[derive(Clone, Copy, Debug, PartialEq, Eq, Structural)]
pub enum PdfiumRenderError {
    /// PDFium could not load the page of this index.
    PageUnavailable(usize),
    /// PDFium loaded the page but could not render it.
    RenderFailed,
    /// PDFium could not create a placeholder bitmap.
    PlaceholderFailed,
}

/// `count` is a page count that PDFium can report for `pdf`.
pub closed spec fn reports_page_count(pdf: PdfiumDocument, count: i32) -> bool {
    call_ensures(document_page_count, (&pdf,), count)
}

/// `bitmap` is a 1 by 1 BGRA bitmap that PDFium created as a placeholder.
pub closed spec fn is_placeholder_bitmap(bitmap: PdfiumBitmap) -> bool {
    call_ensures(placeholder_bitmap, (), Some(bitmap))
}

/// `rendered` is what PDFium can give for loading the page of index `index`
/// of `pdf` and rendering it as `config` says.
pub closed spec fn renders_page_of(
    pdf: PdfiumDocument,
    index: i32,
    config: PdfiumRenderConfig,
    rendered: PdfiumBitmap,
) -> bool {
    exists|page: PdfiumPage|
        #![trigger call_ensures(render_bitmap, (&page, &config), Some(rendered))]
        call_ensures(load_page, (&pdf, index), Some(page)) && call_ensures(
            render_bitmap,
            (&page, &config),
            Some(rendered),
        )
}

/// PDFium can fail to create a placeholder bitmap.
pub closed spec fn placeholder_can_fail() -> bool {
    call_ensures(placeholder_bitmap, (), None::<PdfiumBitmap>)
}

/// PDFium can fail to load the page of index `index` of `pdf`.
pub closed spec fn page_unavailable(pdf: PdfiumDocument, index: i32) -> bool {
    call_ensures(load_page, (&pdf, index), None::<PdfiumPage>)
}

/// PDFium can load the page of index `index` of `pdf` and fail to render it
/// as `config` says.
pub closed spec fn render_fails(pdf: PdfiumDocument, index: i32, config: PdfiumRenderConfig) -> bool {
    exists|page: PdfiumPage|
        #![trigger call_ensures(render_bitmap, (&page, &config), None::<PdfiumBitmap>)]
        call_ensures(load_page, (&pdf, index), Some(page)) && call_ensures(
            render_bitmap,
            (&page, &config),
            None::<PdfiumBitmap>,
        )
}

/// One placeholder bitmap for each of `count` pages (none when `count` is not
/// positive), or `None` when PDFium fails to create one.
fn placeholders(count: i32) -> (r: Option<Vec<PdfiumBitmap>>)
    ensures
        r matches Some(list) ==> list@.len() == (if count > 0 { count as int } else { 0 }),
        r matches Some(list) ==> forall|i: int|
            0 <= i < list@.len() ==> is_placeholder_bitmap(#[trigger] list@[i]),
        count <= 0 ==> r is Some,
        r is None ==> placeholder_can_fail(),
{
    let mut list: Vec<PdfiumBitmap> = Vec::new();
    let mut i: i32 = 0;
    while i < count
        invariant
            0 <= i,
            i <= (if count > 0 { count } else { 0 }),
            list@.len() == i,
            forall|j: int| 0 <= j < list@.len() ==> is_placeholder_bitmap(#[trigger] list@[j]),
        decreases count - i,
    {
        match placeholder_bitmap() {
            Some(b) => list.push(b),
            None => {
                return None;
            },
        }
        i = i + 1;
    }
    Some(list)
}

/// A PDF document opened with PDFium.
pub struct PdfiumRenderer {
    pdf: PdfiumDocument,
}

impl PdfiumRenderer {
    /// The document that the renderer renders.
    pub closed spec fn document(&self) -> PdfiumDocument {
        self.pdf
    }

    /// A renderer for a document that PDFium has opened.
    pub fn new(pdf: PdfiumDocument) -> (r: PdfiumRenderer)
        ensures
            r.document() == pdf,
    {
        PdfiumRenderer { pdf }
    }

    /// Renders one page as `config` says. Without `pages`, it returns a list
    /// with one placeholder per page of the document, the first replaced by the
    /// rendered first page. With `pages` and an index, it renders the page of
    /// that index into its entry and leaves every other entry as it is. Fails
    /// as PDFium fails; a failure to load the page names its index.
    pub fn render_pdf(
        &mut self,
        pages: Option<(Vec<PdfiumBitmap>, usize)>,
        config: &PdfiumRenderConfig,
    ) -> (r: Result<Vec<PdfiumBitmap>, PdfiumRenderError>)
        requires
            pages matches Some((list, page)) ==> page < list@.len(),
        ensures
            *final(self) == *old(self),
            pages is None ==> (r matches Ok(out) ==> out@.len() >= 1),
            pages is None ==> (r matches Err(PdfiumRenderError::PageUnavailable(i)) ==> i == 0),
            pages is None ==> (r matches Err(PdfiumRenderError::PageUnavailable(_)) ==> (
            page_unavailable(old(self).document(), 0) || exists|n: i32|
                #![trigger reports_page_count(old(self).document(), n)]
                n <= 0 && reports_page_count(old(self).document(), n))),
            pages is None ==> (r matches Err(PdfiumRenderError::RenderFailed) ==> render_fails(
                old(self).document(),
                0,
                *config,
            )),
            pages is None ==> (r matches Err(PdfiumRenderError::PlaceholderFailed) ==> (
            placeholder_can_fail() && exists|n: i32|
                #![trigger reports_page_count(old(self).document(), n)]
                n > 0 && reports_page_count(old(self).document(), n))),
            match pages {
                None => r matches Ok(out) ==> {
                    &&& reports_page_count(old(self).document(), out@.len() as i32)
                    &&& renders_page_of(old(self).document(), 0, *config, out@[0])
                    &&& forall|i: int|
                        1 <= i < out@.len() ==> is_placeholder_bitmap(#[trigger] out@[i])
                },
                Some((list, page)) => {
                    &&& r matches Ok(out) ==> {
                        &&& renders_page_of(
                            old(self).document(),
                            page as i32,
                            *config,
                            out@[page as int],
                        )
                        &&& out@.len() == list@.len()
                        &&& forall|i: int|
                            0 <= i < out@.len() && i != page ==> #[trigger] out@[i] == list@[i]
                    }
                    &&& r matches Err(e) ==> e != PdfiumRenderError::PlaceholderFailed
                    &&& r matches Err(PdfiumRenderError::PageUnavailable(i)) ==> i == page
                        && page_unavailable(old(self).document(), page as i32)
                    &&& r matches Err(PdfiumRenderError::RenderFailed) ==> render_fails(
                        old(self).document(),
                        page as i32,
                        *config,
                    )
                },
            },
    {
        match pages {
            Some((list, index)) => {
                let outcome = load_and_render(&self.pdf, #[verifier::truncate] (index as i32), config);
                install_page(list, index, outcome)
            },
            None => {
                let count = document_page_count(&self.pdf);
                proof {
                    assert(reports_page_count(self.document(), count));
                }
                match placeholders(count) {
                    Some(list) => install_first_page(list, load_and_render(&self.pdf, 0, config)),
                    None => Err(PdfiumRenderError::PlaceholderFailed),
                }
            },
        }
    }
}

/// What came of asking PDFium for one page.
pub enum PageOutcome {
    /// PDFium could not load the page.
    Unavailable,
    /// PDFium loaded the page but could not render it.
    RenderFailed,
    /// The rendered page.
    Rendered(PdfiumBitmap),
}

/// Loads the page of index `index` and renders it as `config` says.
fn load_and_render(pdf: &PdfiumDocument, index: i32, config: &PdfiumRenderConfig) -> (r:
    PageOutcome)
    ensures
        match r {
            PageOutcome::Rendered(b) => renders_page_of(*pdf, index, *config, b),
            PageOutcome::Unavailable => page_unavailable(*pdf, index),
            PageOutcome::RenderFailed => render_fails(*pdf, index, *config),
        },
{
    match load_page(pdf, index) {
        Some(page) => match render_bitmap(&page, config) {
            Some(rendered) => PageOutcome::Rendered(rendered),
            None => PageOutcome::RenderFailed,
        },
        None => PageOutcome::Unavailable,
    }
}

/// The list of pages that starts a document: the placeholders `list`, the
/// first replaced by the rendered first page. Fails as the first page did,
/// and names page 0 as unavailable when there is no entry to put it in.
pub fn install_first_page(list: Vec<PdfiumBitmap>, first: PageOutcome) -> (r: Result<
    Vec<PdfiumBitmap>,
    PdfiumRenderError,
>)
    ensures
        match first {
            PageOutcome::Unavailable => r matches Err(e) && e == PdfiumRenderError::PageUnavailable(0),
            PageOutcome::RenderFailed => r matches Err(e) && e == PdfiumRenderError::RenderFailed,
            PageOutcome::Rendered(b) => if list@.len() == 0 {
                r matches Err(e) && e == PdfiumRenderError::PageUnavailable(0)
            } else {
                r matches Ok(out) && out@ == list@.update(0, b)
            },
        },
{
    match first {
        PageOutcome::Rendered(rendered) => {
            if list.len() == 0 {
                return Err(PdfiumRenderError::PageUnavailable(0));
            }
            let mut all_pages = list;
            all_pages.set(0, rendered);
            Ok(all_pages)
        },
        PageOutcome::RenderFailed => Err(PdfiumRenderError::RenderFailed),
        PageOutcome::Unavailable => Err(PdfiumRenderError::PageUnavailable(0)),
    }
}

/// The list of pages `list` with the page of index `index` replaced by what
/// PDFium rendered. Fails as that page did, naming its index when it was
/// unavailable.
pub fn install_page(list: Vec<PdfiumBitmap>, index: usize, outcome: PageOutcome) -> (r: Result<
    Vec<PdfiumBitmap>,
    PdfiumRenderError,
>)
    requires
        index < list@.len(),
    ensures
        match outcome {
            PageOutcome::Unavailable => r matches Err(e) && e == PdfiumRenderError::PageUnavailable(
                index,
            ),
            PageOutcome::RenderFailed => r matches Err(e) && e == PdfiumRenderError::RenderFailed,
            PageOutcome::Rendered(b) => r matches Ok(out) && out@ == list@.update(index as int, b),
        },
{
    match outcome {
        PageOutcome::Rendered(rendered) => {
            let mut all_pages = list;
            all_pages.set(index, rendered);
            Ok(all_pages)
        },
        PageOutcome::RenderFailed => Err(PdfiumRenderError::RenderFailed),
        PageOutcome::Unavailable => Err(PdfiumRenderError::PageUnavailable(index)),
    }
}

/// The frame of a `window_width` by `window_height` window showing the
/// rendered bitmap scrolled down by `scroll` rows, with the bitmap's width,
/// height and RGBA bytes; see `compose_frame`. `None` when PDFium cannot give
/// the bytes, or gives fewer than four a pixel.
pub fn bitmap_frame(bitmap: &PdfiumBitmap, window_width: u32, window_height: u32, scroll: u32) -> (r:
    Option<(Vec<u32>, Layout, u32, u32, Vec<u8>)>)
    requires
        window_width * window_height <= usize::MAX,
    ensures
        r matches Some((frame, l, width, height, rgba)) ==> {
            &&& 4 * width * height <= rgba@.len()
            &&& l == layout_spec(width, height, window_width, window_height, scroll)
            &&& frame@.len() == window_width * window_height
            &&& forall|row: int, col: int|
                0 <= row < window_height && 0 <= col < window_width ==> frame@[row * window_width
                    + col] == #[trigger] frame_pixel(l, rgba@, width, row, col)
        },
{
    let width = bitmap_width(bitmap);
    let height = bitmap_height(bitmap);
    let rgba = bitmap_rgba(bitmap);
    rgba_frame(width, height, rgba, window_width, window_height, scroll)
}

/// The frame of a `window_width` by `window_height` window showing a page of
/// `width` by `height` pixels (each taken as a `u32`, as `as u32` does) whose
/// RGBA bytes are `rgba`, scrolled down by `scroll` rows; see `compose_frame`.
/// `None` exactly when there are no bytes, or fewer than four a pixel.
pub fn rgba_frame(
    width: i32,
    height: i32,
    rgba: Option<Vec<u8>>,
    window_width: u32,
    window_height: u32,
    scroll: u32,
) -> (r: Option<(Vec<u32>, Layout, u32, u32, Vec<u8>)>)
    requires
        window_width * window_height <= usize::MAX,
    ensures
        r is Some <==> (rgba matches Some(bytes) && 4 * (width as u32) * (height as u32)
            <= bytes@.len()),
        r matches Some((frame, l, w, h, bytes)) ==> {
            &&& w == width as u32
            &&& h == height as u32
            &&& rgba == Some(bytes)
            &&& l == layout_spec(w, h, window_width, window_height, scroll)
            &&& frame@.len() == window_width * window_height
            &&& forall|row: int, col: int|
                0 <= row < window_height && 0 <= col < window_width ==> frame@[row * window_width
                    + col] == #[trigger] frame_pixel(l, bytes@, w, row, col)
        },
{
    let width = #[verifier::truncate] (width as u32);
    let height = #[verifier::truncate] (height as u32);
    match rgba {
        Some(rgba) => {
            assert((width as u64) * (height as u64) <= u64::MAX) by (nonlinear_arith)
                requires
                    width <= u32::MAX,
                    height <= u32::MAX,
            ;
            let pixels: u64 = (width as u64) * (height as u64);
            let quarter: usize = rgba.len() / 4;
            if pixels > quarter as u64 {
                assert(4 * width * height > rgba@.len()) by (nonlinear_arith)
                    requires
                        pixels == width * height,
                        pixels > quarter,
                        quarter == rgba@.len() / 4,
                ;
                return None;
            }
            assert(4 * width * height <= rgba@.len()) by (nonlinear_arith)
                requires
                    pixels == width * height,
                    pixels <= quarter,
                    quarter == rgba@.len() / 4,
            ;
            let (frame, l) = compose_frame(rgba.as_slice(), width, height, window_width, window_height, scroll);
            Some((frame, l, width, height, rgba))
        },
        None => None,
    }
}

} // verus!
