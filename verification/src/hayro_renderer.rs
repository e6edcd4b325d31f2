//! Rendering PDF pages with hayro: opening the document, rendering pages on
//! demand into a list that holds placeholders for the pages not rendered yet,
//! and reading the pixels of a rendered page.
use vstd::prelude::*;
use crate::frame::{compose_frame, frame_pixel, layout_spec, Layout};
use hayro::hayro_interpret::InterpreterSettings;
use hayro::hayro_syntax::page::Page;
use hayro::hayro_syntax::{LoadPdfError, Pdf};
use hayro::vello_cpu::Pixmap;
use hayro::{PixmapSettings, RenderCache, RenderSettings};

verus! {

#[verifier::external_type_specification]
#[verifier::external_body]
pub struct ExPdf(Pdf);

#[verifier::external_type_specification]
#[verifier::external_body]
pub struct ExPage<'a>(Page<'a>);

#[verifier::external_type_specification]
#[verifier::external_body]
pub struct ExRenderCache<'a>(RenderCache<'a>);

#[verifier::external_type_specification]
#[verifier::external_body]
pub struct ExInterpreterSettings(InterpreterSettings);

#[verifier::external_type_specification]
#[verifier::external_body]
pub struct ExRenderSettings(RenderSettings);

#[verifier::external_type_specification]
#[verifier::external_body]
pub struct ExPixmapSettings(PixmapSettings);

#[verifier::external_type_specification]
#[verifier::external_body]
pub struct ExPixmap(Pixmap);

/// Why a PDF could not be opened.
#[derive(Clone, Copy, Debug, PartialEq, Eq, Structural)]
pub enum PdfError {
    /// The document is encrypted and could not be decrypted without a password.
    Encrypted,
    /// The bytes are no PDF that could be parsed.
    Invalid,
}

/// Why `Pdf::new` refuses the bytes `data`, or `None` when it accepts them.
pub uninterp spec fn pdf_load_error(data: Seq<u8>) -> Option<PdfError>;

/// The number of pages of a document.
pub uninterp spec fn pdf_page_count(pdf: Pdf) -> nat;

/// The number of pages of the document that `Pdf::new` makes of the bytes
/// `data`, when it accepts them.
pub uninterp spec fn bytes_page_count(data: Seq<u8>) -> nat;

/// The bytes of a pixmap's pixels: red, green, blue and alpha, row after row.
pub uninterp spec fn pixmap_pixels(p: Pixmap) -> Seq<u8>;

/// The width and height that a pixmap was made with.
pub uninterp spec fn pixmap_size(p: Pixmap) -> (nat, nat);

/// `Pdf::new` with the bytes of a file: whether it opens depends on the bytes
/// alone; the error kind is the variant of `LoadPdfError`.
#[verifier::external_body]
pub(crate) fn open_pdf(data: Vec<u8>) -> (r: Result<Pdf, PdfError>)
    ensures
        match r {
            Ok(pdf) => pdf_load_error(data@) is None && pdf_page_count(pdf) == bytes_page_count(
                data@,
            ),
            Err(e) => pdf_load_error(data@) == Some(e),
        },
{
    match Pdf::new(data) {
        Ok(pdf) => Ok(pdf),
        Err(LoadPdfError::Decryption(_)) => Err(PdfError::Encrypted),
        Err(LoadPdfError::Invalid) => Err(PdfError::Invalid),
    }
}

/// `Pdf::pages`: the pages of the document, in order (computed once, when the
/// document is opened). Nothing is stated of a page: it is opaque here.
#[verifier::external_body]
pub(crate) fn document_pages<'a>(pdf: &'a Pdf) -> (r: &'a [Page<'a>])
    ensures
        r@.len() == pdf_page_count(*pdf),
{
    pdf.pages()
}

/// `RenderCache::new`: an empty cache.
#[verifier::external_body]
pub(crate) fn new_render_cache<'a>() -> RenderCache<'a> {
    RenderCache::new()
}

/// `RenderSettings::default`: anti-aliased, hinted, with glyph caching.
#[verifier::external_body]
pub(crate) fn default_render_settings() -> RenderSettings {
    RenderSettings::default()
}

/// `hayro::render`: the page drawn at the scale and on the background that
/// `pixmap_settings` give. Nothing is stated of the pixmap: its size and
/// pixels depend on the page's content and on the scale, a float.
#[verifier::external_body]
pub(crate) fn render_page<'a>(
    page: &'a Page<'a>,
    cache: &RenderCache<'a>,
    interpreter_settings: &InterpreterSettings,
    render_settings: &RenderSettings,
    pixmap_settings: &PixmapSettings,
) -> Pixmap {
    hayro::render(page, cache, interpreter_settings, render_settings, pixmap_settings)
}

/// `Pixmap::new(0, 0)`: a pixmap without pixels.
#[verifier::external_body]
pub(crate) fn empty_pixmap() -> (p: Pixmap)
    ensures
        pixmap_size(p) == (0nat, 0nat),
        pixmap_pixels(p) == Seq::<u8>::empty(),
{
    Pixmap::new(0, 0)
}

/// `Pixmap::width`.
#[verifier::external_body]
pub(crate) fn pixmap_width(p: &Pixmap) -> (w: u16)
    ensures
        w as nat == pixmap_size(*p).0,
{
    p.width()
}

/// `Pixmap::height`.
#[verifier::external_body]
pub(crate) fn pixmap_height(p: &Pixmap) -> (h: u16)
    ensures
        h as nat == pixmap_size(*p).1,
{
    p.height()
}

/// `Pixmap::data_as_u8_slice`: the pixel bytes, four a pixel (a pixmap holds
/// exactly width times height pixels).
#[verifier::external_body]
pub(crate) fn pixmap_bytes(p: &Pixmap) -> (b: &[u8])
    ensures
        b@ == pixmap_pixels(*p),
        b@.len() == 4 * pixmap_size(*p).0 * pixmap_size(*p).1,
{
    p.data_as_u8_slice()
}

/// Why a page could not be rendered.
#[derive(Clone, Copy, Debug, PartialEq, Eq, Structural)]
pub enum RenderError {
    /// The document has no page of the index asked for.
    NoSuchPage,
}

/// A pixmap with no pixels, as the list of pages holds for a page not
/// rendered yet.
pub open spec fn is_placeholder(p: Pixmap) -> bool {
    pixmap_size(p) == (0nat, 0nat) && pixmap_pixels(p) == Seq::<u8>::empty()
}

/// A PDF document opened for rendering, with the settings (font and cmap
/// resolution) that its pages are interpreted with.
pub struct HayroRenderer {
    pdf: Pdf,
    interpreter_settings: InterpreterSettings,
}

impl HayroRenderer {
    /// The number of pages of the document.
    pub closed spec fn page_count(&self) -> nat {
        pdf_page_count(self.pdf)
    }

    /// The settings that the document's pages are interpreted with.
    pub closed spec fn interpreter_settings(&self) -> InterpreterSettings {
        self.interpreter_settings
    }

    /// `rendered` is a pixmap that `hayro::render` can give for the page of
    /// index `index` of the document (as `Pdf::pages` lists them), interpreted
    /// with the renderer's settings and drawn as `pixmap_settings` say.
    pub closed spec fn renders_document_page<'a>(
        &'a self,
        index: int,
        pixmap_settings: PixmapSettings,
        rendered: Pixmap,
    ) -> bool {
        exists|document: &'a [Page<'a>], cache: RenderCache<'a>, render_settings: RenderSettings|
            #![trigger renders_page(&document@[index], &cache, &self.interpreter_settings, &render_settings, &pixmap_settings, rendered)]
            call_ensures(document_pages, (&self.pdf,), document) && renders_page(
                &document@[index],
                &cache,
                &self.interpreter_settings,
                &render_settings,
                &pixmap_settings,
                rendered,
            )
    }

    /// Opens the PDF held in `file`; fails exactly when hayro refuses the bytes.
    pub fn new(file: Vec<u8>, interpreter_settings: InterpreterSettings) -> (r: Result<
        HayroRenderer,
        PdfError,
    >)
        ensures
            match r {
                Ok(renderer) => {
                    &&& pdf_load_error(file@) is None
                    &&& renderer.page_count() == bytes_page_count(file@)
                    &&& renderer.interpreter_settings() == interpreter_settings
                },
                Err(e) => pdf_load_error(file@) == Some(e),
            },
    {
        match open_pdf(file) {
            Ok(pdf) => Ok(HayroRenderer { pdf, interpreter_settings }),
            Err(e) => Err(e),
        }
    }

    /// Renders one page at the scale and background that `pixmap_settings`
    /// give. Without `pages`, it renders the first page and returns a list with
    /// one entry per page of the document: the first page, then placeholders.
    /// With `pages` and an index, it renders the page of that index into its
    /// entry and leaves every other entry as it is. Fails when the document has
    /// no page of that index (no first page, without `pages`). The renderer
    /// is left as it is.
    pub fn render_pdf(&mut self, pages: Option<(Vec<Pixmap>, usize)>, pixmap_settings: &PixmapSettings) -> (r:
        Result<Vec<Pixmap>, RenderError>)
        requires
            pages matches Some((list, page)) ==> page < list@.len(),
        ensures
            *final(self) == *old(self),
            pages is None ==> (r is Ok <==> old(self).page_count() >= 1),
            pages matches Some((_, page)) ==> (r is Ok <==> page < old(self).page_count()),
            pages is None ==> (r matches Ok(out) ==> out@.len() == old(self).page_count()),
            r matches Err(e) ==> e == RenderError::NoSuchPage,
            match pages {
                None => r matches Ok(out) ==> {
                    &&& out@.len() >= 1
                    &&& old(self).renders_document_page(0, *pixmap_settings, out@[0])
                    &&& forall|i: int| 1 <= i < out@.len() ==> is_placeholder(#[trigger] out@[i])
                },
                Some((list, page)) => r matches Ok(out) ==> {
                    &&& old(self).renders_document_page(page as int, *pixmap_settings, out@[page as int])
                    &&& out@.len() == list@.len()
                    &&& forall|i: int|
                        0 <= i < out@.len() && i != page ==> #[trigger] out@[i] == list@[i]
                },
            },
    {
        let render_settings = default_render_settings();
        let document = document_pages(&self.pdf);
        let cache = new_render_cache();
        let ghost index: int = match pages {
            Some((_, page)) => page as int,
            None => 0,
        };
        let r = render_into_pages(
            document,
            &cache,
            &self.interpreter_settings,
            &render_settings,
            pixmap_settings,
            pages,
        );
        proof {
            if r is Ok {
                let out = r->Ok_0;
                assert(renders_page(
                    &document@[index],
                    &cache,
                    &self.interpreter_settings,
                    &render_settings,
                    pixmap_settings,
                    out@[index],
                ));
                assert(self.renders_document_page(index, *pixmap_settings, out@[index]));
            }
        }
        r
    }
}

/// `rendered` is a pixmap that `hayro::render` can give for `page` with these
/// settings.
pub closed spec fn renders_page<'a>(
    page: &'a Page<'a>,
    cache: &RenderCache<'a>,
    interpreter_settings: &InterpreterSettings,
    render_settings: &RenderSettings,
    pixmap_settings: &PixmapSettings,
    rendered: Pixmap,
) -> bool {
    call_ensures(
        render_page,
        (page, cache, interpreter_settings, render_settings, pixmap_settings),
        rendered,
    )
}

/// Renders one page of `document` into a list of pages. Without `pages`, it
/// renders the first page and returns a list with one entry per page of the
/// document: the first page, then placeholders; it fails exactly when the
/// document has no page. With `pages` and an index, it renders the page of
/// that index into its entry and leaves every other entry as it is; it fails
/// exactly when the document has no page of that index.
pub fn render_into_pages<'a>(
    document: &'a [Page<'a>],
    cache: &RenderCache<'a>,
    interpreter_settings: &InterpreterSettings,
    render_settings: &RenderSettings,
    pixmap_settings: &PixmapSettings,
    pages: Option<(Vec<Pixmap>, usize)>,
) -> (r: Result<Vec<Pixmap>, RenderError>)
    requires
        pages matches Some((list, page)) ==> page < list@.len(),
    ensures
        match pages {
            None => {
                &&& (r is Ok <==> document@.len() >= 1)
                &&& r matches Ok(out) ==> {
                    &&& out@.len() == document@.len()
                    &&& renders_page(
                        &document@[0],
                        cache,
                        interpreter_settings,
                        render_settings,
                        pixmap_settings,
                        out@[0],
                    )
                    &&& forall|i: int| 1 <= i < out@.len() ==> is_placeholder(#[trigger] out@[i])
                }
            },
            Some((list, page)) => {
                &&& (r is Ok <==> page < document@.len())
                &&& r matches Ok(out) ==> {
                    &&& out@.len() == list@.len()
                    &&& renders_page(
                        &document@[page as int],
                        cache,
                        interpreter_settings,
                        render_settings,
                        pixmap_settings,
                        out@[page as int],
                    )
                    &&& forall|i: int|
                        0 <= i < out@.len() && i != page ==> #[trigger] out@[i] == list@[i]
                }
            },
        },
        r matches Err(e) ==> e == RenderError::NoSuchPage,
{
    match pages {
        None => {
            if document.len() == 0 {
                return Err(RenderError::NoSuchPage);
            }
            let first = render_page(
                &document[0],
                cache,
                interpreter_settings,
                render_settings,
                pixmap_settings,
            );
            let mut output: Vec<Pixmap> = Vec::new();
            output.push(first);
            let mut i: usize = 1;
            while i < document.len()
                invariant
                    1 <= i <= document@.len(),
                    output@.len() == i,
                    output@[0] == first,
                    forall|j: int| 1 <= j < output@.len() ==> is_placeholder(#[trigger] output@[j]),
                decreases document@.len() - i,
            {
                output.push(empty_pixmap());
                i = i + 1;
            }
            Ok(output)
        },
        Some((list, page)) => {
            if page >= document.len() {
                return Err(RenderError::NoSuchPage);
            }
            let rendered = render_page(
                &document[page],
                cache,
                interpreter_settings,
                render_settings,
                pixmap_settings,
            );
            let mut output = list;
            output.set(page, rendered);
            Ok(output)
        },
    }
}

/// Renders every page of `document`, in order.
pub fn render_all_pages<'a>(
    document: &'a [Page<'a>],
    cache: &RenderCache<'a>,
    interpreter_settings: &InterpreterSettings,
    render_settings: &RenderSettings,
    pixmap_settings: &PixmapSettings,
) -> (out: Vec<Pixmap>)
    ensures
        out@.len() == document@.len(),
        forall|i: int|
            0 <= i < out@.len() ==> renders_page(
                &document@[i],
                cache,
                interpreter_settings,
                render_settings,
                pixmap_settings,
                #[trigger] out@[i],
            ),
{
    let mut output: Vec<Pixmap> = Vec::new();
    let mut i: usize = 0;
    while i < document.len()
        invariant
            i <= document@.len(),
            output@.len() == i,
            forall|j: int|
                0 <= j < output@.len() ==> renders_page(
                    &document@[j],
                    cache,
                    interpreter_settings,
                    render_settings,
                    pixmap_settings,
                    #[trigger] output@[j],
                ),
        decreases document@.len() - i,
    {
        let rendered = render_page(
            &document[i],
            cache,
            interpreter_settings,
            render_settings,
            pixmap_settings,
        );
        output.push(rendered);
        i = i + 1;
    }
    output
}

/// The width and height of a rendered page.
pub fn page_size(page: &Pixmap) -> (r: (u32, u32))
    ensures
        r.0 as nat == pixmap_size(*page).0,
        r.1 as nat == pixmap_size(*page).1,
{
    (pixmap_width(page) as u32, pixmap_height(page) as u32)
}

/// The frame of a `window_width` by `window_height` window showing the
/// rendered page scrolled down by `scroll` rows; see `compose_frame`.
pub fn page_frame(page: &Pixmap, window_width: u32, window_height: u32, scroll: u32) -> (r: (
    Vec<u32>,
    Layout,
))
    requires
        window_width * window_height <= usize::MAX,
    ensures
        r.1 == layout_spec(
            pixmap_size(*page).0 as u32,
            pixmap_size(*page).1 as u32,
            window_width,
            window_height,
            scroll,
        ),
        r.0@.len() == window_width * window_height,
        forall|row: int, col: int|
            0 <= row < window_height && 0 <= col < window_width ==> r.0@[row * window_width + col]
                == #[trigger] frame_pixel(r.1, pixmap_pixels(*page), pixmap_size(*page).0 as u32, row, col),
{
    let (width, height) = page_size(page);
    let bytes = pixmap_bytes(page);
    compose_frame(bytes, width, height, window_width, window_height, scroll)
}

} // verus!
