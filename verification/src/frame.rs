//! Composing the window's next frame from a rendered page: where the page
//! goes in the window, how far it may scroll, and the pixels that show.
use vstd::prelude::*;
use crate::navigation::{min, sat_sub};

verus! {

/// Where the visible part of a page goes in the window.
#[derive(Clone, Copy, Debug, PartialEq, Eq, Structural)]
pub struct Layout {
    /// Columns left empty to the left of the page.
    pub horizontal_padding: u32,
    /// Rows left empty above the page.
    pub vertical_padding: u32,
    /// Columns of the page that show.
    pub visible_width: u32,
    /// Rows of the page that show.
    pub visible_height: u32,
    /// The row of the page at the top of the visible part.
    pub scroll: u32,
}

/// The layout of a `page_width` by `page_height` page in a `window_width` by
/// `window_height` window, scrolled down by `scroll` rows: the page is centred
/// horizontally, and vertically when it fits; the scroll is clamped so that
/// the page never scrolls past its bottom (to 0 when it fits).
pub open spec fn layout_spec(
    page_width: u32,
    page_height: u32,
    window_width: u32,
    window_height: u32,
    scroll: u32,
) -> Layout {
    let clamped = min(scroll as int, sat_sub(page_height as int, window_height as int));
    let vertical_padding = if page_height <= window_height {
        (window_height - page_height) / 2
    } else {
        0
    };
    Layout {
        horizontal_padding: (sat_sub(window_width as int, page_width as int) / 2) as u32,
        vertical_padding: vertical_padding as u32,
        visible_width: min(page_width as int, window_width as int) as u32,
        visible_height: min(
            sat_sub(page_height as int, clamped),
            sat_sub(window_height as int, vertical_padding),
        ) as u32,
        scroll: clamped as u32,
    }
}

/// Computes the layout; see `layout_spec`.
pub fn layout(page_width: u32, page_height: u32, window_width: u32, window_height: u32, scroll: u32) -> (l:
    Layout)
    ensures
        l == layout_spec(page_width, page_height, window_width, window_height, scroll),
        l.horizontal_padding + l.visible_width <= window_width,
        l.vertical_padding + l.visible_height <= window_height,
        l.visible_width <= page_width,
        l.scroll + l.visible_height <= page_height,
        page_height <= window_height ==> l.scroll == 0 && l.visible_height == page_height,
        page_height > window_height ==> l.scroll + window_height <= page_height
            && l.visible_height == window_height,
{
    let horizontal_padding = window_width.saturating_sub(page_width) / 2;
    let max_scroll = page_height.saturating_sub(window_height);
    let clamped = if scroll < max_scroll { scroll } else { max_scroll };
    let vertical_padding = if page_height <= window_height {
        (window_height - page_height) / 2
    } else {
        0
    };
    let visible_width = if page_width < window_width { page_width } else { window_width };
    let rows_left = page_height.saturating_sub(clamped);
    let room = window_height.saturating_sub(vertical_padding);
    let visible_height = if rows_left < room { rows_left } else { room };
    Layout { horizontal_padding, vertical_padding, visible_width, visible_height, scroll: clamped }
}

/// The 0x00RRGGBB word of a pixel.
pub open spec fn rgb(r: u8, g: u8, b: u8) -> u32 {
    (r as int * 0x10000 + g as int * 0x100 + b as int) as u32
}

/// Packs a pixel into a 0x00RRGGBB word.
pub fn pack_rgb(r: u8, g: u8, b: u8) -> (w: u32)
    ensures
        w == rgb(r, g, b),
{
    let (r32, g32, b32) = (r as u32, g as u32, b as u32);
    assert((r32 << 16u32) | (g32 << 8u32) | b32 == r32 * 0x10000 + g32 * 0x100 + b32) by (bit_vector)
        requires
            r32 < 256,
            g32 < 256,
            b32 < 256,
    ;
    (r32 << 16) | (g32 << 8) | b32
}

/// The word at row `row`, column `col` of the frame: the page's pixel that the
/// layout puts there (its red, green and blue bytes in `rgba`, four bytes a
/// pixel, `page_width` pixels a row), black elsewhere.
pub open spec fn frame_pixel(l: Layout, rgba: Seq<u8>, page_width: u32, row: int, col: int) -> u32 {
    if l.vertical_padding <= row < l.vertical_padding + l.visible_height && l.horizontal_padding
        <= col < l.horizontal_padding + l.visible_width {
        let i = ((l.scroll + row - l.vertical_padding) * page_width + (col - l.horizontal_padding)) * 4;
        rgb(rgba[i], rgba[i + 1], rgba[i + 2])
    } else {
        0
    }
}

proof fn lemma_source_index(y: int, x: int, width: int, height: int)
    requires
        0 <= y < height,
        0 <= x < width,
    ensures
        0 <= (y * width + x) * 4 + 3 < 4 * width * height,
        0 <= y * width,
        y * width + x <= (y * width + x) * 4,
{
    assert(0 <= y * width) by (nonlinear_arith)
        requires
            0 <= y,
            0 <= width,
    ;
    assert(0 <= (y * width + x) * 4 + 3 < 4 * width * height) by (nonlinear_arith)
        requires
            0 <= y < height,
            0 <= x < width,
    ;
}

proof fn lemma_row_start(row: int, width: int, height: int)
    requires
        0 <= row < height,
        0 <= width,
    ensures
        0 <= row * width,
        row * width + width == (row + 1) * width,
        (row + 1) * width <= width * height,
{
    assert(0 <= row * width) by (nonlinear_arith)
        requires
            0 <= row,
            0 <= width,
    ;
    assert((row + 1) * width <= width * height) by (nonlinear_arith)
        requires
            row + 1 <= height,
            0 <= width,
    ;
    assert(row * width + width == (row + 1) * width) by (nonlinear_arith);
}

/// Composes the frame of a `window_width` by `window_height` window that
/// shows the page held in `rgba` (four bytes a pixel, row after row), scrolled
/// down by `scroll` rows: the frame's words row after row, and the layout
/// (whose scroll is the clamped one).
pub fn compose_frame(
    rgba: &[u8],
    page_width: u32,
    page_height: u32,
    window_width: u32,
    window_height: u32,
    scroll: u32,
) -> (r: (Vec<u32>, Layout))
    requires
        4 * page_width * page_height <= rgba@.len(),
        window_width * window_height <= usize::MAX,
    ensures
        r.1 == layout_spec(page_width, page_height, window_width, window_height, scroll),
        r.0@.len() == window_width * window_height,
        forall|row: int, col: int|
            0 <= row < window_height && 0 <= col < window_width ==> r.0@[row * window_width + col]
                == frame_pixel(r.1, rgba@, page_width, row, col),
{
    let l = layout(page_width, page_height, window_width, window_height, scroll);
    let source_len = rgba.len();
    let mut frame: Vec<u32> = Vec::new();
    let mut row: u32 = 0;
    while row < window_height
        invariant
            l == layout_spec(page_width, page_height, window_width, window_height, scroll),
            l.horizontal_padding + l.visible_width <= window_width,
            l.vertical_padding + l.visible_height <= window_height,
            l.visible_width <= page_width,
            l.scroll + l.visible_height <= page_height,
            4 * page_width * page_height <= rgba@.len(),
            rgba@.len() == source_len,
            window_width * window_height <= usize::MAX,
            row <= window_height,
            frame@.len() == row * window_width,
            forall|r: int, c: int|
                0 <= r < row && 0 <= c < window_width ==> frame@[r * window_width + c]
                    == frame_pixel(l, rgba@, page_width, r, c),
        decreases window_height - row,
    {
        proof {
            lemma_row_start(row as int, window_width as int, window_height as int);
        }
        let ghost start = frame@.len();
        let mut col: u32 = 0;
        while col < window_width
            invariant
                l == layout_spec(page_width, page_height, window_width, window_height, scroll),
                l.horizontal_padding + l.visible_width <= window_width,
                l.vertical_padding + l.visible_height <= window_height,
                l.visible_width <= page_width,
                l.scroll + l.visible_height <= page_height,
                4 * page_width * page_height <= rgba@.len(),
                rgba@.len() == source_len,
                row < window_height,
                col <= window_width,
                start == row * window_width,
                start + window_width <= window_width * window_height,
                frame@.len() == start + col,
                forall|r: int, c: int|
                    0 <= r < row && 0 <= c < window_width ==> frame@[r * window_width + c]
                        == frame_pixel(l, rgba@, page_width, r, c),
                forall|c: int|
                    0 <= c < col ==> frame@[start + c] == frame_pixel(
                        l,
                        rgba@,
                        page_width,
                        row as int,
                        c,
                    ),
            decreases window_width - col,
        {
            let ghost before = frame@;
            let inside = l.vertical_padding <= row && row < l.vertical_padding + l.visible_height
                && l.horizontal_padding <= col && col < l.horizontal_padding + l.visible_width;
            let word = if inside {
                let y = l.scroll + (row - l.vertical_padding);
                let x = col - l.horizontal_padding;
                proof {
                    lemma_source_index(y as int, x as int, page_width as int, page_height as int);
                }
                let i = ((y as usize) * (page_width as usize) + (x as usize)) * 4;
                pack_rgb(rgba[i], rgba[i + 1], rgba[i + 2])
            } else {
                0
            };
            frame.push(word);
            proof {
                assert forall|r: int, c: int|
                    0 <= r < row && 0 <= c < window_width implies frame@[r * window_width + c]
                    == frame_pixel(l, rgba@, page_width, r, c) by {
                    lemma_row_start(r, window_width as int, window_height as int);
                    assert(r * window_width + c < row * window_width) by (nonlinear_arith)
                        requires
                            0 <= c < window_width,
                            r + 1 <= row,
                            r * window_width + window_width == (r + 1) * window_width,
                    ;
                    assert(frame@[r * window_width + c] == before[r * window_width + c]);
                }
            }
            col = col + 1;
        }
        proof {
            assert forall|r: int, c: int|
                0 <= r < row + 1 && 0 <= c < window_width implies frame@[r * window_width + c]
                == frame_pixel(l, rgba@, page_width, r, c) by {
                if r == row {
                    assert(frame@[start + c] == frame_pixel(l, rgba@, page_width, row as int, c));
                }
            }
        }
        row = row + 1;
    }
    assert(row * window_width == window_width * window_height) by (nonlinear_arith)
        requires
            row == window_height,
    ;
    (frame, l)
}

/// Whatever the page's height and the scroll, a page narrower than the
/// window is centred horizontally (the padding on the left is half the room
/// left over, rounded down), and a page at least as wide as the window starts
/// at the left edge and fills its width.
pub proof fn law_horizontal_centring(
    page_width: u32,
    page_height: u32,
    window_width: u32,
    window_height: u32,
    scroll: u32,
)
    ensures
        ({
            let l = layout_spec(page_width, page_height, window_width, window_height, scroll);
            if page_width < window_width {
                &&& l.horizontal_padding == (window_width - page_width) / 2
                &&& l.visible_width == page_width
            } else {
                &&& l.horizontal_padding == 0
                &&& l.visible_width == window_width
            }
        }),
{
}

/// Whatever the page's width, a page that fits the window's height is
/// centred vertically and shown whole from its top; a taller page starts at
/// the top edge, fills the window's height, and scrolls no further than its
/// bottom (the scroll asked for, or the last scroll that keeps the page's
/// bottom in the window).
pub proof fn law_vertical_placement(
    page_width: u32,
    page_height: u32,
    window_width: u32,
    window_height: u32,
    scroll: u32,
)
    ensures
        ({
            let l = layout_spec(page_width, page_height, window_width, window_height, scroll);
            if page_height <= window_height {
                &&& l.vertical_padding == (window_height - page_height) / 2
                &&& l.scroll == 0
                &&& l.visible_height == page_height
            } else {
                &&& l.vertical_padding == 0
                &&& l.visible_height == window_height
                &&& l.scroll == (if scroll + window_height <= page_height {
                    scroll as int
                } else {
                    page_height - window_height
                })
            }
        }),
{
}

/// Each page pixel in the visible part shows at its place shifted by the
/// paddings and the scroll, in its own colour; rows above the page and
/// columns left of it are black.
pub proof fn law_frame_shows_the_page(
    l: Layout,
    rgba: Seq<u8>,
    page_width: u32,
    x: int,
    y: int,
    row: int,
    col: int,
)
    ensures
        l.scroll <= y < l.scroll + l.visible_height && 0 <= x < l.visible_width ==> frame_pixel(
            l,
            rgba,
            page_width,
            l.vertical_padding + y - l.scroll,
            l.horizontal_padding + x,
        ) == rgb(
            rgba[(y * page_width + x) * 4],
            rgba[(y * page_width + x) * 4 + 1],
            rgba[(y * page_width + x) * 4 + 2],
        ),
        (row < l.vertical_padding || col < l.horizontal_padding) ==> frame_pixel(
            l,
            rgba,
            page_width,
            row,
            col,
        ) == 0,
{
}

} // verus!
