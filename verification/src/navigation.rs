//! What a command does to the viewer's place in the document: the page shown
//! and how far it is scrolled, and what has to be rendered and redrawn.
use vstd::prelude::*;
use crate::parser::Command;

verus! {

/// The rows that one scroll step moves.
pub const SCROLL_STEP: u32 = 40;

/// The page shown (zero-based) and the row of it at the top of the window.
#[derive(Clone, Copy, Debug, PartialEq, Eq, Structural)]
pub struct Position {
    pub page: usize,
    pub scroll: u32,
}

/// A change of the zoom level that a command asks for.
#[derive(Clone, Copy, Debug, PartialEq, Eq, Structural)]
pub enum Zoom {
    Keep,
    In,
    Out,
}

/// What a command does: the new position, whether anything changed (and the
/// window has to be redrawn), a zoom change, and whether the new page has to
/// be rendered now so that the view can land at its bottom.
#[derive(Clone, Copy, Debug, PartialEq, Eq, Structural)]
pub struct Reaction {
    pub position: Position,
    pub changed: bool,
    pub zoom: Zoom,
    pub land_at_bottom: bool,
}

/// `a - b`, or 0 when `b` is larger.
pub open spec fn sat_sub(a: int, b: int) -> int {
    if a > b { a - b } else { 0 }
}

/// The smaller of two numbers.
pub open spec fn min(a: int, b: int) -> int {
    if a < b { a } else { b }
}

/// How far a page of this height can scroll before its bottom reaches the
/// bottom of the window: 0 when the page fits.
pub open spec fn max_scroll(page_height: u32, window_height: u32) -> int {
    sat_sub(page_height as int, window_height as int)
}

/// The rows that `n` scroll steps move: the count is taken as a `u32`, as
/// `n as u32` truncates it.
pub open spec fn steps(n: usize) -> int {
    SCROLL_STEP * (n as int % 0x1_0000_0000)
}

/// A reaction that moves to `position` and asks for a redraw.
pub open spec fn move_to(page: int, scroll: int) -> Reaction {
    Reaction {
        position: Position { page: page as usize, scroll: scroll as u32 },
        changed: true,
        zoom: Zoom::Keep,
        land_at_bottom: false,
    }
}

/// A reaction that leaves everything as it is.
pub open spec fn stay(p: Position) -> Reaction {
    Reaction { position: p, changed: false, zoom: Zoom::Keep, land_at_bottom: false }
}

/// A reaction that moves to `page` and lands at its bottom once it is rendered.
pub open spec fn land_on(page: int, p: Position) -> Reaction {
    Reaction {
        position: Position { page: page as usize, scroll: p.scroll },
        changed: true,
        zoom: Zoom::Keep,
        land_at_bottom: true,
    }
}

/// A zoom change, which puts the view at the top of the page.
pub open spec fn zoom_to(zoom: Zoom, p: Position) -> Reaction {
    Reaction {
        position: Position { page: p.page, scroll: 0 },
        changed: true,
        zoom,
        land_at_bottom: false,
    }
}

/// What `command` does at position `p` of a document of `page_count` pages,
/// the current page being `page_height` rows tall in a window `window_height`
/// rows tall; `can_zoom_out` tells whether the zoom level may still go down.
pub open spec fn reaction_spec(
    command: Command,
    p: Position,
    page_count: usize,
    page_height: u32,
    window_height: u32,
    can_zoom_out: bool,
) -> Reaction {
    let max = max_scroll(page_height, window_height);
    let fits = page_height <= window_height;
    let last = page_count - 1;
    match command {
        Command::ScrollDown => if p.scroll < max {
            move_to(p.page as int, min(p.scroll + SCROLL_STEP, max))
        } else if p.page + 1 < page_count {
            move_to(p.page + 1, 0)
        } else {
            stay(p)
        },
        Command::ScrollDownN(n) => if p.scroll < max {
            move_to(p.page as int, min(p.scroll + steps(n), max))
        } else if fits {
            if p.page + n < page_count {
                move_to(p.page + n, 0)
            } else {
                move_to(last, p.scroll as int)
            }
        } else if p.page + 1 < page_count {
            move_to(p.page + 1, 0)
        } else {
            stay(p)
        },
        Command::ScrollUp => if p.scroll > 0 {
            move_to(p.page as int, sat_sub(p.scroll as int, SCROLL_STEP as int))
        } else if p.page > 0 {
            land_on(p.page - 1, p)
        } else {
            stay(p)
        },
        Command::ScrollUpN(n) => if p.scroll > 0 {
            move_to(p.page as int, sat_sub(p.scroll as int, steps(n)))
        } else if fits {
            if sat_sub(p.page as int, n as int) > 0 {
                move_to(p.page - n, 0)
            } else {
                move_to(0, p.scroll as int)
            }
        } else if p.page > 0 {
            land_on(p.page - 1, p)
        } else {
            stay(p)
        },
        Command::ZoomIn => zoom_to(Zoom::In, p),
        Command::ZoomOut => if can_zoom_out {
            zoom_to(Zoom::Out, p)
        } else {
            stay(p)
        },
        Command::JumpToStart => move_to(0, 0),
        Command::JumpToEnd => land_on(last, p),
        Command::JumpToPage(n) => move_to(min(n as int, last), 0),
    }
}

/// Decides what `command` does at `position`; see `reaction_spec`.
pub fn react(
    command: Command,
    position: Position,
    page_count: usize,
    page_height: u32,
    window_height: u32,
    can_zoom_out: bool,
) -> (r: Reaction)
    requires
        page_count >= 1,
        position.page < page_count,
    ensures
        r == reaction_spec(command, position, page_count, page_height, window_height, can_zoom_out),
        r.position.page < page_count,
{
    let max: u32 = if page_height > window_height { page_height - window_height } else { 0 };
    let fits = page_height <= window_height;
    let page = position.page;
    let scroll = position.scroll;
    let last = page_count - 1;
    let moved = |page: usize, scroll: u32| -> (r: Reaction)
        ensures r == move_to(page as int, scroll as int)
    {
        Reaction { position: Position { page, scroll }, changed: true, zoom: Zoom::Keep, land_at_bottom: false }
    };
    match command {
        Command::ScrollDown => {
            if scroll < max {
                let target: u64 = scroll as u64 + SCROLL_STEP as u64;
                let s: u32 = if target < max as u64 { target as u32 } else { max };
                moved(page, s)
            } else if page + 1 < page_count {
                moved(page + 1, 0)
            } else {
                Reaction { position, changed: false, zoom: Zoom::Keep, land_at_bottom: false }
            }
        },
        Command::ScrollDownN(n) => {
            if scroll < max {
                let count: u64 = (n as u64) % 0x1_0000_0000;
                let target: u64 = scroll as u64 + SCROLL_STEP as u64 * count;
                let s: u32 = if target < max as u64 { target as u32 } else { max };
                moved(page, s)
            } else if fits {
                if n < page_count - page {
                    moved(page + n, 0)
                } else {
                    moved(last, scroll)
                }
            } else if page + 1 < page_count {
                moved(page + 1, 0)
            } else {
                Reaction { position, changed: false, zoom: Zoom::Keep, land_at_bottom: false }
            }
        },
        Command::ScrollUp => {
            if scroll > 0 {
                moved(page, scroll.saturating_sub(SCROLL_STEP))
            } else if page > 0 {
                Reaction {
                    position: Position { page: page - 1, scroll },
                    changed: true,
                    zoom: Zoom::Keep,
                    land_at_bottom: true,
                }
            } else {
                Reaction { position, changed: false, zoom: Zoom::Keep, land_at_bottom: false }
            }
        },
        Command::ScrollUpN(n) => {
            if scroll > 0 {
                let count: u64 = (n as u64) % 0x1_0000_0000;
                let step: u64 = SCROLL_STEP as u64 * count;
                let s: u32 = if (scroll as u64) > step { (scroll as u64 - step) as u32 } else { 0 };
                moved(page, s)
            } else if fits {
                if page > n {
                    moved(page - n, 0)
                } else {
                    moved(0, scroll)
                }
            } else if page > 0 {
                Reaction {
                    position: Position { page: page - 1, scroll },
                    changed: true,
                    zoom: Zoom::Keep,
                    land_at_bottom: true,
                }
            } else {
                Reaction { position, changed: false, zoom: Zoom::Keep, land_at_bottom: false }
            }
        },
        Command::ZoomIn => Reaction {
            position: Position { page, scroll: 0 },
            changed: true,
            zoom: Zoom::In,
            land_at_bottom: false,
        },
        Command::ZoomOut => {
            if can_zoom_out {
                Reaction {
                    position: Position { page, scroll: 0 },
                    changed: true,
                    zoom: Zoom::Out,
                    land_at_bottom: false,
                }
            } else {
                Reaction { position, changed: false, zoom: Zoom::Keep, land_at_bottom: false }
            }
        },
        Command::JumpToStart => moved(0, 0),
        Command::JumpToEnd => Reaction {
            position: Position { page: last, scroll },
            changed: true,
            zoom: Zoom::Keep,
            land_at_bottom: true,
        },
        Command::JumpToPage(n) => moved(if n < last { n } else { last }, 0),
    }
}

/// The scroll position at which a page of `page_height` rows ends at the
/// bottom of a window of `window_height` rows: 0 when it fits.
pub fn bottom_scroll(page_height: u32, window_height: u32) -> (r: u32)
    ensures
        r == max_scroll(page_height, window_height),
{
    page_height.saturating_sub(window_height)
}

/// Whether the page shown after `reaction` still has to be rendered: it is a
/// new page and landing did not already render it.
pub fn needs_render(previous_page: usize, reaction: &Reaction) -> (r: bool)
    ensures
        r == (reaction.changed && reaction.position.page != previous_page
            && !reaction.land_at_bottom),
{
    reaction.changed && reaction.position.page != previous_page && !reaction.land_at_bottom
}

/// When the page fits in the window and the view is at its top, `j` turns
/// to the next page (at its top) if there is one, and does nothing on the last
/// page.
pub proof fn law_fitting_page_j_turns_forward(
    p: Position,
    page_count: usize,
    page_height: u32,
    window_height: u32,
    can_zoom_out: bool,
)
    requires
        page_height <= window_height,
        p.scroll == 0,
    ensures
        ({
            let r = reaction_spec(
                Command::ScrollDown,
                p,
                page_count,
                page_height,
                window_height,
                can_zoom_out,
            );
            if p.page + 1 < page_count {
                r.changed && r.position == (Position { page: (p.page + 1) as usize, scroll: 0 })
            } else {
                !r.changed && r.position == p
            }
        }),
{
}

/// When the page fits in the window and the view is at its top, `k` turns
/// back to the previous page, landing at its bottom, and does nothing on the
/// first page.
pub proof fn law_fitting_page_k_turns_back(
    p: Position,
    page_count: usize,
    page_height: u32,
    window_height: u32,
    can_zoom_out: bool,
)
    requires
        page_height <= window_height,
        p.scroll == 0,
    ensures
        ({
            let r = reaction_spec(
                Command::ScrollUp,
                p,
                page_count,
                page_height,
                window_height,
                can_zoom_out,
            );
            if p.page > 0 {
                r.changed && r.land_at_bottom && r.position.page == p.page - 1
            } else {
                !r.changed && r.position == p
            }
        }),
{
}

/// On a page taller than the window, `j` scrolls within the page until its
/// bottom reaches the bottom of the window, never past it; only there does it
/// turn to the next page.
pub proof fn law_tall_page_j_scrolls_first(
    p: Position,
    page_count: usize,
    page_height: u32,
    window_height: u32,
    can_zoom_out: bool,
)
    requires
        page_height > window_height,
        p.scroll <= max_scroll(page_height, window_height),
    ensures
        ({
            let r = reaction_spec(
                Command::ScrollDown,
                p,
                page_count,
                page_height,
                window_height,
                can_zoom_out,
            );
            if p.scroll < max_scroll(page_height, window_height) {
                &&& r.changed
                &&& r.position.page == p.page
                &&& p.scroll < r.position.scroll <= max_scroll(page_height, window_height)
            } else if p.page + 1 < page_count {
                r.changed && r.position == (Position { page: (p.page + 1) as usize, scroll: 0 })
            } else {
                !r.changed && r.position == p
            }
        }),
{
}

/// On a page taller than the window, `k` scrolls within the page until its
/// top is reached; only there does it turn back to the previous page,
/// landing at its bottom.
pub proof fn law_tall_page_k_scrolls_first(
    p: Position,
    page_count: usize,
    page_height: u32,
    window_height: u32,
    can_zoom_out: bool,
)
    requires
        page_height > window_height,
    ensures
        ({
            let r = reaction_spec(
                Command::ScrollUp,
                p,
                page_count,
                page_height,
                window_height,
                can_zoom_out,
            );
            if p.scroll > 0 {
                r.changed && r.position.page == p.page && r.position.scroll < p.scroll
            } else if p.page > 0 {
                r.changed && r.land_at_bottom && r.position.page == p.page - 1
            } else {
                !r.changed && r.position == p
            }
        }),
{
}

/// A count of one moves exactly as the plain command: `1j` goes where `j` goes.
pub proof fn law_count_of_one_is_one_step(
    p: Position,
    page_count: usize,
    page_height: u32,
    window_height: u32,
    can_zoom_out: bool,
)
    requires
        page_count >= 1,
        p.page < page_count,
    ensures
        reaction_spec(
            Command::ScrollDownN(1),
            p,
            page_count,
            page_height,
            window_height,
            can_zoom_out,
        ).position == reaction_spec(
            Command::ScrollDown,
            p,
            page_count,
            page_height,
            window_height,
            can_zoom_out,
        ).position,
{
}

/// `gg` goes to the top of the first page, `Ngg` to the top of page `N`
/// (clamped to the last page), and `G` to the last page, landing at its bottom.
pub proof fn law_jumps(
    p: Position,
    n: usize,
    page_count: usize,
    page_height: u32,
    window_height: u32,
    can_zoom_out: bool,
)
    requires
        page_count >= 1,
    ensures
        reaction_spec(Command::JumpToStart, p, page_count, page_height, window_height, can_zoom_out).position
            == (Position { page: 0, scroll: 0 }),
        reaction_spec(Command::JumpToPage(n), p, page_count, page_height, window_height, can_zoom_out).position
            == (Position { page: if n < page_count { n } else { (page_count - 1) as usize }, scroll: 0 }),
        ({
            let r = reaction_spec(Command::JumpToEnd, p, page_count, page_height, window_height, can_zoom_out);
            r.land_at_bottom && r.position.page == page_count - 1
        }),
{
}

/// Landing at the bottom puts the last row of a tall page at the last row of
/// the window, and the top of a page that fits at the top.
pub proof fn law_landing_at_bottom(page_height: u32, window_height: u32)
    ensures
        page_height > window_height ==> max_scroll(page_height, window_height) + window_height
            == page_height,
        page_height <= window_height ==> max_scroll(page_height, window_height) == 0,
{
}

/// On a page that fits the window, with the view at its top, `Nk` goes back
/// `N` pages, stopping at the first page: it lands on page `page - N` when
/// that exists and on page 0 otherwise, at the top, and always reports a
/// change (as `Nj` stops at the last page).
pub proof fn law_counted_scroll_up_clamps_at_first_page(
    p: Position,
    n: usize,
    page_count: usize,
    page_height: u32,
    window_height: u32,
    can_zoom_out: bool,
)
    requires
        page_height <= window_height,
        p.scroll == 0,
    ensures
        ({
            let r = reaction_spec(
                Command::ScrollUpN(n),
                p,
                page_count,
                page_height,
                window_height,
                can_zoom_out,
            );
            &&& r.changed
            &&& !r.land_at_bottom
            &&& r.zoom == Zoom::Keep
            &&& r.position.scroll == 0
            &&& r.position.page == (if n < p.page { p.page - n } else { 0 })
        }),
{
}

/// On a page that fits the window, with the view at its top, `Nj` goes on
/// `N` pages, stopping at the last page, at the top, and always reports a
/// change.
pub proof fn law_counted_scroll_down_clamps_at_last_page(
    p: Position,
    n: usize,
    page_count: usize,
    page_height: u32,
    window_height: u32,
    can_zoom_out: bool,
)
    requires
        page_count >= 1,
        p.page < page_count,
        page_height <= window_height,
        p.scroll == 0,
    ensures
        ({
            let r = reaction_spec(
                Command::ScrollDownN(n),
                p,
                page_count,
                page_height,
                window_height,
                can_zoom_out,
            );
            &&& r.changed
            &&& !r.land_at_bottom
            &&& r.zoom == Zoom::Keep
            &&& r.position.scroll == 0
            &&& r.position.page == (if p.page + n < page_count { p.page + n } else { page_count - 1 })
        }),
{
}

/// `+` always zooms in and `-` zooms out only while the zoom level may go
/// down; a zoom keeps the page and puts the view at its top, and a refused
/// zoom out changes nothing.
pub proof fn law_zoom(
    p: Position,
    page_count: usize,
    page_height: u32,
    window_height: u32,
    can_zoom_out: bool,
)
    ensures
        ({
            let r = reaction_spec(Command::ZoomIn, p, page_count, page_height, window_height, can_zoom_out);
            r.zoom == Zoom::In && r.changed && !r.land_at_bottom && r.position == (Position {
                page: p.page,
                scroll: 0,
            })
        }),
        ({
            let r = reaction_spec(Command::ZoomOut, p, page_count, page_height, window_height, can_zoom_out);
            if can_zoom_out {
                r.zoom == Zoom::Out && r.changed && !r.land_at_bottom && r.position == (Position {
                    page: p.page,
                    scroll: 0,
                })
            } else {
                r.zoom == Zoom::Keep && !r.changed && !r.land_at_bottom && r.position == p
            }
        }),
{
}

} // verus!
