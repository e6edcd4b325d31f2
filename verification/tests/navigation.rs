use vipdf::navigation::{bottom_scroll, needs_render, react, Position, Reaction, Zoom};
use vipdf::parser::Command;

fn at(page: usize, scroll: u32) -> Position {
    Position { page, scroll }
}

fn moved(page: usize, scroll: u32) -> Reaction {
    Reaction { position: at(page, scroll), changed: true, zoom: Zoom::Keep, land_at_bottom: false }
}

fn stayed(page: usize, scroll: u32) -> Reaction {
    Reaction { position: at(page, scroll), changed: false, zoom: Zoom::Keep, land_at_bottom: false }
}

fn landing(page: usize, scroll: u32) -> Reaction {
    Reaction { position: at(page, scroll), changed: true, zoom: Zoom::Keep, land_at_bottom: true }
}

#[test]
fn j_on_fitting_page_turns_the_page() {
    assert_eq!(react(Command::ScrollDown, at(0, 0), 3, 500, 800, true), moved(1, 0));
    assert_eq!(react(Command::ScrollDown, at(2, 0), 3, 500, 800, true), stayed(2, 0));
}

#[test]
fn j_on_tall_page_scrolls_first() {
    assert_eq!(react(Command::ScrollDown, at(0, 0), 3, 1000, 800, true), moved(0, 40));
    assert_eq!(react(Command::ScrollDown, at(0, 190), 3, 1000, 800, true), moved(0, 200));
    assert_eq!(react(Command::ScrollDown, at(0, 200), 3, 1000, 800, true), moved(1, 0));
}

#[test]
fn k_scrolls_up_then_lands_at_bottom_of_previous_page() {
    assert_eq!(react(Command::ScrollUp, at(1, 30), 3, 1000, 800, true), moved(1, 0));
    assert_eq!(react(Command::ScrollUp, at(1, 100), 3, 1000, 800, true), moved(1, 60));
    assert_eq!(react(Command::ScrollUp, at(1, 0), 3, 1000, 800, true), landing(0, 0));
    assert_eq!(react(Command::ScrollUp, at(0, 0), 3, 1000, 800, true), stayed(0, 0));
}

#[test]
fn counted_j() {
    // fitting page: turn n pages, or to the last
    assert_eq!(react(Command::ScrollDownN(2), at(0, 0), 5, 500, 800, true), moved(2, 0));
    assert_eq!(react(Command::ScrollDownN(9), at(1, 0), 5, 500, 800, true), moved(4, 0));
    // tall page: scroll n steps, not past the bottom
    assert_eq!(react(Command::ScrollDownN(3), at(0, 0), 5, 1000, 800, true), moved(0, 120));
    assert_eq!(react(Command::ScrollDownN(9), at(0, 0), 5, 1000, 800, true), moved(0, 200));
    // tall page at its bottom: one page on
    assert_eq!(react(Command::ScrollDownN(3), at(0, 200), 5, 1000, 800, true), moved(1, 0));
    // a count whose u32 truncation is 0 scrolls nothing
    assert_eq!(react(Command::ScrollDownN(1usize << 32), at(0, 0), 5, 1000, 800, true), moved(0, 0));
}

#[test]
fn counted_k() {
    assert_eq!(react(Command::ScrollUpN(2), at(3, 0), 5, 500, 800, true), moved(1, 0));
    assert_eq!(react(Command::ScrollUpN(3), at(3, 0), 5, 500, 800, true), moved(0, 0));
    assert_eq!(react(Command::ScrollUpN(2), at(3, 100), 5, 1000, 800, true), moved(3, 20));
    assert_eq!(react(Command::ScrollUpN(2), at(3, 0), 5, 1000, 800, true), landing(2, 0));
}

#[test]
fn zoom() {
    let zoomed_in = Reaction { position: at(1, 0), changed: true, zoom: Zoom::In, land_at_bottom: false };
    assert_eq!(react(Command::ZoomIn, at(1, 70), 3, 1000, 800, true), zoomed_in);
    let zoomed_out = Reaction { position: at(1, 0), changed: true, zoom: Zoom::Out, land_at_bottom: false };
    assert_eq!(react(Command::ZoomOut, at(1, 70), 3, 1000, 800, true), zoomed_out);
    assert_eq!(react(Command::ZoomOut, at(1, 70), 3, 1000, 800, false), stayed(1, 70));
}

#[test]
fn jumps() {
    assert_eq!(react(Command::JumpToStart, at(2, 70), 3, 1000, 800, true), moved(0, 0));
    assert_eq!(react(Command::JumpToEnd, at(0, 70), 3, 1000, 800, true), landing(2, 70));
    assert_eq!(react(Command::JumpToPage(1), at(0, 70), 3, 1000, 800, true), moved(1, 0));
    assert_eq!(react(Command::JumpToPage(99), at(0, 70), 3, 1000, 800, true), moved(2, 0));
}

#[test]
fn landing_and_rendering() {
    assert_eq!(bottom_scroll(1000, 800), 200);
    assert_eq!(bottom_scroll(500, 800), 0);
    assert!(needs_render(0, &moved(1, 0)));
    assert!(!needs_render(1, &moved(1, 0)));
    assert!(!needs_render(1, &landing(0, 0)));
    assert!(!needs_render(0, &stayed(1, 0)));
}
