use vipdf::parser::{Command, KeyParser};

fn fresh() -> KeyParser {
    let mut p = KeyParser::default();
    p.init();
    p
}

fn feed(p: &mut KeyParser, keys: &[&str]) -> Vec<Option<Command>> {
    keys.iter().map(|k| p.read(k.to_string())).collect()
}

#[test]
fn gg_jumps_to_start() {
    let mut p = fresh();
    assert_eq!(feed(&mut p, &["g", "g"]), vec![None, Some(Command::JumpToStart)]);
}

#[test]
fn single_keys_emit_their_commands() {
    let mut p = fresh();
    assert_eq!(p.read("j".to_string()), Some(Command::ScrollDown));
    assert_eq!(p.read("k".to_string()), Some(Command::ScrollUp));
    assert_eq!(p.read("+".to_string()), Some(Command::ZoomIn));
    assert_eq!(p.read("-".to_string()), Some(Command::ZoomOut));
    assert_eq!(p.read("G".to_string()), Some(Command::JumpToEnd));
}

#[test]
fn count_gg_jumps_to_page() {
    let mut p = fresh();
    assert_eq!(
        feed(&mut p, &["1", "2", "g", "g"]),
        vec![None, None, None, Some(Command::JumpToPage(11))]
    );
    // the parser is back at rest: plain gg again
    assert_eq!(feed(&mut p, &["g", "g"]), vec![None, Some(Command::JumpToStart)]);
}

#[test]
fn count_as_one_word() {
    let mut p = fresh();
    assert_eq!(feed(&mut p, &["42", "g", "g"]), vec![None, None, Some(Command::JumpToPage(41))]);
}

#[test]
fn count_j_and_k_repeat() {
    let mut p = fresh();
    assert_eq!(feed(&mut p, &["3", "j"]), vec![None, Some(Command::ScrollDownN(3))]);
    assert_eq!(feed(&mut p, &["1", "0", "k"]), vec![None, None, Some(Command::ScrollUpN(10))]);
}

#[test]
fn zero_count_is_no_count() {
    let mut p = fresh();
    assert_eq!(feed(&mut p, &["0", "g", "g"]), vec![None, None, Some(Command::JumpToStart)]);
    assert_eq!(feed(&mut p, &["0", "5", "j"]), vec![None, None, Some(Command::ScrollDownN(5))]);
}

#[test]
fn count_is_dropped_for_keys_without_count() {
    let mut p = fresh();
    // there is no count-sensitive `+`: the count is dropped, and so is the zoom
    assert_eq!(feed(&mut p, &["7", "+"]), vec![None, None]);
    // and the count is gone afterwards
    assert_eq!(feed(&mut p, &["g", "g"]), vec![None, Some(Command::JumpToStart)]);
}

#[test]
fn unknown_letter_returns_to_root() {
    let mut p = fresh();
    assert_eq!(feed(&mut p, &["g", "x", "g", "g"]), vec![None, None, None, Some(Command::JumpToStart)]);
    assert_eq!(feed(&mut p, &["x", "j"]), vec![None, Some(Command::ScrollDown)]);
}

#[test]
fn count_then_g_then_other_key_loses_key() {
    let mut p = fresh();
    // `5g` reaches the count-sensitive `g`; `j` then matches nothing from there
    assert_eq!(feed(&mut p, &["5", "g", "j"]), vec![None, None, None]);
    // back at the root without a count
    assert_eq!(p.read("j".to_string()), Some(Command::ScrollDown));
}

#[test]
fn digit_typed_inside_a_word_becomes_a_count() {
    let mut p = fresh();
    // `g`, then `5` (a count), then `g`: no count-sensitive `gg` below the plain
    // `g`, so the count is dropped, and with it the jump; the parser is at the root
    assert_eq!(feed(&mut p, &["g", "5", "g"]), vec![None, None, None]);
    assert_eq!(feed(&mut p, &["g", "g"]), vec![None, Some(Command::JumpToStart)]);
}

#[test]
fn overflowing_count_restarts_from_last_digits() {
    let mut p = fresh();
    let mut keys: Vec<&str> = vec!["9"; 20];
    keys.push("7");
    keys.push("g");
    keys.push("g");
    let out = feed(&mut p, &keys);
    // nineteen nines fit in a usize, twenty do not: the count restarts at 9, then 97
    assert_eq!(out.last().cloned().flatten(), Some(Command::JumpToPage(96)));
}

#[test]
fn plus_sign_number_replaces_the_count() {
    let mut p = fresh();
    // "+5" parses as a number, but "3+5" does not: the count becomes 5
    assert_eq!(feed(&mut p, &["3", "+5", "j"]), vec![None, None, Some(Command::ScrollDownN(5))]);
    // a lone "+" is no number: it zooms in
    assert_eq!(p.read("+".to_string()), Some(Command::ZoomIn));
}

#[test]
fn default_parser_emits_nothing() {
    let mut p = KeyParser::default();
    assert_eq!(feed(&mut p, &["g", "g", "j", "k", "G", "3", "j"]), vec![None; 7]);
}

#[test]
fn init_keeps_a_typed_count() {
    let mut p = KeyParser::default();
    assert_eq!(p.read("4".to_string()), None);
    p.init();
    assert_eq!(p.read("j".to_string()), Some(Command::ScrollDownN(4)));
}
