//! What the key parser promises over whole key sequences: counts typed in
//! front of `gg`, `j` and `k`, and the invariants of a single read.
use vstd::prelude::*;
use crate::decimal::{
    all_digits, decimal, digit_value, digits_value, is_digit, lemma_decimal,
    lemma_parse_after_decimal, lemma_shift_in_prefix, parse_usize, shift_in, unsigned_digits,
};
use crate::parser::{at_node, find_spec, read_spec, standard_states, Command, ParserView, StateView};

verus! {

/// Reads the keys one after the other: the parser afterwards, and what each
/// read emitted.
pub open spec fn run(p: ParserView, keys: Seq<Seq<char>>) -> (ParserView, Seq<Option<Command>>)
    decreases keys.len(),
{
    if keys.len() == 0 {
        (p, Seq::empty())
    } else {
        let (q, outputs) = run(p, keys.drop_last());
        let (r, output) = read_spec(q, keys.last());
        (r, outputs.push(output))
    }
}

/// The characters of `s`, typed one key each.
pub open spec fn one_key_each(s: Seq<char>) -> Seq<Seq<char>> {
    Seq::new(s.len(), |i: int| seq![s[i]])
}

/// A freshly initialised parser: the standard trie, at its root, no count.
pub open spec fn fresh_parser() -> ParserView {
    ParserView { states: standard_states(), current: 0, num_buffer: 0 }
}

/// The standard trie at its root with the count `n`.
pub open spec fn counting(n: usize) -> ParserView {
    ParserView { states: standard_states(), current: 0, num_buffer: n }
}

/// Reading a number never emits a command, never moves in the trie, and
/// leaves the trie alone.
pub proof fn law_numbers_emit_nothing(p: ParserView, letter: Seq<char>)
    requires
        parse_usize(letter) is Some,
    ensures
        read_spec(p, letter).1 is None,
        read_spec(p, letter).0.current == p.current,
        read_spec(p, letter).0.states == p.states,
{
}

/// No read changes the trie.
pub proof fn law_trie_is_fixed(p: ParserView, letter: Seq<char>)
    ensures
        read_spec(p, letter).0.states == p.states,
{
}

/// Whenever a read emits a command, the parser is back at its root with no
/// count.
pub proof fn law_command_returns_to_rest(p: ParserView, letter: Seq<char>)
    ensures
        read_spec(p, letter).1 is Some ==> read_spec(p, letter).0.current == 0
            && read_spec(p, letter).0.num_buffer == 0,
{
}

/// Typing the first `k` digits of `n`, one key each, into a fresh parser only
/// accumulates their value as the count.
proof fn lemma_typing_digits(n: nat, k: int)
    requires
        n <= usize::MAX,
        0 <= k <= decimal(n).len(),
    ensures
        run(fresh_parser(), one_key_each(decimal(n).take(k))) == (
            counting(digits_value(decimal(n).take(k)) as usize),
            Seq::new(k as nat, |i: int| None::<Command>),
        ),
    decreases k,
{
    let d = decimal(n);
    lemma_decimal(n);
    if k == 0 {
        assert(one_key_each(d.take(0)) =~= Seq::<Seq<char>>::empty());
        assert(d.take(0) =~= Seq::<char>::empty());
        assert(Seq::new(0, |i: int| None::<Command>) =~= Seq::<Option<Command>>::empty());
    } else {
        lemma_typing_digits(n, k - 1);
        let keys = one_key_each(d.take(k));
        assert(keys.drop_last() =~= one_key_each(d.take(k - 1)));
        let c = d[k - 1];
        assert(keys.last() =~= seq![c]);
        assert(is_digit(c));
        let v = digits_value(d.take(k - 1));
        assert(d.take(k).drop_last() =~= d.take(k - 1));
        assert(d.take(k).last() == c);
        assert(digits_value(d.take(k)) == v * 10 + digit_value(c));
        lemma_shift_in_prefix(0, d, k);
        lemma_shift_in_prefix(0, d, k - 1);
        // the single digit is a number
        assert(unsigned_digits(seq![c]) == seq![c]);
        assert(seq![c].drop_last() =~= Seq::<char>::empty());
        assert(shift_in(0, Seq::<char>::empty()) == 0);
        assert(digits_value(seq![c]) == digit_value(c));
        assert(all_digits(seq![c]));
        // and it extends the count
        lemma_parse_after_decimal(v, seq![c]);
        assert(seq![c].drop_last() =~= Seq::<char>::empty());
        assert(seq![c].last() == c);
        assert(shift_in(v, Seq::<char>::empty()) == v);
        assert(shift_in(v, seq![c]) == v * 10 + digit_value(c));
        assert(Seq::new(k as nat, |i: int| None::<Command>) =~= Seq::new(
            (k - 1) as nat,
            |i: int| None::<Command>,
        ).push(None));
    }
}

/// Typing the digits of `n` into a fresh parser, one key each, sets the count to `n`.
proof fn lemma_typing_count(n: nat)
    requires
        n <= usize::MAX,
    ensures
        run(fresh_parser(), one_key_each(decimal(n))) == (
            counting(n as usize),
            Seq::new(decimal(n).len(), |i: int| None::<Command>),
        ),
{
    lemma_decimal(n);
    lemma_typing_digits(n, decimal(n).len() as int);
    assert(decimal(n).take(decimal(n).len() as int) =~= decimal(n));
}

/// Running keys that end with `last`: the step of `last` after the rest.
proof fn lemma_run_last(p: ParserView, keys: Seq<Seq<char>>, last: Seq<char>)
    ensures
        run(p, keys.push(last)) == ({
            let (q, outputs) = run(p, keys);
            let (r, output) = read_spec(q, last);
            (r, outputs.push(output))
        }),
{
    assert(keys.push(last).drop_last() =~= keys);
}

/// With a count, `g` at the root leads to the count-sensitive `g` node.
proof fn lemma_counted_g(n: usize)
    requires
        n >= 1,
    ensures
        read_spec(counting(n), "g"@) == (at_node(counting(n), 8), None::<Command>),
{
    reveal_strlit("g");
    reveal_strlit("j");
    reveal_strlit("k");
    reveal_strlit("+");
    reveal_strlit("-");
    reveal_strlit("G");
    reveal_with_fuel(find_spec, 8);
    let p = counting(n);
    assert(p.states[0].value + "g"@ =~= "g"@);
}

/// With a count, `g` at the count-sensitive `g` node jumps to the counted page.
proof fn lemma_counted_gg(n: usize)
    requires
        n >= 1,
    ensures
        read_spec(at_node(counting(n), 8), "g"@) == (fresh_parser(), Some(
            Command::JumpToPage((n - 1) as usize),
        )),
{
    reveal_strlit("g");
    reveal_strlit("gg");
    reveal_with_fuel(find_spec, 2);
    let p = at_node(counting(n), 8);
    assert(p.states[8].value + "g"@ =~= "gg"@);
}

/// `Ngg` goes to page `N`: typing a count `N >= 1` and then `g`, `g` into a
/// fresh parser emits nothing until the last `g`, which emits a jump to the
/// page of index `N - 1`, and leaves the parser fresh again.
pub proof fn law_count_gg_jumps_to_page(n: nat)
    requires
        1 <= n <= usize::MAX,
    ensures
        ({
            let keys = one_key_each(decimal(n)).push("g"@).push("g"@);
            let (q, outputs) = run(fresh_parser(), keys);
            &&& q == fresh_parser()
            &&& outputs.len() == keys.len()
            &&& outputs.last() == Some(Command::JumpToPage((n - 1) as usize))
            &&& forall|i: int| 0 <= i < outputs.len() - 1 ==> outputs[i] is None
        }),
{
    lemma_typing_count(n);
    let digits = one_key_each(decimal(n));
    lemma_run_last(fresh_parser(), digits, "g"@);
    lemma_run_last(fresh_parser(), digits.push("g"@), "g"@);
    lemma_counted_g(n as usize);
    lemma_counted_gg(n as usize);
}

/// With a count, `j` at the root scrolls down that many times.
proof fn lemma_counted_j(n: usize)
    requires
        n >= 1,
    ensures
        read_spec(counting(n), "j"@) == (fresh_parser(), Some(Command::ScrollDownN(n))),
{
    reveal_strlit("g");
    reveal_strlit("j");
    reveal_strlit("k");
    reveal_strlit("+");
    reveal_strlit("-");
    reveal_strlit("G");
    reveal_with_fuel(find_spec, 9);
    let p = counting(n);
    assert(p.states[0].value + "j"@ =~= "j"@);
}

/// With a count, `k` at the root scrolls up that many times.
proof fn lemma_counted_k(n: usize)
    requires
        n >= 1,
    ensures
        read_spec(counting(n), "k"@) == (fresh_parser(), Some(Command::ScrollUpN(n))),
{
    reveal_strlit("g");
    reveal_strlit("j");
    reveal_strlit("k");
    reveal_strlit("+");
    reveal_strlit("-");
    reveal_strlit("G");
    reveal_with_fuel(find_spec, 10);
    let p = counting(n);
    assert(p.states[0].value + "k"@ =~= "k"@);
}

/// `Nj` scrolls down `N` times: typing a count `N >= 1` and then `j` into a
/// fresh parser emits nothing until `j`, which emits `ScrollDownN(N)`, and
/// leaves the parser fresh again.
pub proof fn law_count_j_scrolls_down(n: nat)
    requires
        1 <= n <= usize::MAX,
    ensures
        ({
            let keys = one_key_each(decimal(n)).push("j"@);
            let (q, outputs) = run(fresh_parser(), keys);
            &&& q == fresh_parser()
            &&& outputs.len() == keys.len()
            &&& outputs.last() == Some(Command::ScrollDownN(n as usize))
            &&& forall|i: int| 0 <= i < outputs.len() - 1 ==> outputs[i] is None
        }),
{
    lemma_typing_count(n);
    lemma_run_last(fresh_parser(), one_key_each(decimal(n)), "j"@);
    lemma_counted_j(n as usize);
}

/// `Nk` scrolls up `N` times: typing a count `N >= 1` and then `k` into a
/// fresh parser emits nothing until `k`, which emits `ScrollUpN(N)`, and leaves
/// the parser fresh again.
pub proof fn law_count_k_scrolls_up(n: nat)
    requires
        1 <= n <= usize::MAX,
    ensures
        ({
            let keys = one_key_each(decimal(n)).push("k"@);
            let (q, outputs) = run(fresh_parser(), keys);
            &&& q == fresh_parser()
            &&& outputs.len() == keys.len()
            &&& outputs.last() == Some(Command::ScrollUpN(n as usize))
            &&& forall|i: int| 0 <= i < outputs.len() - 1 ==> outputs[i] is None
        }),
{
    lemma_typing_count(n);
    lemma_run_last(fresh_parser(), one_key_each(decimal(n)), "k"@);
    lemma_counted_k(n as usize);
}

/// The nodes that an initialised parser can be at: the root and the two `g`
/// nodes, with the standard trie.
pub open spec fn at_reachable_node(p: ParserView) -> bool {
    &&& p.states == standard_states()
    &&& (p.current == 0 || p.current == 1 || p.current == 8)
}

/// A node that a search finds is one of the nodes searched.
proof fn lemma_found_in_next(
    states: Seq<StateView>,
    next: Seq<usize>,
    word: Seq<char>,
    number_sensitive: bool,
)
    ensures
        find_spec(states, next, word, number_sensitive) matches Some(j) ==> next.contains(j),
    decreases next.len(),
{
    if next.len() > 0 {
        lemma_found_in_next(states, next.drop_first(), word, number_sensitive);
        if let Some(j) = find_spec(states, next.drop_first(), word, number_sensitive) {
            if next.drop_first().contains(j) {
                let k = choose|k: int| 0 <= k < next.drop_first().len() && next.drop_first()[k] == j;
                assert(next[k + 1] == j);
            }
        }
    }
}

/// Among the nodes that a reachable node leads to, only the two `g` nodes
/// carry no command.
proof fn lemma_successors_without_command(current: usize, j: usize)
    requires
        current == 0 || current == 1 || current == 8,
        standard_states()[current as int].next.contains(j),
        standard_states()[j as int].command is None,
    ensures
        j == 1 || j == 8,
{
    let next = standard_states()[current as int].next;
    let k = choose|k: int| 0 <= k < next.len() && next[k] == j;
    assert(0 <= k < next.len() && next[k] == j);
}

/// One read keeps an initialised parser at a reachable node.
proof fn lemma_read_stays_reachable(p: ParserView, letter: Seq<char>)
    requires
        at_reachable_node(p),
    ensures
        at_reachable_node(read_spec(p, letter).0),
{
    let word = p.states[p.current as int].value + letter;
    let next = p.states[p.current as int].next;
    lemma_found_in_next(p.states, next, word, true);
    lemma_found_in_next(p.states, next, word, false);
    if let Some(j) = find_spec(p.states, next, word, true) {
        if p.states[j as int].command is None {
            lemma_successors_without_command(p.current, j);
        }
    }
    if let Some(j) = find_spec(p.states, next, word, false) {
        if p.states[j as int].command is None {
            lemma_successors_without_command(p.current, j);
        }
    }
}

/// Whatever keys are typed into a fresh parser, its trie stays the standard
/// one, it is only ever at the root or at one of the two `g` nodes, and after
/// a read that emits a command it is at the root with no count.
pub proof fn law_reachable_nodes(keys: Seq<Seq<char>>)
    ensures
        ({
            let (q, outputs) = run(fresh_parser(), keys);
            &&& at_reachable_node(q)
            &&& outputs.len() == keys.len()
            &&& (outputs.len() > 0 && outputs.last() is Some) ==> q.current == 0 && q.num_buffer == 0
        }),
    decreases keys.len(),
{
    if keys.len() > 0 {
        law_reachable_nodes(keys.drop_last());
        let (q, outputs) = run(fresh_parser(), keys.drop_last());
        lemma_read_stays_reachable(q, keys.last());
        law_command_returns_to_rest(q, keys.last());
    }
}

} // verus!
