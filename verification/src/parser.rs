//! The key-sequence parser: a trie of key words that turns the letters typed
//! by the user into navigation commands, with an optional decimal count typed
//! in front of a word.
use vstd::prelude::*;
use crate::decimal::{decimal, parse_decimal, parse_decimal_after, parse_usize};

verus! {

/// A navigation request decoded from the keyboard.
#[derive(Clone, Copy, Debug, PartialEq, Eq, Structural)]
pub enum Command {
    ScrollUp,
    ScrollDown,
    JumpToStart,
    JumpToEnd,
    ZoomIn,
    ZoomOut,
    /// Jump to the page of this (zero-based) index.
    JumpToPage(usize),
    /// Scroll up, or turn back, this many times.
    ScrollUpN(usize),
    /// Scroll down, or turn forward, this many times.
    ScrollDownN(usize),
}

/// A node of the key trie, as a mathematical value.
pub struct StateView {
    /// The key word that leads to this node.
    pub value: Seq<char>,
    /// The command that reaching this node emits, if any.
    pub command: Option<Command>,
    /// The indices of the nodes that one more letter can lead to, in search order.
    pub next: Seq<usize>,
    /// Whether this node is only reachable while a count has been typed.
    pub number_sensitive: bool,
}

/// The parser as a mathematical value: its trie (node 0 is the root), the node
/// reached so far, and the count typed so far (0 when none).
pub struct ParserView {
    pub states: Seq<StateView>,
    pub current: usize,
    pub num_buffer: usize,
}

/// The commands that a count-sensitive node may carry: placeholders whose
/// argument the typed count fills in.
pub open spec fn is_count_placeholder(c: Option<Command>) -> bool {
    match c {
        None => true,
        Some(Command::JumpToPage(n)) => n == 0,
        Some(Command::ScrollDownN(n)) => n == 0,
        Some(Command::ScrollUpN(n)) => n == 0,
        Some(_) => false,
    }
}

/// A parser whose trie is closed (every edge leads to a node), whose current
/// node exists, and whose count-sensitive nodes carry only placeholders.
pub open spec fn parser_wf(p: ParserView) -> bool {
    &&& p.states.len() >= 1
    &&& p.current < p.states.len()
    &&& forall|i: int, j: int|
        0 <= i < p.states.len() && 0 <= j < p.states[i].next.len() ==> #[trigger] p.states[i].next[j]
            < p.states.len()
    &&& forall|i: int|
        0 <= i < p.states.len() && #[trigger] p.states[i].number_sensitive ==> is_count_placeholder(
            p.states[i].command,
        )
}

/// Whether the node `s` answers the word `word` in the given count mode.
pub open spec fn answers(s: StateView, word: Seq<char>, number_sensitive: bool) -> bool {
    s.value == word && s.number_sensitive == number_sensitive
}

/// The first of the nodes `next` that answers `word` in the given count mode.
pub open spec fn find_spec(
    states: Seq<StateView>,
    next: Seq<usize>,
    word: Seq<char>,
    number_sensitive: bool,
) -> Option<usize>
    decreases next.len(),
{
    if next.len() == 0 {
        None
    } else if answers(states[next[0] as int], word, number_sensitive) {
        Some(next[0])
    } else {
        find_spec(states, next.drop_first(), word, number_sensitive)
    }
}

/// The parser at node `current`, all else unchanged.
pub open spec fn at_node(p: ParserView, current: usize) -> ParserView {
    ParserView { states: p.states, current, num_buffer: p.num_buffer }
}

/// The parser back at the root with the count cleared.
pub open spec fn at_rest(p: ParserView) -> ParserView {
    ParserView { states: p.states, current: 0, num_buffer: 0 }
}

/// One step without a count: follow the word if a plain node answers it,
/// emitting that node's command (and going back to the root) if it has one;
/// go back to the root if no node answers.
pub open spec fn plain_step(p: ParserView, word: Seq<char>) -> (ParserView, Option<Command>) {
    match find_spec(p.states, p.states[p.current as int].next, word, false) {
        Some(j) => match p.states[j as int].command {
            None => (at_node(p, j), None),
            Some(c) => (at_node(p, 0), Some(c)),
        },
        None => (at_node(p, 0), None),
    }
}

/// One step with a count typed: follow the word if a count-sensitive node
/// answers it, filling the count into its placeholder command; otherwise drop
/// the count and move as a plain step with the same word would, emitting
/// nothing: the command of the node reached that way is dropped with the count.
pub open spec fn counted_step(p: ParserView, word: Seq<char>) -> (ParserView, Option<Command>) {
    match find_spec(p.states, p.states[p.current as int].next, word, true) {
        Some(j) => match p.states[j as int].command {
            None => (at_node(p, j), None),
            Some(Command::JumpToPage(_)) => (
                at_rest(p),
                Some(Command::JumpToPage((p.num_buffer - 1) as usize)),
            ),
            Some(Command::ScrollDownN(_)) => (at_rest(p), Some(Command::ScrollDownN(p.num_buffer))),
            Some(Command::ScrollUpN(_)) => (at_rest(p), Some(Command::ScrollUpN(p.num_buffer))),
            Some(_) => (p, None),
        },
        None => (
            plain_step(ParserView { states: p.states, current: p.current, num_buffer: 0 }, word).0,
            None,
        ),
    }
}

/// The count after typing the number `letter`: the digits of the count so far
/// followed by those of `letter`, or `letter` alone when that is no `usize`.
pub open spec fn extended_count(num_buffer: usize, letter: Seq<char>, value: usize) -> usize {
    match parse_usize(decimal(num_buffer as nat) + letter) {
        Some(w) => w,
        None => value,
    }
}

/// What reading `letter` does to the parser `p`, and what it emits.
pub open spec fn read_spec(p: ParserView, letter: Seq<char>) -> (ParserView, Option<Command>) {
    match parse_usize(letter) {
        Some(value) => (
            ParserView {
                states: p.states,
                current: p.current,
                num_buffer: extended_count(p.num_buffer, letter, value),
            },
            None,
        ),
        None => {
            let word = p.states[p.current as int].value + letter;
            if p.num_buffer != 0 {
                counted_step(p, word)
            } else {
                plain_step(p, word)
            }
        },
    }
}

/// The node of a value as it stands in the trie.
pub open spec fn node(
    value: Seq<char>,
    command: Option<Command>,
    next: Seq<usize>,
    number_sensitive: bool,
) -> StateView {
    StateView { value, command, next, number_sensitive }
}

/// The trie that `KeyParser::init` builds.
pub open spec fn standard_states() -> Seq<StateView> {
    seq![
        node(Seq::empty(), None, seq![1usize, 3, 4, 5, 6, 7, 8, 10, 11], false),
        node("g"@, None, seq![2usize], false),
        node("gg"@, Some(Command::JumpToStart), Seq::empty(), false),
        node("j"@, Some(Command::ScrollDown), Seq::empty(), false),
        node("k"@, Some(Command::ScrollUp), Seq::empty(), false),
        node("+"@, Some(Command::ZoomIn), Seq::empty(), false),
        node("-"@, Some(Command::ZoomOut), Seq::empty(), false),
        node("G"@, Some(Command::JumpToEnd), Seq::empty(), false),
        node("g"@, None, seq![9usize], true),
        node("gg"@, Some(Command::JumpToPage(0)), Seq::empty(), true),
        node("j"@, Some(Command::ScrollDownN(0)), Seq::empty(), true),
        node("k"@, Some(Command::ScrollUpN(0)), Seq::empty(), true),
    ]
}

struct State {
    value: String,
    command: Option<Command>,
    next: Vec<usize>,
    number_sensitive: bool,
}

impl View for State {
    type V = StateView;

    closed spec fn view(&self) -> StateView {
        StateView {
            value: self.value@,
            command: self.command,
            next: self.next@,
            number_sensitive: self.number_sensitive,
        }
    }
}

impl State {
    fn new(value: &str, command: Option<Command>, next: Vec<usize>, number_sensitive: bool) -> (r:
        State)
        ensures
            r@ == node(value@, command, next@, number_sensitive),
    {
        State { value: String::from_str(value), command, next, number_sensitive }
    }

    /// The first node among this node's successors that answers `word` in the
    /// given count mode.
    fn find(&self, states: &Vec<State>, word: &String, number_sensitive: bool) -> (r: Option<usize>)
        requires
            forall|j: int| 0 <= j < self.next@.len() ==> #[trigger] self.next@[j] < states@.len(),
        ensures
            r == find_spec(states@.map_values(|s: State| s@), self.next@, word@, number_sensitive),
            r matches Some(j) ==> j < states@.len() && answers(
                states@[j as int]@,
                word@,
                number_sensitive,
            ),
    {
        let ghost views = states@.map_values(|s: State| s@);
        let n = self.next.len();
        let mut i: usize = 0;
        assert(self.next@.skip(0) =~= self.next@);
        while i < n
            invariant
                n == self.next@.len(),
                i <= n,
                views == states@.map_values(|s: State| s@),
                forall|j: int| 0 <= j < self.next@.len() ==> #[trigger] self.next@[j] < states@.len(),
                find_spec(views, self.next@, word@, number_sensitive) == find_spec(
                    views,
                    self.next@.skip(i as int),
                    word@,
                    number_sensitive,
                ),
            decreases n - i,
        {
            let k = self.next[i];
            let candidate = &states[k];
            let ghost rest = self.next@.skip(i as int);
            assert(rest[0] == k);
            assert(rest.drop_first() =~= self.next@.skip(i + 1));
            assert(views[k as int] == candidate@);
            if candidate.value == *word && candidate.number_sensitive == number_sensitive {
                return Some(k);
            }
            i = i + 1;
        }
        None
    }
}

/// Turns typed letters into commands by walking a trie of key words.
pub struct KeyParser {
    states: Vec<State>,
    state: usize,
    num_buffer: usize,
}

impl View for KeyParser {
    type V = ParserView;

    closed spec fn view(&self) -> ParserView {
        ParserView {
            states: self.states@.map_values(|s: State| s@),
            current: self.state,
            num_buffer: self.num_buffer,
        }
    }
}

impl KeyParser {
    #[verifier::type_invariant]
    spec fn well_formed(self) -> bool {
        parser_wf(self@)
    }

    /// Builds the standard key trie and puts the parser at its root; the count
    /// typed so far is kept.
    pub fn init(&mut self)
        ensures
            final(self)@ == (ParserView {
                states: standard_states(),
                current: 0,
                num_buffer: old(self)@.num_buffer,
            }),
    {
        let mut root_next: Vec<usize> = Vec::new();
        root_next.push(1);
        root_next.push(3);
        root_next.push(4);
        root_next.push(5);
        root_next.push(6);
        root_next.push(7);
        root_next.push(8);
        root_next.push(10);
        root_next.push(11);
        let mut g_next: Vec<usize> = Vec::new();
        g_next.push(2);
        let mut g_to_page_next: Vec<usize> = Vec::new();
        g_to_page_next.push(9);
        assert(root_next@ =~= seq![1usize, 3, 4, 5, 6, 7, 8, 10, 11]);
        assert(g_next@ =~= seq![2usize]);
        assert(g_to_page_next@ =~= seq![9usize]);

        let mut states: Vec<State> = Vec::new();
        states.push(State::new("", None, root_next, false));
        states.push(State::new("g", None, g_next, false));
        states.push(State::new("gg", Some(Command::JumpToStart), Vec::new(), false));
        states.push(State::new("j", Some(Command::ScrollDown), Vec::new(), false));
        states.push(State::new("k", Some(Command::ScrollUp), Vec::new(), false));
        states.push(State::new("+", Some(Command::ZoomIn), Vec::new(), false));
        states.push(State::new("-", Some(Command::ZoomOut), Vec::new(), false));
        states.push(State::new("G", Some(Command::JumpToEnd), Vec::new(), false));
        states.push(State::new("g", None, g_to_page_next, true));
        states.push(State::new("gg", Some(Command::JumpToPage(0)), Vec::new(), true));
        states.push(State::new("j", Some(Command::ScrollDownN(0)), Vec::new(), true));
        states.push(State::new("k", Some(Command::ScrollUpN(0)), Vec::new(), true));
        proof {
            reveal_strlit("");
            assert(""@ =~= Seq::<char>::empty());
            let views = states@.map_values(|s: State| s@);
            assert(views.len() == standard_states().len());
            assert forall|i: int| 0 <= i < views.len() implies views[i] == standard_states()[i] by {
                assert(views[i] == states@[i]@);
            }
            assert(views =~= standard_states());
        }
        *self = KeyParser { states, state: 0, num_buffer: self.num_buffer };
    }

    /// Reads one typed letter (or word) and returns the command it completes, if any.
    pub fn read(&mut self, letter: String) -> (output: Option<Command>)
        ensures
            (final(self)@, output) == read_spec(old(self)@, letter@),
    {
        proof {
            use_type_invariant(&*self);
        }
        match parse_decimal(letter.as_str()) {
            Some(value) => {
                let count = match parse_decimal_after(self.num_buffer, letter.as_str()) {
                    Some(w) => w,
                    None => value,
                };
                self.num_buffer = count;
                None
            },
            None => {
                let word = self.states[self.state].value.clone().concat(letter.as_str());
                if self.num_buffer != 0 {
                    self.counted_step(&word)
                } else {
                    self.plain_step(&word)
                }
            },
        }
    }

    fn plain_step(&mut self, word: &String) -> (output: Option<Command>)
        ensures
            (final(self)@, output) == plain_step(old(self)@, word@),
    {
        proof {
            use_type_invariant(&*self);
        }
        let ghost p = self@;
        let current = &self.states[self.state];
        proof {
            assert(p.states[p.current as int] == current@);
            assert forall|j: int| 0 <= j < current.next@.len() implies #[trigger] current.next@[j]
                < self.states@.len() by {
                assert(p.states[p.current as int].next[j] == current.next@[j]);
            }
        }
        match current.find(&self.states, word, false) {
            Some(next) => {
                match self.states[next].command {
                    None => {
                        self.state = next;
                        None
                    },
                    Some(c) => {
                        self.state = 0;
                        Some(c)
                    },
                }
            },
            None => {
                self.state = 0;
                None
            },
        }
    }

    fn counted_step(&mut self, word: &String) -> (output: Option<Command>)
        requires
            old(self)@.num_buffer != 0,
        ensures
            (final(self)@, output) == counted_step(old(self)@, word@),
    {
        proof {
            use_type_invariant(&*self);
        }
        let ghost p = self@;
        let current = &self.states[self.state];
        proof {
            assert(p.states[p.current as int] == current@);
            assert forall|j: int| 0 <= j < current.next@.len() implies #[trigger] current.next@[j]
                < self.states@.len() by {
                assert(p.states[p.current as int].next[j] == current.next@[j]);
            }
        }
        match current.find(&self.states, word, true) {
            Some(next) => {
                proof {
                    assert(p.states[next as int] == self.states@[next as int]@);
                    assert(p.states[next as int].number_sensitive);
                }
                match self.states[next].command {
                    None => {
                        self.state = next;
                        None
                    },
                    Some(Command::JumpToPage(_)) => {
                        let page = self.num_buffer - 1;
                        self.num_buffer = 0;
                        self.state = 0;
                        Some(Command::JumpToPage(page))
                    },
                    Some(Command::ScrollDownN(_)) => {
                        let count = self.num_buffer;
                        self.num_buffer = 0;
                        self.state = 0;
                        Some(Command::ScrollDownN(count))
                    },
                    Some(Command::ScrollUpN(_)) => {
                        let count = self.num_buffer;
                        self.num_buffer = 0;
                        self.state = 0;
                        Some(Command::ScrollUpN(count))
                    },
                    Some(_) => {
                        proof {
                            assert(false);
                        }
                        None
                    },
                }
            },
            None => {
                self.num_buffer = 0;
                self.plain_step(word);
                None
            },
        }
    }
}

impl Default for KeyParser {
    /// A parser whose trie is the bare root: it reads counts but emits nothing.
    fn default() -> (r: KeyParser)
        ensures
            r@ == (ParserView {
                states: seq![node(Seq::empty(), None, Seq::empty(), false)],
                current: 0,
                num_buffer: 0,
            }),
    {
        let mut states: Vec<State> = Vec::new();
        states.push(State { value: String::new(), command: None, next: Vec::new(), number_sensitive: false });
        let r = KeyParser { states, state: 0, num_buffer: 0 };
        proof {
            assert(r@.states =~= seq![node(Seq::empty(), None, Seq::empty(), false)]);
        }
        r
    }
}

} // verus!
