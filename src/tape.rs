use std::collections::HashMap;
use vstd::prelude::*;

use crate::types::Direction;

verus! {

broadcast use vstd::std_specs::hash::group_hash_axioms;

/// The abstract content of a tape: the stored cells, the symbol that fills
/// every other cell, and the position of the head.
pub ghost struct TapeModel {
    pub cells: Map<i64, char>,
    pub blank: char,
    pub head: i64,
}

impl TapeModel {
    /// The symbol in cell `pos`: the stored one, or the blank.
    pub open spec fn symbol_at(self, pos: int) -> char {
        if i64::MIN <= pos <= i64::MAX && self.cells.contains_key(pos as i64) {
            self.cells[pos as i64]
        } else {
            self.blank
        }
    }

    /// The symbol under the head.
    pub open spec fn current(self) -> char {
        self.symbol_at(self.head as int)
    }

    /// The tape after writing `s` under the head: a blank clears the cell.
    pub open spec fn written(self, s: char) -> TapeModel {
        TapeModel {
            cells: if s == self.blank {
                self.cells.remove(self.head)
            } else {
                self.cells.insert(self.head, s)
            },
            ..self
        }
    }

    /// Whether the head can move one cell in `d` with its position still
    /// held in an `i64`.
    pub open spec fn can_move(self, d: Direction) -> bool {
        match d {
            Direction::Left => self.head > i64::MIN,
            Direction::Right => self.head < i64::MAX,
        }
    }

    /// The head position after one move in `d`.
    pub open spec fn moved_head(self, d: Direction) -> int {
        match d {
            Direction::Left => self.head - 1,
            Direction::Right => self.head + 1,
        }
    }

    /// The tape after one move of the head in `d`.
    pub open spec fn moved(self, d: Direction) -> TapeModel
        recommends
            self.can_move(d),
    {
        TapeModel { head: self.moved_head(d) as i64, ..self }
    }
}

/// The tape holding `input` from position 0 on, head at 0: blank input
/// characters are not stored.
pub open spec fn initial_model(input: Seq<char>, blank: char) -> TapeModel {
    TapeModel {
        cells: Map::new(
            |p: i64| 0 <= p < input.len() && input[p as int] != blank,
            |p: i64| input[p as int],
        ),
        blank,
        head: 0,
    }
}

/// Text of one cell in the rendered window: the head's cell is marked.
pub open spec fn cell_text(t: TapeModel, pos: int) -> Seq<char> {
    if pos == t.head {
        seq!['<', t.symbol_at(pos), '>']
    } else {
        seq![t.symbol_at(pos)]
    }
}

/// Text of the `n` cells from `lo` on.
pub open spec fn window_text(t: TapeModel, lo: int, n: nat) -> Seq<char>
    decreases n,
{
    if n == 0 {
        Seq::empty()
    } else {
        window_text(t, lo, (n - 1) as nat) + cell_text(t, lo + n - 1)
    }
}

/// `k` is the lowest stored position.
pub open spec fn is_lowest(t: TapeModel, k: i64) -> bool {
    t.cells.contains_key(k) && forall|j: i64| #[trigger] t.cells.contains_key(j) ==> k <= j
}

/// `k` is the highest stored position.
pub open spec fn is_highest(t: TapeModel, k: i64) -> bool {
    t.cells.contains_key(k) && forall|j: i64| #[trigger] t.cells.contains_key(j) ==> j <= k
}

/// The lowest stored position (meaningful where a cell is stored).
pub open spec fn lowest(t: TapeModel) -> i64 {
    choose|k: i64| is_lowest(t, k)
}

/// The highest stored position (meaningful where a cell is stored).
pub open spec fn highest(t: TapeModel) -> i64 {
    choose|k: i64| is_highest(t, k)
}

/// First cell of the rendered window.
pub open spec fn window_start(t: TapeModel) -> int {
    if lowest(t) <= t.head - 2 { lowest(t) as int } else { t.head - 2 }
}

/// Last cell of the rendered window.
pub open spec fn window_end(t: TapeModel) -> int {
    if highest(t) >= t.head + 10 { highest(t) as int } else { t.head + 10 }
}

/// The diagnostic rendering: the window from two cells left of the head (or
/// the lowest stored cell) to ten cells right of it (or the highest stored
/// cell), in brackets; a tape with nothing stored shows the blank alone.
pub open spec fn rendered(t: TapeModel) -> Seq<char> {
    if t.cells.dom().len() == 0 {
        seq!['[', '<', t.blank, '>', ']']
    } else {
        seq!['['] + window_text(t, window_start(t), (window_end(t) - window_start(t) + 1) as nat)
            + seq![']']
    }
}

/// Relies on `String::push`: appends one character.
#[verifier::external_body]
fn push_char(s: &mut String, c: char)
    ensures
        final(s)@ == old(s)@.push(c),
{
    s.push(c)
}

/// Moving the head one cell and then one cell back gives the tape it started
/// from, and in particular the same head position.
pub proof fn lemma_move_and_back(t: TapeModel, d: Direction)
    requires
        t.can_move(d),
    ensures
        t.moved(d).can_move(d.spec_opposite()),
        t.moved(d).moved(d.spec_opposite()).head == t.head,
        t.moved(d).moved(d.spec_opposite()) == t,
{
}

/// Reading right after a write gives the symbol written; writing the blank
/// also removes the cell from the stored ones.
pub proof fn lemma_write_then_read(t: TapeModel, s: char)
    ensures
        t.written(s).current() == s,
        s == t.blank ==> !t.written(s).cells.contains_key(t.head),
{
}

/// Writing the same symbol twice in a row gives the same tape as writing it
/// once.
pub proof fn lemma_write_twice(t: TapeModel, s: char)
    ensures
        t.written(s).written(s) == t.written(s),
{
    assert(t.written(s).written(s).cells =~= t.written(s).cells);
}

/// A bi-infinite tape of symbols with a head. Every operation returns a
/// new tape and leaves the receiver as it was.
#[derive(Debug, Clone)]
pub struct Tape {
    cells: HashMap<i64, char>,
    blank: char,
    head_position: i64,
}

impl View for Tape {
    type V = TapeModel;

    closed spec fn view(&self) -> TapeModel {
        TapeModel { cells: self.cells@, blank: self.blank, head: self.head_position }
    }
}

impl Tape {
    /// Places `input[i]` in cell `i`, with the head on cell 0.
    pub fn new(input: &str, blank: char) -> (r: Tape)
        requires
            input@.len() <= i64::MAX,
        ensures
            r@ == initial_model(input@, blank),
    {
        let n = input.unicode_len();
        let mut cells: HashMap<i64, char> = HashMap::new();
        let mut i: usize = 0;
        while i < n
            invariant
                n == input@.len(),
                n <= i64::MAX,
                i <= n,
                cells@ == Map::new(
                    |p: i64| 0 <= p < i && input@[p as int] != blank,
                    |p: i64| input@[p as int],
                ),
            decreases n - i,
        {
            let c = input.get_char(i);
            if c != blank {
                cells.insert(i as i64, c);
            }
            i = i + 1;
            assert(cells@ =~= Map::new(
                |p: i64| 0 <= p < i && input@[p as int] != blank,
                |p: i64| input@[p as int],
            ));
        }
        assert(cells@ =~= initial_model(input@, blank).cells);
        Tape { cells, blank, head_position: 0 }
    }

    /// The symbol that fills every cell not stored.
    pub fn blank(&self) -> (r: char)
        ensures
            r == self@.blank,
    {
        self.blank
    }

    /// The position of the head.
    pub fn head_position(&self) -> (r: i64)
        ensures
            r == self@.head,
    {
        self.head_position
    }

    /// The symbol stored in cell `pos`, if one is.
    pub fn stored_at(&self, pos: i64) -> (r: Option<char>)
        ensures
            r == (if self@.cells.contains_key(pos) {
                Some(self@.cells[pos])
            } else {
                None
            }),
    {
        match self.cells.get(&pos) {
            Some(c) => Some(*c),
            None => None,
        }
    }

    /// The symbol in cell `pos`, blank where none is stored.
    pub fn symbol_at(&self, pos: i64) -> (r: char)
        ensures
            r == self@.symbol_at(pos as int),
    {
        match self.cells.get(&pos) {
            Some(c) => *c,
            None => self.blank,
        }
    }

    /// The stored positions' lowest and highest, or `None` where nothing is
    /// stored.
    fn stored_range(&self) -> (r: Option<(i64, i64)>)
        ensures
            match r {
                None => self@.cells.dom().len() == 0,
                Some((lo, hi)) => is_lowest(self@, lo) && is_highest(self@, hi),
            },
    {
        let mut r: Option<(i64, i64)> = None;
        for k in it: self.cells.keys()
            invariant
                it.seq().unref().to_set() == self@.cells.dom(),
                match r {
                    None => it.index() == 0,
                    Some((lo, hi)) => {
                        &&& self@.cells.contains_key(lo)
                        &&& self@.cells.contains_key(hi)
                        &&& forall|i: int| 0 <= i < it.index() ==> lo <= *#[trigger] it.seq()[i] <= hi
                    },
                },
        {
            r = match r {
                None => Some((*k, *k)),
                Some((lo, hi)) => Some((if *k < lo { *k } else { lo }, if *k > hi { *k } else { hi })),
            };
        }
        r
    }

    /// A bracketed window of the tape for diagnostics, with the head's cell
    /// marked (see `rendered`).
    pub fn to_string(&self) -> (r: String)
        ensures
            r@ == rendered(self@),
    {
        let mut out = String::new();
        push_char(&mut out, '[');
        match self.stored_range() {
            None => {
                push_char(&mut out, '<');
                push_char(&mut out, self.blank);
                push_char(&mut out, '>');
            },
            Some((lo, hi)) => {
                proof {
                    assert(lowest(self@) == lo);
                    assert(highest(self@) == hi);
                }
                let head = self.head_position as i128;
                let start: i128 = if (lo as i128) <= head - 2 { lo as i128 } else { head - 2 };
                let end: i128 = if (hi as i128) >= head + 10 { hi as i128 } else { head + 10 };
                let mut pos: i128 = start;
                while pos <= end
                    invariant
                        head == self@.head,
                        start == window_start(self@),
                        end == window_end(self@),
                        start <= pos <= end + 1,
                        i64::MIN - 2 <= start,
                        end <= i64::MAX + 10,
                        out@ == seq!['['] + window_text(self@, start as int, (pos - start) as nat),
                    decreases end + 1 - pos,
                {
                    let c = if i64::MIN as i128 <= pos && pos <= i64::MAX as i128 {
                        self.symbol_at(pos as i64)
                    } else {
                        self.blank
                    };
                    assert(c == self@.symbol_at(pos as int));
                    let ghost before = out@;
                    if pos == head {
                        push_char(&mut out, '<');
                        push_char(&mut out, c);
                        push_char(&mut out, '>');
                        assert(cell_text(self@, pos as int) =~= seq!['<', c, '>']);
                        assert(out@ =~= before + seq!['<', c, '>']);
                    } else {
                        push_char(&mut out, c);
                        assert(cell_text(self@, pos as int) =~= seq![c]);
                        assert(out@ =~= before + seq![c]);
                    }
                    proof {
                        assert(window_text(self@, start as int, (pos + 1 - start) as nat)
                            == window_text(self@, start as int, (pos - start) as nat)
                            + cell_text(self@, pos as int));
                        assert(out@ =~= before + cell_text(self@, pos as int));
                    }
                    pos = pos + 1;
                }
            },
        }
        push_char(&mut out, ']');
        out
    }

    /// The symbol under the head.
    pub fn read(&self) -> (r: char)
        ensures
            r == self@.current(),
    {
        self.symbol_at(self.head_position)
    }

    /// A new tape with `symbol` under the head; writing the blank clears
    /// the cell.
    pub fn write(&self, symbol: char) -> (r: Tape)
        ensures
            r@ == self@.written(symbol),
    {
        let mut cells = self.cells.clone();
        if symbol == self.blank {
            cells.remove(&self.head_position);
        } else {
            cells.insert(self.head_position, symbol);
        }
        Tape { cells, blank: self.blank, head_position: self.head_position }
    }

    /// A new tape with the head moved one cell in `direction`.
    pub fn move_head(&self, direction: Direction) -> (r: Tape)
        requires
            self@.can_move(direction),
        ensures
            r@ == self@.moved(direction),
    {
        let head_position = match direction {
            Direction::Left => self.head_position - 1,
            Direction::Right => self.head_position + 1,
        };
        Tape { cells: self.cells.clone(), blank: self.blank, head_position }
    }
}

} // verus!
