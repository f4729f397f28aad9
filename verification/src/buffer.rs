//! Annotated text buffer: the target phrase decomposed into per-character
//! cells, each carrying its match verdict and a cursor-highlight flag.

use vstd::prelude::*;

verus! {

/// Verdict recorded for one character position: `Pending` until the cursor
/// has passed it, then `Correct` or `Incorrect`.
#[derive(Clone, Copy, Debug, PartialEq, Eq, Structural)]
pub enum MatchState {
    Pending,
    Correct,
    Incorrect,
}

/// One unit of the target phrase: the character itself, the verdict recorded
/// for it, and whether the cursor currently sits on it.
#[derive(Clone, Copy, Debug, PartialEq, Eq, Structural)]
pub struct Cell {
    pub character: char,
    pub match_state: MatchState,
    pub highlighted: bool,
}

impl Cell {
    /// A fresh cell for `character`: verdict still `Pending`, not highlighted.
    pub open spec fn pending_spec(character: char) -> Cell {
        Cell { character, match_state: MatchState::Pending, highlighted: false }
    }

    /// This cell with its highlight flag set to `on`; character and verdict
    /// are kept.
    pub open spec fn with_highlight(self, on: bool) -> Cell {
        Cell { character: self.character, match_state: self.match_state, highlighted: on }
    }

    /// This cell with its verdict set from `matched`; character and highlight
    /// flag are kept.
    pub open spec fn with_verdict(self, matched: bool) -> Cell {
        Cell {
            character: self.character,
            match_state: if matched {
                MatchState::Correct
            } else {
                MatchState::Incorrect
            },
            highlighted: self.highlighted,
        }
    }

    /// A fresh cell for `character`: verdict still `Pending`, not highlighted.
    pub fn pending(character: char) -> (cell: Cell)
        ensures
            cell == Cell::pending_spec(character),
    {
        Cell { character, match_state: MatchState::Pending, highlighted: false }
    }
}

/// The buffer `build` produces: one pending, unhighlighted cell per character,
/// in phrase order.
pub open spec fn build_spec(phrase: Seq<char>) -> Seq<Cell> {
    Seq::new(phrase.len(), |i: int| Cell::pending_spec(phrase[i]))
}

/// Pointwise description of `build_spec`: one pending cell per character.
pub proof fn lemma_build_spec(phrase: Seq<char>)
    ensures
        build_spec(phrase).len() == phrase.len(),
        forall|i: int|
            0 <= i < phrase.len() ==> build_spec(phrase)[i] == Cell::pending_spec(phrase[i]),
{
}

/// `cells` with the highlight flag at `idx` set to `on`; out-of-range indices
/// leave the buffer unchanged.
pub open spec fn set_highlight_spec(cells: Seq<Cell>, idx: int, on: bool) -> Seq<Cell> {
    if 0 <= idx < cells.len() {
        cells.update(idx, cells[idx].with_highlight(on))
    } else {
        cells
    }
}

/// `cells` with the verdict at `idx` set from `matched`; out-of-range indices
/// leave the buffer unchanged. The highlight flag is untouched.
pub open spec fn record_match_spec(cells: Seq<Cell>, idx: int, matched: bool) -> Seq<Cell> {
    if 0 <= idx < cells.len() {
        cells.update(idx, cells[idx].with_verdict(matched))
    } else {
        cells
    }
}

/// Produces one `Pending`, unhighlighted cell per character of `phrase`, in
/// phrase order; deterministic in the phrase and independent of any prior
/// buffer.
pub fn build(phrase: &Vec<char>) -> (cells: Vec<Cell>)
    ensures
        cells@ == build_spec(phrase@),
{
    let mut cells: Vec<Cell> = Vec::new();
    let mut i: usize = 0;
    while i < phrase.len()
        invariant
            i <= phrase@.len(),
            cells@.len() == i,
            forall|j: int| 0 <= j < i ==> cells@[j] == build_spec(phrase@)[j],
        decreases phrase@.len() - i,
    {
        cells.push(Cell::pending(phrase[i]));
        i = i + 1;
    }
    proof {
        assert(cells@ =~= build_spec(phrase@));
    }
    cells
}

/// Sets the highlight flag of the cell at `idx`; no-op if `idx` is out of
/// bounds (the cursor-past-end case). Never alters a verdict.
pub fn set_highlight(cells: &mut Vec<Cell>, idx: usize, on: bool)
    ensures
        final(cells)@ == set_highlight_spec(old(cells)@, idx as int, on),
{
    if idx < cells.len() {
        let cell = cells[idx];
        cells[idx] = Cell {
            character: cell.character,
            match_state: cell.match_state,
            highlighted: on,
        };
    }
}

/// Records the verdict of the cell at `idx` as `Correct` or `Incorrect`;
/// no-op if `idx` is out of bounds. Never alters the highlight flag.
pub fn record_match(cells: &mut Vec<Cell>, idx: usize, matched: bool)
    ensures
        final(cells)@ == record_match_spec(old(cells)@, idx as int, matched),
{
    if idx < cells.len() {
        let cell = cells[idx];
        cells[idx] = Cell {
            character: cell.character,
            match_state: if matched {
                MatchState::Correct
            } else {
                MatchState::Incorrect
            },
            highlighted: cell.highlighted,
        };
    }
}

} // verus!
