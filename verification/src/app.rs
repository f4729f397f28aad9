//! Session state machine: owns the current screen, the annotated buffer, the
//! cursor, the correct-keystroke counter and the elapsed-tick counter, and
//! exposes the operations that the input layer and the timer drive.

use vstd::prelude::*;
use crate::buffer::build;
use crate::buffer::build_spec;
use crate::buffer::record_match;
use crate::buffer::record_match_spec;
use crate::buffer::set_highlight;
use crate::buffer::set_highlight_spec;
use crate::buffer::Cell;

verus! {

/// Coarse phase of a session; exactly one is active at a time, and it gates
/// which inputs are accepted and what the timer does.
#[derive(Clone, Copy, Debug, PartialEq, Eq, Structural)]
pub enum Screen {
    Start,
    Typing,
    Result,
}

/// Direction of a cursor move.
enum CursorMovement {
    Forwards,
    Backwards,
}

/// Fixed session length in timer ticks (one tick per second).
pub const SESSION_TICKS: u64 = 30;

/// Mathematical snapshot of a session: what every contract in this crate
/// speaks about.
#[verifier::ext_equal]
pub ghost struct AppView {
    pub screen: Screen,
    pub phrase: Seq<char>,
    pub cells: Seq<Cell>,
    pub cursor: int,
    pub correct_count: int,
    pub elapsed_ticks: int,
    pub is_typing: bool,
    pub exit: bool,
}

impl AppView {
    /// Well-formedness of a session: buffer and phrase agree in length and
    /// characters, the cursor stays within `[0, cells.len()]`, exactly the
    /// cell under the cursor is highlighted (none when the cursor is past the
    /// end), counters are in machine range, and once the whole session length
    /// has elapsed the screen has moved to `Result`.
    pub open spec fn wf(self) -> bool {
        &&& self.cells.len() == self.phrase.len()
        &&& 0 <= self.cursor <= self.cells.len()
        &&& forall|i: int|
            0 <= i < self.cells.len() ==> (#[trigger] self.cells[i]).character == self.phrase[i]
        &&& forall|i: int|
            0 <= i < self.cells.len() ==> ((#[trigger] self.cells[i]).highlighted <==> i
                == self.cursor)
        &&& 0 <= self.correct_count <= u64::MAX
        &&& 0 <= self.elapsed_ticks <= SESSION_TICKS
        &&& (self.elapsed_ticks == SESSION_TICKS ==> self.screen == Screen::Result)
    }
}

/// The buffer of a session that has just been (re)created from `phrase`: all
/// verdicts `Pending`, and only cell 0 highlighted (no cell when the phrase
/// is empty, which a phrase source never produces but the core tolerates).
pub open spec fn fresh_cells(phrase: Seq<char>) -> Seq<Cell> {
    set_highlight_spec(build_spec(phrase), 0, true)
}

/// A session just (re)created from `phrase`: cursor at 0, counters zeroed,
/// timer not yet armed.
pub open spec fn fresh_view(phrase: Seq<char>, screen: Screen, exit: bool) -> AppView {
    AppView {
        screen,
        phrase,
        cells: fresh_cells(phrase),
        cursor: 0,
        correct_count: 0,
        elapsed_ticks: 0,
        is_typing: false,
        exit,
    }
}

/// `c + 1`, saturating at the width of the on-machine counter.
pub open spec fn sat_inc(c: int) -> int {
    if c < u64::MAX {
        c + 1
    } else {
        c
    }
}

/// One keystroke of `ch`. With the cursor past the end the session is left
/// unchanged (excess keystrokes are silently dropped). Otherwise the cell
/// under the cursor receives its verdict, the correct counter grows on a
/// match, the highlight moves one cell forward with the cursor.
pub open spec fn enter_char_spec(v: AppView, ch: char) -> AppView {
    if v.cursor >= v.cells.len() {
        v
    } else {
        let matched = ch == v.cells[v.cursor].character;
        let judged = set_highlight_spec(record_match_spec(v.cells, v.cursor, matched), v.cursor, false);
        AppView {
            screen: v.screen,
            phrase: v.phrase,
            cells: set_highlight_spec(judged, v.cursor + 1, true),
            cursor: v.cursor + 1,
            correct_count: if matched {
                sat_inc(v.correct_count)
            } else {
                v.correct_count
            },
            elapsed_ticks: v.elapsed_ticks,
            is_typing: v.is_typing,
            exit: v.exit,
        }
    }
}

/// One backspace. At cursor 0 the session is left unchanged; otherwise the
/// highlight moves one cell back with the cursor, and the verdict of the cell
/// moved away from is kept (verdicts are sticky under backspace).
pub open spec fn remove_char_spec(v: AppView) -> AppView {
    if v.cursor == 0 {
        v
    } else {
        AppView {
            screen: v.screen,
            phrase: v.phrase,
            cells: set_highlight_spec(
                set_highlight_spec(v.cells, v.cursor, false),
                v.cursor - 1,
                true,
            ),
            cursor: v.cursor - 1,
            correct_count: v.correct_count,
            elapsed_ticks: v.elapsed_ticks,
            is_typing: v.is_typing,
            exit: v.exit,
        }
    }
}

/// One timer tick. It counts only while the `Typing` screen is up and the
/// timer has been armed; the tick that completes the session length moves the
/// screen to `Result`, and every further tick is ignored.
pub open spec fn tick_spec(v: AppView) -> AppView {
    if v.screen == Screen::Typing && v.is_typing {
        AppView {
            screen: if v.elapsed_ticks + 1 == SESSION_TICKS {
                Screen::Result
            } else {
                v.screen
            },
            phrase: v.phrase,
            cells: v.cells,
            cursor: v.cursor,
            correct_count: v.correct_count,
            elapsed_ticks: v.elapsed_ticks + 1,
            is_typing: v.is_typing,
            exit: v.exit,
        }
    } else {
        v
    }
}

/// An exit request: only the `exit` flag changes.
pub open spec fn quit_spec(v: AppView) -> AppView {
    AppView {
        screen: v.screen,
        phrase: v.phrase,
        cells: v.cells,
        cursor: v.cursor,
        correct_count: v.correct_count,
        elapsed_ticks: v.elapsed_ticks,
        is_typing: v.is_typing,
        exit: true,
    }
}

/// Leaving the start screen for `Typing`; a no-op on any other screen.
pub open spec fn begin_session_spec(v: AppView) -> AppView {
    if v.screen == Screen::Start {
        AppView {
            screen: Screen::Typing,
            phrase: v.phrase,
            cells: v.cells,
            cursor: v.cursor,
            correct_count: v.correct_count,
            elapsed_ticks: v.elapsed_ticks,
            is_typing: v.is_typing,
            exit: v.exit,
        }
    } else {
        v
    }
}

/// A reset: a fresh buffer for the newly drawn `phrase`, counters zeroed,
/// timer disarmed, and the `Typing` screen re-entered directly.
pub open spec fn reset_spec(v: AppView, phrase: Seq<char>) -> AppView {
    fresh_view(phrase, Screen::Typing, v.exit)
}

/// The session aggregate. The presentation layer reads its fields (and the
/// accessors below) as a snapshot per render call; it never mutates them.
#[derive(Clone, Debug, PartialEq, Eq)]
pub struct App {
    pub screen: Screen,
    pub phrase: Vec<char>,
    pub cells: Vec<Cell>,
    pub cursor_idx: usize,
    pub correct_count: u64,
    pub elapsed_ticks: u64,
    pub is_typing: bool,
    pub exit: bool,
}

impl View for App {
    type V = AppView;

    open spec fn view(&self) -> AppView {
        AppView {
            screen: self.screen,
            phrase: self.phrase@,
            cells: self.cells@,
            cursor: self.cursor_idx as int,
            correct_count: self.correct_count as int,
            elapsed_ticks: self.elapsed_ticks as int,
            is_typing: self.is_typing,
            exit: self.exit,
        }
    }
}

impl App {
    /// Constructs a session around a freshly drawn `phrase`: start screen,
    /// cursor on cell 0, nothing typed yet.
    pub fn new(phrase: Vec<char>) -> (app: App)
        ensures
            app@ == fresh_view(phrase@, Screen::Start, false),
            app@.wf(),
    {
        let cells = build(&phrase);
        let mut app = App {
            screen: Screen::Start,
            phrase,
            cells,
            cursor_idx: 0,
            correct_count: 0,
            elapsed_ticks: 0,
            is_typing: false,
            exit: false,
        };
        set_highlight(&mut app.cells, 0, true);
        proof {
            crate::buffer::lemma_build_spec(app@.phrase);
            assert(app@ =~= fresh_view(app@.phrase, Screen::Start, false));
        }
        app
    }

    /// Handles one timer tick event.
    pub fn tick(&mut self)
        requires
            old(self)@.wf(),
        ensures
            final(self)@ == tick_spec(old(self)@),
            final(self)@.wf(),
    {
        if self.screen == Screen::Typing && self.is_typing {
            self.elapsed_ticks = self.elapsed_ticks + 1;
            if self.elapsed_ticks == SESSION_TICKS {
                self.screen = Screen::Result;
            }
        }
        proof {
            assert(self@ =~= tick_spec(old(self)@));
        }
    }

    /// Requests exit; the run loop observes the flag and terminates.
    pub fn quit(&mut self)
        ensures
            final(self)@ == quit_spec(old(self)@),
            old(self)@.wf() ==> final(self)@.wf(),
    {
        self.exit = true;
        proof {
            assert(self@ =~= quit_spec(old(self)@));
        }
    }

    /// Leaves the start screen for `Typing`; a no-op on any other screen.
    pub fn begin_session(&mut self)
        ensures
            final(self)@ == begin_session_spec(old(self)@),
            old(self)@.wf() ==> final(self)@.wf(),
    {
        if self.screen == Screen::Start {
            self.screen = Screen::Typing;
        }
        proof {
            assert(self@ =~= begin_session_spec(old(self)@));
        }
    }

    /// The matching engine: judges the keystroke `ch` against the cell under
    /// the cursor and advances cursor and highlight; a keystroke past the end
    /// of the phrase leaves the session unchanged.
    pub fn enter_char(&mut self, ch: char)
        requires
            old(self)@.wf(),
        ensures
            final(self)@ == enter_char_spec(old(self)@, ch),
            final(self)@.wf(),
            old(self)@.cursor >= old(self)@.cells.len() ==> final(self)@ == old(self)@,
    {
        match self.char_match(ch) {
            Some(matched) => {
                if matched && self.correct_count < u64::MAX {
                    self.correct_count = self.correct_count + 1;
                }
                record_match(&mut self.cells, self.cursor_idx, matched);
                set_highlight(&mut self.cells, self.cursor_idx, false);
                proof {
                    // the cursor sits on a cell, so it is below the vector's
                    // length and the forward move cannot saturate
                    assert(self.cells.len() == self@.cells.len());
                }
                self.move_cursor(CursorMovement::Forwards);
                set_highlight(&mut self.cells, self.cursor_idx, true);
                proof {
                    assert(self@ =~= enter_char_spec(old(self)@, ch));
                }
            },
            None => {
                proof {
                    assert(self@ =~= enter_char_spec(old(self)@, ch));
                }
            },
        }
    }

    /// Handles backspace: moves cursor and highlight one cell back, keeping
    /// the verdict of the cell moved away from; a no-op at cursor 0.
    pub fn remove_char(&mut self)
        requires
            old(self)@.wf(),
        ensures
            final(self)@ == remove_char_spec(old(self)@),
            final(self)@.wf(),
            old(self)@.cursor == 0 ==> final(self)@ == old(self)@,
    {
        set_highlight(&mut self.cells, self.cursor_idx, false);
        self.move_cursor(CursorMovement::Backwards);
        set_highlight(&mut self.cells, self.cursor_idx, true);
        proof {
            assert(self@ =~= remove_char_spec(old(self)@));
        }
    }

    /// Rebuilds the session around the newly drawn `phrase`: fresh buffer,
    /// counters zeroed, timer disarmed, `Typing` re-entered directly.
    pub fn reset(&mut self, phrase: Vec<char>)
        ensures
            final(self)@ == reset_spec(old(self)@, phrase@),
            final(self)@.wf(),
    {
        self.screen = Screen::Typing;
        self.phrase = phrase;
        self.cells = build(&self.phrase);
        self.cursor_idx = 0;
        self.correct_count = 0;
        self.elapsed_ticks = 0;
        self.is_typing = false;
        set_highlight(&mut self.cells, 0, true);
        proof {
            crate::buffer::lemma_build_spec(self@.phrase);
            assert(self@ =~= reset_spec(old(self)@, self@.phrase));
        }
    }

    /// Moves the cursor one position, saturating at 0 going backwards and at
    /// the machine limit going forwards; nothing else changes.
    fn move_cursor(&mut self, movement: CursorMovement)
        ensures
            final(self)@ == (AppView {
                cursor: match movement {
                    CursorMovement::Forwards => if old(self).cursor_idx < usize::MAX {
                        old(self)@.cursor + 1
                    } else {
                        old(self)@.cursor
                    },
                    CursorMovement::Backwards => if old(self).cursor_idx == 0 {
                        0
                    } else {
                        old(self)@.cursor - 1
                    },
                },
                screen: old(self)@.screen,
                phrase: old(self)@.phrase,
                cells: old(self)@.cells,
                correct_count: old(self)@.correct_count,
                elapsed_ticks: old(self)@.elapsed_ticks,
                is_typing: old(self)@.is_typing,
                exit: old(self)@.exit,
            }),
    {
        match movement {
            CursorMovement::Forwards => {
                if self.cursor_idx < usize::MAX {
                    self.cursor_idx = self.cursor_idx + 1;
                }
            },
            CursorMovement::Backwards => {
                if self.cursor_idx > 0 {
                    self.cursor_idx = self.cursor_idx - 1;
                }
            },
        }
        proof {
            assert(self@ =~= (AppView {
                cursor: self@.cursor,
                screen: old(self)@.screen,
                phrase: old(self)@.phrase,
                cells: old(self)@.cells,
                correct_count: old(self)@.correct_count,
                elapsed_ticks: old(self)@.elapsed_ticks,
                is_typing: old(self)@.is_typing,
                exit: old(self)@.exit,
            }));
        }
    }

    /// Checks whether the keystroke `want` matches the character under the
    /// cursor; `None` when the cursor is past the end of the phrase.
    fn char_match(&self, want: char) -> (r: Option<bool>)
        ensures
            self@.cursor < self@.cells.len() ==> r == Some(
                want == self@.cells[self@.cursor].character,
            ),
            self@.cursor >= self@.cells.len() ==> r is None,
    {
        if self.cursor_idx < self.cells.len() {
            Some(self.cells[self.cursor_idx].character == want)
        } else {
            None
        }
    }

    /// Words-per-minute score in tenths: with the 5-characters-per-word
    /// convention and the fixed half-minute session, the score is
    /// `(correct / 5) / (1 / 2)` words per minute, i.e. `4 * correct` tenths.
    /// Valid to call at any time; meaningful once the screen is `Result`.
    pub fn score_tenths(&self) -> (r: u128)
        ensures
            r == 4 * self@.correct_count,
    {
        (self.correct_count as u128) * 4
    }

    /// Seconds remaining on the countdown the presentation layer shows.
    pub fn time_left(&self) -> (r: u64)
        requires
            self@.wf(),
        ensures
            r == SESSION_TICKS - self@.elapsed_ticks,
    {
        SESSION_TICKS - self.elapsed_ticks
    }

    /// Runtime check of the session invariant, for callers outside the
    /// verified world that assemble or deserialize a session by hand.
    pub fn is_well_formed(&self) -> (r: bool)
        ensures
            r == self@.wf(),
    {
        if self.cells.len() != self.phrase.len() {
            return false;
        }
        if self.cursor_idx > self.cells.len() {
            return false;
        }
        if self.elapsed_ticks > SESSION_TICKS {
            return false;
        }
        if self.elapsed_ticks == SESSION_TICKS && self.screen != Screen::Result {
            return false;
        }
        let mut i: usize = 0;
        while i < self.cells.len()
            invariant
                i <= self@.cells.len(),
                self@.cells.len() == self@.phrase.len(),
                forall|j: int|
                    0 <= j < i ==> (#[trigger] self@.cells[j]).character == self@.phrase[j],
                forall|j: int|
                    0 <= j < i ==> ((#[trigger] self@.cells[j]).highlighted <==> j == self@.cursor),
            decreases self@.cells.len() - i,
        {
            if self.cells[i].character != self.phrase[i] {
                return false;
            }
            let on_cursor = i == self.cursor_idx;
            if self.cells[i].highlighted != on_cursor {
                return false;
            }
            i = i + 1;
        }
        true
    }
}

} // verus!
