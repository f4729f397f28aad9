//! Laws of the session state machine that relate several operations: the
//! shape of a fresh buffer, what a run of keystrokes does to cursor and
//! correct counter, and how the countdown drives the screen to `Result`.

use vstd::prelude::*;
use crate::app::enter_char_spec;
use crate::app::fresh_cells;
use crate::app::fresh_view;
use crate::app::sat_inc;
use crate::app::tick_spec;
use crate::app::AppView;
use crate::app::Screen;
use crate::app::SESSION_TICKS;
use crate::buffer::lemma_build_spec;
use crate::buffer::MatchState;

verus! {

/// A freshly built buffer has one cell per phrase character, every verdict
/// still `Pending`, and exactly cell 0 highlighted (none for an empty
/// phrase).
pub proof fn lemma_fresh_cells(phrase: Seq<char>)
    ensures
        fresh_cells(phrase).len() == phrase.len(),
        forall|i: int|
            0 <= i < phrase.len() ==> (#[trigger] fresh_cells(phrase)[i]).character == phrase[i],
        forall|i: int|
            0 <= i < phrase.len() ==> (#[trigger] fresh_cells(phrase)[i]).match_state
                == MatchState::Pending,
        forall|i: int|
            0 <= i < phrase.len() ==> ((#[trigger] fresh_cells(phrase)[i]).highlighted <==> i == 0),
{
    lemma_build_spec(phrase);
}

/// A fresh session is well formed, whatever screen it starts on.
pub proof fn lemma_fresh_view_wf(phrase: Seq<char>, screen: Screen, exit: bool)
    ensures
        fresh_view(phrase, screen, exit).wf(),
{
    lemma_fresh_cells(phrase);
}

/// The session after a run of keystrokes, applied in order.
pub open spec fn apply_enter_chars(v: AppView, inputs: Seq<char>) -> AppView
    decreases inputs.len(),
{
    if inputs.len() == 0 {
        v
    } else {
        apply_enter_chars(enter_char_spec(v, inputs[0]), inputs.skip(1))
    }
}

/// How many keystrokes of `inputs` match the phrase at the position the
/// cursor has when they are typed, the first being typed at `start`.
pub open spec fn count_matches(phrase: Seq<char>, inputs: Seq<char>, start: int) -> int
    decreases inputs.len(),
{
    if inputs.len() == 0 {
        0
    } else {
        (if inputs[0] == phrase[start] {
            1int
        } else {
            0int
        }) + count_matches(phrase, inputs.skip(1), start + 1)
    }
}

/// One keystroke with the cursor on a cell: the cursor advances by one, the
/// correct counter grows exactly on a match with the phrase character under
/// the cursor, and nothing else of the session changes.
pub proof fn lemma_enter_char_step(v: AppView, ch: char)
    requires
        v.wf(),
        v.cursor < v.cells.len(),
    ensures
        enter_char_spec(v, ch).wf(),
        enter_char_spec(v, ch).cursor == v.cursor + 1,
        enter_char_spec(v, ch).correct_count == (if ch == v.phrase[v.cursor] {
            sat_inc(v.correct_count)
        } else {
            v.correct_count
        }),
        enter_char_spec(v, ch).cells.len() == v.cells.len(),
        enter_char_spec(v, ch).phrase == v.phrase,
        enter_char_spec(v, ch).screen == v.screen,
        enter_char_spec(v, ch).elapsed_ticks == v.elapsed_ticks,
        enter_char_spec(v, ch).is_typing == v.is_typing,
        enter_char_spec(v, ch).exit == v.exit,
{
}

/// A run of `k <= cells.len() - cursor` keystrokes advances the cursor by
/// exactly `k`, and the correct counter by exactly the number of keystrokes
/// that matched the phrase at their position at call time.
pub proof fn lemma_enter_chars(v: AppView, inputs: Seq<char>)
    requires
        v.wf(),
        v.cursor + inputs.len() <= v.cells.len(),
        v.correct_count + inputs.len() <= u64::MAX,
    ensures
        apply_enter_chars(v, inputs).wf(),
        apply_enter_chars(v, inputs).cursor == v.cursor + inputs.len(),
        apply_enter_chars(v, inputs).correct_count == v.correct_count + count_matches(
            v.phrase,
            inputs,
            v.cursor,
        ),
        apply_enter_chars(v, inputs).phrase == v.phrase,
        apply_enter_chars(v, inputs).cells.len() == v.cells.len(),
    decreases inputs.len(),
{
    if inputs.len() > 0 {
        lemma_enter_char_step(v, inputs[0]);
        lemma_enter_chars(enter_char_spec(v, inputs[0]), inputs.skip(1));
    }
}

/// A run of keystrokes typed into a fresh session, one per cell at most:
/// the cursor ends at the number of keystrokes, and the correct counter at
/// the number of them that matched the phrase at their position.
pub proof fn lemma_typing_run(phrase: Seq<char>, screen: Screen, exit: bool, inputs: Seq<char>)
    requires
        inputs.len() <= phrase.len(),
        inputs.len() <= u64::MAX,
    ensures
        apply_enter_chars(fresh_view(phrase, screen, exit), inputs).cursor == inputs.len(),
        apply_enter_chars(fresh_view(phrase, screen, exit), inputs).correct_count == count_matches(
            phrase,
            inputs,
            0,
        ),
{
    lemma_fresh_view_wf(phrase, screen, exit);
    lemma_fresh_cells(phrase);
    lemma_enter_chars(fresh_view(phrase, screen, exit), inputs);
}

/// The session after `n` timer ticks, applied in order.
pub open spec fn apply_ticks(v: AppView, n: nat) -> AppView
    decreases n,
{
    if n == 0 {
        v
    } else {
        tick_spec(apply_ticks(v, (n - 1) as nat))
    }
}

/// The countdown of an armed `Typing` session: after `n <= 30` ticks the
/// elapsed counter reads exactly `n`, and the screen has moved to `Result`
/// exactly on the 30th tick, never before. Nothing else of the session
/// changes.
pub proof fn lemma_session_countdown(v: AppView, n: nat)
    requires
        v.wf(),
        v.screen == Screen::Typing,
        v.is_typing,
        v.elapsed_ticks == 0,
        n <= SESSION_TICKS,
    ensures
        apply_ticks(v, n).wf(),
        apply_ticks(v, n).elapsed_ticks == n,
        apply_ticks(v, n).screen == (if n == SESSION_TICKS {
            Screen::Result
        } else {
            Screen::Typing
        }),
        apply_ticks(v, n).phrase == v.phrase,
        apply_ticks(v, n).cells == v.cells,
        apply_ticks(v, n).cursor == v.cursor,
        apply_ticks(v, n).correct_count == v.correct_count,
        apply_ticks(v, n).is_typing == v.is_typing,
        apply_ticks(v, n).exit == v.exit,
    decreases n,
{
    if n > 0 {
        lemma_session_countdown(v, (n - 1) as nat);
    }
}

} // verus!
