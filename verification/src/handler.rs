//! Key-event handling: maps one key event to a session transition, and tells
//! the caller which outside work — arming the timer, drawing a new phrase —
//! must follow. The run loop converts raw terminal events to [`KeyInput`],
//! calls [`handle_key_events`], and performs the returned [`Action`].

use vstd::prelude::*;
use crate::app::begin_session_spec;
use crate::app::enter_char_spec;
use crate::app::quit_spec;
use crate::app::remove_char_spec;
use crate::app::App;
use crate::app::AppView;
use crate::app::Screen;

verus! {

/// One key event, as the input layer delivers it. `Resize` and every key the
/// core does not define handling for arrive as `Other` and are ignored.
#[derive(Clone, Copy, Debug, PartialEq, Eq, Structural)]
pub enum KeyInput {
    /// A character key, with the state of the control modifier.
    Press { ch: char, ctrl: bool },
    Backspace,
    Enter,
    Escape,
    Tab,
    Other,
}

/// Outside work the caller must perform after a key event was handled. The
/// core does not own the timer's execution nor the phrase source; it only
/// decides when they are needed.
#[derive(Clone, Copy, Debug, PartialEq, Eq, Structural)]
pub enum Action {
    /// Nothing to do.
    Idle,
    /// Arm the session timer: one tick per second, for the whole session.
    ArmTimer,
    /// Draw a new phrase and hand it to `App::reset`.
    DrawPhrase,
}

/// The control-C chord that requests exit on every screen.
pub open spec fn is_ctrl_c(ch: char, ctrl: bool) -> bool {
    (ch == 'c' || ch == 'C') && ctrl
}

/// The session with its timer marked armed; everything else is kept.
pub open spec fn arm_spec(v: AppView) -> AppView {
    AppView {
        screen: v.screen,
        phrase: v.phrase,
        cells: v.cells,
        cursor: v.cursor,
        correct_count: v.correct_count,
        elapsed_ticks: v.elapsed_ticks,
        is_typing: true,
        exit: v.exit,
    }
}

/// The session transition one key event causes. On `Start`, enter begins the
/// session; while `Typing`, characters feed the matching engine (arming the
/// timer on the first one) and backspace retreats once the timer is armed; on
/// `Result`, the state is only left on a reset, which the caller performs by
/// drawing a phrase. Escape and control-C request exit on every screen.
pub open spec fn handle_key_spec(v: AppView, key: KeyInput) -> AppView {
    match v.screen {
        Screen::Start => match key {
            KeyInput::Escape => quit_spec(v),
            KeyInput::Enter => begin_session_spec(v),
            KeyInput::Press { ch, ctrl } => if is_ctrl_c(ch, ctrl) {
                quit_spec(v)
            } else {
                v
            },
            _ => v,
        },
        Screen::Typing => match key {
            KeyInput::Escape => quit_spec(v),
            KeyInput::Backspace => if v.is_typing {
                remove_char_spec(v)
            } else {
                v
            },
            KeyInput::Press { ch, ctrl } => {
                let v2 = enter_char_spec(
                    if is_ctrl_c(ch, ctrl) {
                        quit_spec(v)
                    } else {
                        v
                    },
                    ch,
                );
                if !v.is_typing {
                    arm_spec(v2)
                } else {
                    v2
                }
            },
            _ => v,
        },
        Screen::Result => match key {
            KeyInput::Escape => quit_spec(v),
            KeyInput::Press { ch, ctrl } => if is_ctrl_c(ch, ctrl) {
                quit_spec(v)
            } else {
                v
            },
            _ => v,
        },
    }
}

/// The outside work owed after a key event: the first character of a
/// `Typing` screen arms the timer; tab (or `h`) on the `Result` screen asks
/// for a new phrase.
pub open spec fn key_action_spec(v: AppView, key: KeyInput) -> Action {
    match v.screen {
        Screen::Start => Action::Idle,
        Screen::Typing => match key {
            KeyInput::Press { ch, ctrl } => if !v.is_typing {
                Action::ArmTimer
            } else {
                Action::Idle
            },
            _ => Action::Idle,
        },
        Screen::Result => match key {
            KeyInput::Tab => Action::DrawPhrase,
            KeyInput::Press { ch, ctrl } => if ch == 'h' || ch == 'H' {
                Action::DrawPhrase
            } else {
                Action::Idle
            },
            _ => Action::Idle,
        },
    }
}

/// Handles one key event and updates the state of [`App`]; the returned
/// [`Action`] is the outside work the caller must perform afterwards.
pub fn handle_key_events(key: KeyInput, app: &mut App) -> (action: Action)
    requires
        old(app)@.wf(),
    ensures
        final(app)@ == handle_key_spec(old(app)@, key),
        final(app)@.wf(),
        action == key_action_spec(old(app)@, key),
{
    let action: Action = match app.screen {
        Screen::Start => match key {
            KeyInput::Escape => {
                app.quit();
                Action::Idle
            },
            KeyInput::Enter => {
                app.begin_session();
                Action::Idle
            },
            KeyInput::Press { ch, ctrl } => {
                if (ch == 'c' || ch == 'C') && ctrl {
                    app.quit();
                }
                Action::Idle
            },
            _ => Action::Idle,
        },
        Screen::Typing => match key {
            KeyInput::Escape => {
                app.quit();
                Action::Idle
            },
            KeyInput::Backspace => {
                if app.is_typing {
                    app.remove_char();
                }
                Action::Idle
            },
            KeyInput::Press { ch, ctrl } => {
                if (ch == 'c' || ch == 'C') && ctrl {
                    app.quit();
                }
                app.enter_char(ch);
                if !app.is_typing {
                    app.is_typing = true;
                    Action::ArmTimer
                } else {
                    Action::Idle
                }
            },
            _ => Action::Idle,
        },
        Screen::Result => match key {
            KeyInput::Escape => {
                app.quit();
                Action::Idle
            },
            KeyInput::Tab => Action::DrawPhrase,
            KeyInput::Press { ch, ctrl } => {
                if (ch == 'c' || ch == 'C') && ctrl {
                    app.quit();
                }
                if ch == 'h' || ch == 'H' {
                    Action::DrawPhrase
                } else {
                    Action::Idle
                }
            },
            _ => Action::Idle,
        },
    };
    proof {
        assert(app@ =~= handle_key_spec(old(app)@, key));
    }
    action
}

} // verus!
