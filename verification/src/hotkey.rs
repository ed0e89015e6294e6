//! The state machine behind the global hotkeys.
//!
//! While a control key is held, the paste key replays the head of the queue
//! and the toggle key flips the enabled flag. The listener that feeds the
//! machine runs inside the system's input path, so a step only decides: it
//! never waits, and writing to the clipboard is left to the caller.

use crate::record::{Data, DataView};
use crate::state::{PasteStep, SharedState, StateView};
use vstd::prelude::*;

verus! {

/// The keys that the machine tells apart.
#[derive(Clone, Copy, Debug, PartialEq, Eq, Structural)]
pub enum Key {
    ControlLeft,
    ControlRight,
    /// The paste key, the letter V.
    KeyV,
    /// The toggle key, the backtick.
    BackQuote,
    /// Any other key.
    Other,
}

/// A key going down or coming up.
#[derive(Clone, Copy, Debug, PartialEq, Eq, Structural)]
pub enum KeyEvent {
    Press(Key),
    Release(Key),
}

/// What the caller has to do after a key event.
#[derive(Debug)]
pub enum HotkeyAction {
    /// Nothing.
    Idle,
    /// Write this record to the clipboard, under its own format, and report
    /// a successful write with [`SharedState::paste_written`].
    Replay(Data),
}

/// Tracks whether a control key is held. It starts released, and a key
/// coming up that never went down leaves it released.
#[derive(Debug)]
pub struct HotkeyController {
    ctrl_held: bool,
}

impl Key {
    /// Whether the key is one of the two control keys.
    pub open spec fn is_control(self) -> bool {
        self == Key::ControlLeft || self == Key::ControlRight
    }
}

/// Whether a control key counts as held after `event`, when it counted as
/// `held` before.
pub open spec fn held_after(held: bool, event: KeyEvent) -> bool {
    match event {
        KeyEvent::Press(key) => held || key.is_control(),
        KeyEvent::Release(key) => held && !key.is_control(),
    }
}

/// Whether `event` is the paste command: the paste key going down while a
/// control key is held.
pub open spec fn is_paste_command(held: bool, event: KeyEvent) -> bool {
    held && event == KeyEvent::Press(Key::KeyV)
}

/// Whether `event` is the toggle command: the toggle key going down while a
/// control key is held.
pub open spec fn is_toggle_command(held: bool, event: KeyEvent) -> bool {
    held && event == KeyEvent::Press(Key::BackQuote)
}

/// The shared state after `event`, when a control key counted as `held`.
pub open spec fn state_after_key(held: bool, s: StateView, event: KeyEvent) -> StateView {
    if is_paste_command(held, event) {
        s.after_paste()
    } else if is_toggle_command(held, event) {
        s.toggled()
    } else {
        s
    }
}

/// The record that `event` sends to the clipboard, if any.
pub open spec fn replayed_by_key(held: bool, s: StateView, event: KeyEvent) -> Option<DataView> {
    if is_paste_command(held, event) {
        s.replays()
    } else {
        None
    }
}

impl View for HotkeyController {
    type V = bool;

    closed spec fn view(&self) -> bool {
        self.ctrl_held
    }
}

impl HotkeyAction {
    /// The record to replay, if the action is a replay.
    pub open spec fn record(self) -> Option<DataView> {
        match self {
            HotkeyAction::Idle => None,
            HotkeyAction::Replay(record) => Some(record@),
        }
    }
}

impl HotkeyController {
    /// A controller with the control keys released.
    pub fn new() -> (controller: HotkeyController)
        ensures
            !controller@,
    {
        HotkeyController { ctrl_held: false }
    }

    /// Whether a control key counts as held.
    pub fn ctrl_held(&self) -> (held: bool)
        ensures
            held == self@,
    {
        self.ctrl_held
    }

    /// Takes one key event: updates the control flag and, for a command,
    /// the shared state, and tells the caller what to do.
    pub fn on_event(&mut self, state: &mut SharedState, event: KeyEvent) -> (action: HotkeyAction)
        ensures
            final(self)@ == held_after(old(self)@, event),
            final(state)@ == state_after_key(old(self)@, old(state)@, event),
            action.record() == replayed_by_key(old(self)@, old(state)@, event),
            action matches HotkeyAction::Replay(record) ==> record.wf(),
    {
        match event {
            KeyEvent::Press(Key::ControlLeft) | KeyEvent::Press(Key::ControlRight) => {
                self.ctrl_held = true;
                HotkeyAction::Idle
            },
            KeyEvent::Release(Key::ControlLeft) | KeyEvent::Release(Key::ControlRight) => {
                self.ctrl_held = false;
                HotkeyAction::Idle
            },
            KeyEvent::Press(Key::KeyV) => {
                if self.ctrl_held {
                    match state.begin_paste() {
                        PasteStep::Replay(record) => HotkeyAction::Replay(record),
                        _ => HotkeyAction::Idle,
                    }
                } else {
                    HotkeyAction::Idle
                }
            },
            KeyEvent::Press(Key::BackQuote) => {
                if self.ctrl_held {
                    state.toggle_enabled();
                }
                HotkeyAction::Idle
            },
            _ => HotkeyAction::Idle,
        }
    }
}

/// A control key coming up leaves the flag released, whether or not the key
/// was seen going down, and no key event other than a control key changes
/// the flag.
pub proof fn law_control_flag(held: bool, event: KeyEvent)
    ensures
        event matches KeyEvent::Release(key) && key.is_control() ==> !held_after(held, event),
        event matches KeyEvent::Press(key) && key.is_control() ==> held_after(held, event),
        event matches KeyEvent::Press(key) && !key.is_control() ==> held_after(held, event)
            == held,
        event matches KeyEvent::Release(key) && !key.is_control() ==> held_after(held, event)
            == held,
{
}

/// Without a control key held, no key event changes the shared state or
/// replays a record.
pub proof fn law_commands_need_control(s: StateView, event: KeyEvent)
    ensures
        state_after_key(false, s, event) == s,
        replayed_by_key(false, s, event) is None,
{
}

/// The paste command on an empty queue, while enabled, replays nothing,
/// leaves the queue empty and clears the enabled flag; the toggle command
/// flips the flag whatever the queue holds.
pub proof fn law_commands(s: StateView)
    ensures
        s.enabled && s.queue.len() == 0 ==> {
            &&& replayed_by_key(true, s, KeyEvent::Press(Key::KeyV)) is None
            &&& state_after_key(true, s, KeyEvent::Press(Key::KeyV)).queue.len() == 0
            &&& !state_after_key(true, s, KeyEvent::Press(Key::KeyV)).enabled
        },
        state_after_key(true, s, KeyEvent::Press(Key::BackQuote)) == s.toggled(),
{
}

} // verus!
