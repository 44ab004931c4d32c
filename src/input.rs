//! The keyboard bindings.

use vstd::prelude::*;
use crate::btui::AppEvent;

verus! {

/// A key as the terminal reports it, reduced to what the bindings tell apart.
#[derive(Clone, Copy, PartialEq, Eq, Structural, Debug)]
pub enum Key {
    Char(char),
    Esc,
    Up,
    Down,
    Other,
}

/// The event a key press stands for: `q` quits, escape returns, `j`/down and
/// `k`/up move the highlight, `c`, `p`, `d`, `r` ask to connect, pair,
/// disconnect and remove, `h` shows or hides unnamed devices, `i` inspects;
/// any other key only asks for a redraw.
pub open spec fn key_event(k: Key) -> AppEvent {
    match k {
        Key::Char('q') => AppEvent::Exit,
        Key::Esc => AppEvent::Esc,
        Key::Char('j') | Key::Down => AppEvent::ScrollDown,
        Key::Char('k') | Key::Up => AppEvent::ScrollUp,
        Key::Char('c') => AppEvent::ConnectRequested,
        Key::Char('p') => AppEvent::PairRequested,
        Key::Char('d') => AppEvent::DisconnectRequested,
        Key::Char('r') => AppEvent::RemoveRequested,
        Key::Char('h') => AppEvent::ShowHideUnnamed,
        Key::Char('i') => AppEvent::InspectCurrent,
        _ => AppEvent::Pass,
    }
}

/// The event for a key press.
pub fn event_for_key(k: Key) -> (r: AppEvent)
    ensures
        r == key_event(k),
{
    match k {
        Key::Char('q') => AppEvent::Exit,
        Key::Esc => AppEvent::Esc,
        Key::Char('j') | Key::Down => AppEvent::ScrollDown,
        Key::Char('k') | Key::Up => AppEvent::ScrollUp,
        Key::Char('c') => AppEvent::ConnectRequested,
        Key::Char('p') => AppEvent::PairRequested,
        Key::Char('d') => AppEvent::DisconnectRequested,
        Key::Char('r') => AppEvent::RemoveRequested,
        Key::Char('h') => AppEvent::ShowHideUnnamed,
        Key::Char('i') => AppEvent::InspectCurrent,
        _ => AppEvent::Pass,
    }
}

} // verus!
