//! The decisions that a thin Xlib wrapper takes, on plain values.
//!
//! Talking to the display server is left to the caller. What is decided from
//! the server's answers stands here: how a Rust `bool` is handed to Xlib, when
//! an interned atom is a real atom, when a connection counts as closed, and
//! which event ends the event loop.
use vstd::prelude::*;

verus! {

/// The event type of a client message in the X protocol.
pub const CLIENT_MESSAGE: i32 = 33;

/// The width, in bits, of the items of a client message that carries atoms.
pub const LONG_FORMAT: i32 = 32;

/// `x11::xlib::True`, which the crate defines as 1.
#[verifier::external_body]
fn xlib_true() -> (flag: i32)
    ensures
        flag == 1,
{
    x11::xlib::True
}

/// `x11::xlib::False`, which the crate defines as 0.
#[verifier::external_body]
fn xlib_false() -> (flag: i32)
    ensures
        flag == 0,
{
    x11::xlib::False
}

/// `x11::xlib::ClientMessage`, which the crate defines as 33.
#[verifier::external_body]
fn xlib_client_message() -> (kind: i32)
    ensures
        kind == CLIENT_MESSAGE,
{
    x11::xlib::ClientMessage
}

/// Xlib's `Bool` for a Rust `bool`.
pub fn into_xlib(flag: bool) -> (xlib_flag: i32)
    ensures
        xlib_flag == (if flag { 1i32 } else { 0i32 }),
{
    match flag {
        false => xlib_false(),
        true => xlib_true(),
    }
}

/// What interning an atom gave: Xlib answers 0 where there is no such atom,
/// and the atom otherwise.
pub fn atom_from_raw(raw: u64) -> (atom: Option<u64>)
    ensures
        atom == (if raw == 0 { None } else { Some(raw) }),
{
    match raw {
        0 => None,
        x => Some(x),
    }
}

/// What closing a connection gave: Xlib answers 0 where the connection was
/// closed, and anything else is the failure.
pub fn close_status(status: i32) -> (closed: Result<(), i32>)
    ensures
        closed == (if status == 0 { Ok::<(), i32>(()) } else { Err::<(), i32>(status) }),
{
    match status {
        0 => Ok(()),
        x => Err(x),
    }
}

/// The atoms by which a window manager asks a client to close its window.
#[derive(Clone, Copy, Debug, PartialEq, Eq, Structural)]
pub struct Protocols {
    /// The atom `WM_PROTOCOLS`.
    pub wm_protocols: u64,
    /// The atom `WM_DELETE_WINDOW`.
    pub wm_delete_window: u64,
}

/// What the event loop reads of an event. For an event that is no client
/// message only `kind` means anything.
#[derive(Clone, Copy, Debug, PartialEq, Eq, Structural)]
pub struct Event {
    /// The event type.
    pub kind: i32,
    /// The atom that says what the message is about.
    pub message_type: u64,
    /// The width of the message's items, in bits.
    pub format: i32,
    /// The first item of the message, as an atom.
    pub protocol: u64,
}

/// What the event loop does after an event.
#[derive(Clone, Copy, Debug, PartialEq, Eq, Structural)]
pub enum Action {
    /// Wait for the next event.
    Wait,
    /// Leave the loop.
    Quit,
}

impl Protocols {
    /// Whether an event is the window manager's request to close the window: a
    /// client message about `WM_PROTOCOLS`, made of 32-bit items, whose first
    /// item is `WM_DELETE_WINDOW`.
    pub open spec fn asks_to_close(self, event: Event) -> bool {
        &&& event.kind == CLIENT_MESSAGE
        &&& event.message_type == self.wm_protocols
        &&& event.format == LONG_FORMAT
        &&& event.protocol == self.wm_delete_window
    }

    /// One step of the event loop: the loop ends on the request to close the
    /// window and goes on after any other event.
    pub fn on_event(&self, event: &Event) -> (action: Action)
        ensures
            action == (if self.asks_to_close(*event) { Action::Quit } else { Action::Wait }),
    {
        if event.kind == xlib_client_message() {
            if event.message_type == self.wm_protocols && event.format == LONG_FORMAT {
                if event.protocol == self.wm_delete_window {
                    return Action::Quit;
                }
            }
        }
        Action::Wait
    }
}

} // verus!
