//! The decisions of the demo window: how its window procedure answers each
//! message, what it does with the counter kept in the window's user-data
//! slot, and when its message loop ends.
use vstd::prelude::*;

use crate::error::Win32Error;
use crate::window::{WM_CLOSE, WM_CREATE, WM_DESTROY, WM_NCCREATE, WM_PAINT, WM_QUIT, WM_SETCURSOR, MSG};

verus! {

/// `COLOR_WINDOW`: the system colour of window backgrounds.
pub const COLOR_WINDOW: usize = 5;

/// The brush with which the window fills the area to repaint: a system
/// colour index plus one, as `FillRect` takes it.
pub const PAINT_BRUSH: usize = COLOR_WINDOW + 1;

/// The messages the window procedure handles itself, and all others.
#[derive(Debug, Clone, Copy, PartialEq, Eq, Structural)]
pub enum WindowMessage {
    /// `WM_NCCREATE`: store the creation parameter as the window's counter.
    NcCreate,
    /// `WM_CREATE`: report the creation.
    Create,
    /// `WM_CLOSE`: destroy the window.
    Close,
    /// `WM_DESTROY`: free the counter and post the quit message.
    Destroy,
    /// `WM_SETCURSOR`: show the arrow cursor.
    SetCursor,
    /// `WM_PAINT`: show and advance the counter, then fill the window.
    Paint,
    /// Anything else goes to `DefWindowProcW`.
    Other,
}

/// Which of the handled messages a message identifier is.
pub open spec fn message_kind(u_msg: u32) -> WindowMessage {
    if u_msg == WM_NCCREATE {
        WindowMessage::NcCreate
    } else if u_msg == WM_CREATE {
        WindowMessage::Create
    } else if u_msg == WM_CLOSE {
        WindowMessage::Close
    } else if u_msg == WM_DESTROY {
        WindowMessage::Destroy
    } else if u_msg == WM_SETCURSOR {
        WindowMessage::SetCursor
    } else if u_msg == WM_PAINT {
        WindowMessage::Paint
    } else {
        WindowMessage::Other
    }
}

/// Classifies a message for the window procedure.
pub fn classify_message(u_msg: u32) -> (kind: WindowMessage)
    ensures
        kind == message_kind(u_msg),
        kind == WindowMessage::NcCreate <==> u_msg == 0x0081,
        kind == WindowMessage::Create <==> u_msg == 0x0001,
        kind == WindowMessage::Close <==> u_msg == 0x0010,
        kind == WindowMessage::Destroy <==> u_msg == 0x0002,
        kind == WindowMessage::SetCursor <==> u_msg == 0x0020,
        kind == WindowMessage::Paint <==> u_msg == 0x000F,
{
    if u_msg == WM_NCCREATE {
        WindowMessage::NcCreate
    } else if u_msg == WM_CREATE {
        WindowMessage::Create
    } else if u_msg == WM_CLOSE {
        WindowMessage::Close
    } else if u_msg == WM_DESTROY {
        WindowMessage::Destroy
    } else if u_msg == WM_SETCURSOR {
        WindowMessage::SetCursor
    } else if u_msg == WM_PAINT {
        WindowMessage::Paint
    } else {
        WindowMessage::Other
    }
}

/// The answer to `WM_NCCREATE`.  `stored` is `None` where the message came
/// without creation parameters, else the outcome of storing the creation
/// parameter in the user-data slot.  Creation goes on (1) only where the
/// parameter was stored; 0 makes the system abandon it.
pub fn nc_create_reply(stored: Option<Result<isize, Win32Error>>) -> (reply: isize)
    ensures
        reply == (if stored matches Some(Ok(_)) {
            1isize
        } else {
            0isize
        }),
{
    match stored {
        Some(Ok(_)) => 1,
        _ => 0,
    }
}

/// What the user-data slot of the window was found to hold.
#[derive(Debug, Clone, Copy, PartialEq, Eq, Structural)]
pub enum Userdata {
    /// The address of the window's counter.
    Counter(isize),
    /// Nothing: the slot is zero.
    Empty,
    /// The slot could not be read.
    Unreadable(Win32Error),
}

/// Classifies the outcome of reading the user-data slot.
pub fn classify_userdata(read: Result<isize, Win32Error>) -> (u: Userdata)
    ensures
        read matches Ok(v) ==> u == (if v != 0 {
            Userdata::Counter(v)
        } else {
            Userdata::Empty
        }),
        read matches Err(e) ==> u == Userdata::Unreadable(e),
{
    match read {
        Ok(v) => {
            if v != 0 {
                Userdata::Counter(v)
            } else {
                Userdata::Empty
            }
        },
        Err(e) => Userdata::Unreadable(e),
    }
}

/// The counter after a repaint: one more than it showed.
pub fn advance_counter(shown: i32) -> (next: i32)
    requires
        shown < i32::MAX,
    ensures
        next == shown + 1,
{
    shown + 1
}

/// One turn of the message loop.
#[derive(Debug, Clone, Copy, PartialEq, Eq, Structural)]
pub enum LoopStep {
    /// `WM_QUIT` arrived: leave the loop.
    Quit,
    /// Translate and dispatch the message, then wait for the next one.
    Dispatch(MSG),
    /// The queue could not be read.
    Fail(Win32Error),
}

/// Decides a turn of the message loop from what `GetMessageW` delivered.
pub fn loop_step(received: Result<MSG, Win32Error>) -> (step: LoopStep)
    ensures
        received matches Ok(m) ==> step == (if m.message == WM_QUIT {
            LoopStep::Quit
        } else {
            LoopStep::Dispatch(m)
        }),
        received matches Err(e) ==> step == LoopStep::Fail(e),
{
    match received {
        Ok(m) => {
            if m.message == WM_QUIT {
                LoopStep::Quit
            } else {
                LoopStep::Dispatch(m)
            }
        },
        Err(e) => LoopStep::Fail(e),
    }
}

/// The window procedure handles exactly its six messages itself, each one
/// under a kind of its own, and leaves every other message to the default
/// procedure.
pub proof fn lemma_handled_messages(u_msg: u32)
    ensures
        message_kind(u_msg) != WindowMessage::Other <==> (u_msg == WM_NCCREATE || u_msg == WM_CREATE
            || u_msg == WM_CLOSE || u_msg == WM_DESTROY || u_msg == WM_SETCURSOR || u_msg == WM_PAINT),
        message_kind(WM_QUIT) == WindowMessage::Other,
{
}

} // verus!
