//! What the return value of a Win32 call, and the thread's last-error code
//! read right after it, mean to the caller.
//!
//! Each function here takes the raw return value of one call together with
//! the code that `GetLastError` reported after that call, and decides the
//! outcome.  The code is only consulted where the return value signals a
//! failure.
use vstd::prelude::*;

use crate::error::Win32Error;
use crate::window::MSG;

verus! {

/// The outcome of a call that returns a handle, zero on failure
/// (`LoadCursorW`, `CreateWindowExW`): the handle, or the last error.
pub fn handle_or_error(handle: usize, last_error: Win32Error) -> (r: Result<usize, Win32Error>)
    ensures
        handle != 0 ==> r == Ok::<usize, Win32Error>(handle),
        handle == 0 ==> r == Err::<usize, Win32Error>(last_error),
{
    if handle == 0 {
        Err(last_error)
    } else {
        Ok(handle)
    }
}

/// The outcome of `RegisterClassW`: the class atom, zero on failure.
pub fn atom_or_error(atom: u16, last_error: Win32Error) -> (r: Result<u16, Win32Error>)
    ensures
        atom != 0 ==> r == Ok::<u16, Win32Error>(atom),
        atom == 0 ==> r == Err::<u16, Win32Error>(last_error),
{
    if atom == 0 {
        Err(last_error)
    } else {
        Ok(atom)
    }
}

/// The outcome of `GetMessageW`, which returns -1 on failure and otherwise
/// has filled `msg` (a `WM_QUIT` message included).
pub fn message_or_error(status: i32, msg: MSG, last_error: Win32Error) -> (r: Result<MSG, Win32Error>)
    ensures
        status != -1 ==> r == Ok::<MSG, Win32Error>(msg),
        status == -1 ==> r == Err::<MSG, Win32Error>(last_error),
{
    if status == -1 {
        Err(last_error)
    } else {
        Ok(msg)
    }
}

/// The outcome of `TranslateMessage`: whether the message was translated
/// into a character message.
pub fn translated(status: i32) -> (b: bool)
    ensures
        b == (status != 0),
{
    status != 0
}

/// The outcome of `SetWindowLongPtrW` or `GetWindowLongPtrW` on the user-data
/// slot, called after the last error was cleared to zero.  Zero is a valid
/// value of the slot, so a zero return is a failure only where the call set
/// an error code.
pub fn userdata_or_error(value: isize, last_error: Win32Error) -> (r: Result<isize, Win32Error>)
    ensures
        value != 0 ==> r == Ok::<isize, Win32Error>(value),
        value == 0 && last_error.0 == 0 ==> r == Ok::<isize, Win32Error>(0),
        value == 0 && last_error.0 != 0 ==> r == Err::<isize, Win32Error>(last_error),
{
    if value == 0 {
        if last_error.0 != 0 {
            Err(last_error)
        } else {
            Ok(0)
        }
    } else {
        Ok(value)
    }
}

} // verus!
