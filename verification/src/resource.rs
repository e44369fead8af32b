//! Integer resource identifiers.
use vstd::prelude::*;

verus! {

/// The address value that `MAKEINTRESOURCEW(i)` stands for: the identifier
/// zero-extended into a pointer-sized integer.
pub open spec fn int_resource_address(i: u16) -> nat {
    i as nat
}

/// Turns a 16-bit resource identifier into the pointer-sized value that the
/// Win32 resource APIs accept in place of a resource name.  The returned
/// integer is the address that the pointer would carry.
pub fn make_int_resource_w(i: u16) -> (address: usize)
    ensures
        address == int_resource_address(i),
        address == i as usize,
        address < 0x10000,
{
    i as usize
}


/// The system's predefined cursors, by the name of their `IDC_*` identifier.
#[derive(Debug, Clone, Copy, PartialEq, Eq, Structural)]
pub enum IDCursor {
    AppStarting,
    Arrow,
    Cross,
    Hand,
    Help,
    IBeam,
    No,
    SizeAll,
    SizeNeSw,
    SizeNS,
    SizeNWSE,
    SizeWE,
    UpArrow,
    Wait,
}

/// The integer resource identifier of each predefined cursor.
pub open spec fn cursor_resource_id(cursor: IDCursor) -> u16 {
    match cursor {
        IDCursor::AppStarting => 32650,
        IDCursor::Arrow => 32512,
        IDCursor::Cross => 32515,
        IDCursor::Hand => 32649,
        IDCursor::Help => 32651,
        IDCursor::IBeam => 32513,
        IDCursor::No => 32648,
        IDCursor::SizeAll => 32646,
        IDCursor::SizeNeSw => 32643,
        IDCursor::SizeNS => 32645,
        IDCursor::SizeNWSE => 32642,
        IDCursor::SizeWE => 32644,
        IDCursor::UpArrow => 32516,
        IDCursor::Wait => 32514,
    }
}

/// `IDC_ARROW`: the resource address of the standard arrow cursor.
pub const IDC_ARROW: usize = 32512;

impl IDCursor {
    /// The integer resource identifier of the cursor, which
    /// `make_int_resource_w` turns into the name `LoadCursorW` takes.
    pub fn resource_id(&self) -> (id: u16)
        ensures
            id == cursor_resource_id(*self),
    {
        match self {
            IDCursor::AppStarting => 32650,
            IDCursor::Arrow => 32512,
            IDCursor::Cross => 32515,
            IDCursor::Hand => 32649,
            IDCursor::Help => 32651,
            IDCursor::IBeam => 32513,
            IDCursor::No => 32648,
            IDCursor::SizeAll => 32646,
            IDCursor::SizeNeSw => 32643,
            IDCursor::SizeNS => 32645,
            IDCursor::SizeNWSE => 32642,
            IDCursor::SizeWE => 32644,
            IDCursor::UpArrow => 32516,
            IDCursor::Wait => 32514,
        }
    }
}

/// Each predefined cursor has an identifier of its own, all of them in the
/// range that Windows reserves for its cursors (32512 to 32651), and the
/// arrow's is `IDC_ARROW`.
pub proof fn lemma_cursor_ids_distinct(a: IDCursor, b: IDCursor)
    ensures
        a != b ==> cursor_resource_id(a) != cursor_resource_id(b),
        32512 <= cursor_resource_id(a) <= 32651,
        int_resource_address(cursor_resource_id(IDCursor::Arrow)) == IDC_ARROW,
{
}

/// The address of an integer resource name is the identifier itself,
/// zero-extended, for every identifier.
pub proof fn lemma_int_resource_is_identifier(i: u16)
    ensures
        int_resource_address(i) == i as nat,
        int_resource_address(i) < 0x10000,
{
}

/// The identifiers of the predefined cursors are those of the `IDC_*`
/// constants of `WinUser.h`.
pub proof fn lemma_cursor_ids_match_winuser()
    ensures
        cursor_resource_id(IDCursor::Arrow) == 32512,
        cursor_resource_id(IDCursor::IBeam) == 32513,
        cursor_resource_id(IDCursor::Wait) == 32514,
        cursor_resource_id(IDCursor::Cross) == 32515,
        cursor_resource_id(IDCursor::UpArrow) == 32516,
        cursor_resource_id(IDCursor::SizeNWSE) == 32642,
        cursor_resource_id(IDCursor::SizeNeSw) == 32643,
        cursor_resource_id(IDCursor::SizeWE) == 32644,
        cursor_resource_id(IDCursor::SizeNS) == 32645,
        cursor_resource_id(IDCursor::SizeAll) == 32646,
        cursor_resource_id(IDCursor::No) == 32648,
        cursor_resource_id(IDCursor::Hand) == 32649,
        cursor_resource_id(IDCursor::AppStarting) == 32650,
        cursor_resource_id(IDCursor::Help) == 32651,
{
}

} // verus!
