//! Window data as the Win32 API exchanges it, with handles and pointers held
//! as the integer addresses they carry, and the arguments of window creation.
use vstd::prelude::*;

use crate::wide::{wide_null, wide_null_spec};

verus! {

/// `WM_CLOSE`: the window is asked to close.
pub const WM_CLOSE: u32 = 0x0010;

/// `WM_DESTROY`: the window is being destroyed.
pub const WM_DESTROY: u32 = 0x0002;

/// `WM_PAINT`: part of the window must be repainted.
pub const WM_PAINT: u32 = 0x000F;

/// `WM_NCCREATE`: the window is about to be created.
pub const WM_NCCREATE: u32 = 0x0081;

/// `WM_CREATE`: the window has been created.
pub const WM_CREATE: u32 = 0x0001;

/// `WM_SETCURSOR`: the window is asked which cursor to show.
pub const WM_SETCURSOR: u32 = 0x0020;

/// `WM_QUIT`: the message loop should end.
pub const WM_QUIT: u32 = 0x0012;

/// `GWLP_USERDATA`: the slot of a window that its owner may use freely.
pub const GWLP_USERDATA: i32 = -21;

/// `WS_OVERLAPPED`: a window with a title bar and a border.
pub const WS_OVERLAPPED: u32 = 0x00000000;

/// `WS_CAPTION`: a title bar.
pub const WS_CAPTION: u32 = 0x00C00000;

/// `WS_SYSMENU`: a window menu on the title bar.
pub const WS_SYSMENU: u32 = 0x00080000;

/// `WS_THICKFRAME`: a sizing border.
pub const WS_THICKFRAME: u32 = 0x00040000;

/// `WS_MINIMIZEBOX`: a minimize button.
pub const WS_MINIMIZEBOX: u32 = 0x00020000;

/// `WS_MAXIMIZEBOX`: a maximize button.
pub const WS_MAXIMIZEBOX: u32 = 0x00010000;

/// `WS_VISIBLE`: the window is shown on creation.
pub const WS_VISIBLE: u32 = 0x10000000;

/// `WS_OVERLAPPEDWINDOW`: the usual top-level application window.
pub const WS_OVERLAPPEDWINDOW: u32 = WS_OVERLAPPED | WS_CAPTION | WS_SYSMENU | WS_THICKFRAME
    | WS_MINIMIZEBOX | WS_MAXIMIZEBOX;

/// `CW_USEDEFAULT`: let the system choose a position or size.
pub const CW_USEDEFAULT: i32 = -2147483648;

/// A point in window coordinates.
#[allow(non_camel_case_types)]
#[derive(Debug, Clone, Copy, PartialEq, Eq, Structural)]
pub struct POINT {
    pub x: i32,
    pub y: i32,
}

/// A rectangle by its edges.
#[allow(non_camel_case_types)]
#[derive(Debug, Clone, Copy, PartialEq, Eq, Structural)]
pub struct RECT {
    pub left: i32,
    pub top: i32,
    pub right: i32,
    pub bottom: i32,
}

/// A message from a thread's message queue.
#[allow(non_camel_case_types)]
#[derive(Debug, Clone, Copy, PartialEq, Eq, Structural)]
pub struct MSG {
    pub hwnd: usize,
    pub message: u32,
    pub w_param: usize,
    pub l_param: isize,
    pub time: u32,
    pub pt: POINT,
    pub l_private: u32,
}

/// What `BeginPaint` reports about a repaint.
#[allow(non_camel_case_types)]
#[derive(Debug, Clone, Copy, PartialEq, Eq)]
pub struct PAINTSTRUCT {
    pub hdc: usize,
    pub f_erase: i32,
    pub rc_paint: RECT,
    pub f_restore: i32,
    pub f_inc_update: i32,
    pub rgv_reserved: [u8; 32],
}

/// The creation parameters that `WM_NCCREATE` and `WM_CREATE` carry.
#[allow(non_camel_case_types)]
#[derive(Debug, Clone, Copy, PartialEq, Eq, Structural)]
pub struct CREATESTRUCTW {
    pub lp_create_params: usize,
    pub h_instance: usize,
    pub h_menu: u32,
    pub hwnd_parent: usize,
    pub cy: i32,
    pub cx: i32,
    pub y: i32,
    pub x: i32,
    pub style: i32,
    pub lpsz_name: usize,
    pub lpsz_class: usize,
    pub dw_ex_style: u32,
}

impl Default for POINT {
    /// The origin.
    fn default() -> (p: POINT)
        ensures
            p.x == 0 && p.y == 0,
    {
        POINT { x: 0, y: 0 }
    }
}

impl Default for RECT {
    /// The empty rectangle at the origin.
    fn default() -> (r: RECT)
        ensures
            r.left == 0 && r.top == 0 && r.right == 0 && r.bottom == 0,
    {
        RECT { left: 0, top: 0, right: 0, bottom: 0 }
    }
}

impl Default for MSG {
    /// A message of all zero fields.
    fn default() -> (m: MSG)
        ensures
            m.hwnd == 0 && m.message == 0 && m.w_param == 0 && m.l_param == 0 && m.time == 0,
            m.pt.x == 0 && m.pt.y == 0 && m.l_private == 0,
    {
        MSG { hwnd: 0, message: 0, w_param: 0, l_param: 0, time: 0, pt: POINT { x: 0, y: 0 }, l_private: 0 }
    }
}

impl Default for PAINTSTRUCT {
    /// A paint record of all zero fields.
    fn default() -> (p: PAINTSTRUCT)
        ensures
            p.hdc == 0 && p.f_erase == 0 && p.f_restore == 0 && p.f_inc_update == 0,
            p.rc_paint.left == 0 && p.rc_paint.top == 0 && p.rc_paint.right == 0 && p.rc_paint.bottom == 0,
            forall|i: int| 0 <= i < 32 ==> p.rgv_reserved@[i] == 0,
    {
        PAINTSTRUCT {
            hdc: 0,
            f_erase: 0,
            rc_paint: RECT { left: 0, top: 0, right: 0, bottom: 0 },
            f_restore: 0,
            f_inc_update: 0,
            rgv_reserved: [0u8; 32],
        }
    }
}

impl Default for CREATESTRUCTW {
    /// Creation parameters of all zero fields.
    fn default() -> (c: CREATESTRUCTW)
        ensures
            c.lp_create_params == 0 && c.h_instance == 0 && c.h_menu == 0 && c.hwnd_parent == 0,
            c.cy == 0 && c.cx == 0 && c.y == 0 && c.x == 0 && c.style == 0,
            c.lpsz_name == 0 && c.lpsz_class == 0 && c.dw_ex_style == 0,
    {
        CREATESTRUCTW {
            lp_create_params: 0,
            h_instance: 0,
            h_menu: 0,
            hwnd_parent: 0,
            cy: 0,
            cx: 0,
            y: 0,
            x: 0,
            style: 0,
            lpsz_name: 0,
            lpsz_class: 0,
            dw_ex_style: 0,
        }
    }
}

/// The arguments of `CreateWindowExW` for an application window, but for the
/// parent, menu, instance and creation parameter, which the caller supplies.
pub struct CreateWindowRequest {
    pub ex_style: u32,
    pub class_name: Vec<u16>,
    pub window_name: Vec<u16>,
    pub style: u32,
    pub x: i32,
    pub y: i32,
    pub width: i32,
    pub height: i32,
}

/// A pair given or, where absent, `CW_USEDEFAULT` twice.
pub open spec fn or_default_pair(p: Option<[i32; 2]>) -> (i32, i32) {
    match p {
        Some(v) => (v@[0], v@[1]),
        None => (CW_USEDEFAULT, CW_USEDEFAULT),
    }
}

/// Prepares the creation of a visible overlapped application window of the
/// class `class_name`, titled `window_name`: both names as wide strings,
/// the given position and size, and `CW_USEDEFAULT` for each one absent.
pub fn create_window_request(
    class_name: &str,
    window_name: &str,
    position: Option<[i32; 2]>,
    size: Option<[i32; 2]>,
) -> (req: CreateWindowRequest)
    ensures
        req.ex_style == 0,
        req.class_name@ == wide_null_spec(class_name@),
        req.window_name@ == wide_null_spec(window_name@),
        req.style == WS_OVERLAPPEDWINDOW | WS_VISIBLE,
        req.style == 0x10CF0000,
        (req.x, req.y) == or_default_pair(position),
        (req.width, req.height) == or_default_pair(size),
        position matches Some(p) ==> req.x == p@[0] && req.y == p@[1],
        position is None ==> req.x == -2147483648i32 && req.y == -2147483648i32,
        size matches Some(z) ==> req.width == z@[0] && req.height == z@[1],
        size is None ==> req.width == -2147483648i32 && req.height == -2147483648i32,
{
    let real_pos: [i32; 2] = match position {
        Some(pos) => pos,
        None => [CW_USEDEFAULT, CW_USEDEFAULT],
    };
    let real_size: [i32; 2] = match size {
        Some(sz) => sz,
        None => [CW_USEDEFAULT, CW_USEDEFAULT],
    };
    let style: u32 = WS_OVERLAPPEDWINDOW | WS_VISIBLE;
    assert(WS_OVERLAPPED | WS_CAPTION | WS_SYSMENU | WS_THICKFRAME | WS_MINIMIZEBOX | WS_MAXIMIZEBOX
        | WS_VISIBLE == 0x10CF0000u32) by (bit_vector);
    CreateWindowRequest {
        ex_style: 0,
        class_name: wide_null(class_name),
        window_name: wide_null(window_name),
        style,
        x: real_pos[0],
        y: real_pos[1],
        width: real_size[0],
        height: real_size[1],
    }
}

/// A pair that is given is used as it is, whatever its values; only an
/// absent one becomes `CW_USEDEFAULT` twice.
pub proof fn lemma_given_pair_kept(a: i32, b: i32, p: [i32; 2])
    requires
        p@[0] == a,
        p@[1] == b,
    ensures
        or_default_pair(Some(p)) == (a, b),
        or_default_pair(None) == (-2147483648i32, -2147483648i32),
{
}

} // verus!
