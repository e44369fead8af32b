use lib::error::Win32Error;
use lib::procedure::{
    advance_counter, classify_message, classify_userdata, loop_step, nc_create_reply, LoopStep, Userdata,
    WindowMessage, PAINT_BRUSH,
};
use lib::resource::{make_int_resource_w, IDCursor, IDC_ARROW};
use lib::window::{
    create_window_request, CREATESTRUCTW, CW_USEDEFAULT, MSG, PAINTSTRUCT, POINT, RECT, WM_CLOSE, WM_CREATE,
    WM_DESTROY, WM_NCCREATE, WM_PAINT, WM_QUIT, WM_SETCURSOR, WS_OVERLAPPEDWINDOW, WS_VISIBLE,
};
use lib::wide::wide_null;

#[test]
fn cursor_identifiers() {
    assert_eq!(IDCursor::Arrow.resource_id(), 32512);
    assert_eq!(IDCursor::AppStarting.resource_id(), 32650);
    assert_eq!(IDCursor::Cross.resource_id(), 32515);
    assert_eq!(IDCursor::Hand.resource_id(), 32649);
    assert_eq!(IDCursor::Help.resource_id(), 32651);
    assert_eq!(IDCursor::IBeam.resource_id(), 32513);
    assert_eq!(IDCursor::No.resource_id(), 32648);
    assert_eq!(IDCursor::SizeAll.resource_id(), 32646);
    assert_eq!(IDCursor::SizeNeSw.resource_id(), 32643);
    assert_eq!(IDCursor::SizeNS.resource_id(), 32645);
    assert_eq!(IDCursor::SizeNWSE.resource_id(), 32642);
    assert_eq!(IDCursor::SizeWE.resource_id(), 32644);
    assert_eq!(IDCursor::UpArrow.resource_id(), 32516);
    assert_eq!(IDCursor::Wait.resource_id(), 32514);
    assert_eq!(make_int_resource_w(IDCursor::Arrow.resource_id()), IDC_ARROW);
}

#[test]
fn cursor_identifiers_are_distinct() {
    let all = [
        IDCursor::AppStarting,
        IDCursor::Arrow,
        IDCursor::Cross,
        IDCursor::Hand,
        IDCursor::Help,
        IDCursor::IBeam,
        IDCursor::No,
        IDCursor::SizeAll,
        IDCursor::SizeNeSw,
        IDCursor::SizeNS,
        IDCursor::SizeNWSE,
        IDCursor::SizeWE,
        IDCursor::UpArrow,
        IDCursor::Wait,
    ];
    for (i, a) in all.iter().enumerate() {
        for (j, b) in all.iter().enumerate() {
            assert_eq!(i == j, a.resource_id() == b.resource_id());
        }
    }
}

#[test]
fn window_style() {
    assert_eq!(WS_OVERLAPPEDWINDOW, 0x00CF0000);
    assert_eq!(WS_OVERLAPPEDWINDOW | WS_VISIBLE, 0x10CF0000);
    assert_eq!(CW_USEDEFAULT, 0x80000000u32 as i32);
}

#[test]
fn create_window_request_defaults() {
    let req = create_window_request("New Window Class", "New Window", None, None);
    assert_eq!(req.ex_style, 0);
    assert_eq!(req.class_name, wide_null("New Window Class"));
    assert_eq!(req.window_name, wide_null("New Window"));
    assert_eq!(req.style, 0x10CF0000);
    assert_eq!((req.x, req.y, req.width, req.height), (CW_USEDEFAULT, CW_USEDEFAULT, CW_USEDEFAULT, CW_USEDEFAULT));
}

#[test]
fn create_window_request_given_placement() {
    let req = create_window_request("C", "W", Some([10, 20]), Some([640, 480]));
    assert_eq!((req.x, req.y, req.width, req.height), (10, 20, 640, 480));
    let req = create_window_request("C", "W", Some([-5, 7]), None);
    assert_eq!((req.x, req.y, req.width, req.height), (-5, 7, CW_USEDEFAULT, CW_USEDEFAULT));
}

#[test]
fn zeroed_defaults() {
    assert_eq!(POINT::default(), POINT { x: 0, y: 0 });
    assert_eq!(RECT::default(), RECT { left: 0, top: 0, right: 0, bottom: 0 });
    let m = MSG::default();
    assert_eq!((m.hwnd, m.message, m.w_param, m.l_param, m.time, m.l_private), (0, 0, 0, 0, 0, 0));
    assert_eq!(m.pt, POINT { x: 0, y: 0 });
    let p = PAINTSTRUCT::default();
    assert_eq!((p.hdc, p.f_erase, p.f_restore, p.f_inc_update), (0, 0, 0, 0));
    assert_eq!(p.rc_paint, RECT::default());
    assert_eq!(p.rgv_reserved, [0u8; 32]);
    let c = CREATESTRUCTW::default();
    assert_eq!((c.lp_create_params, c.h_instance, c.hwnd_parent, c.lpsz_name, c.lpsz_class), (0, 0, 0, 0, 0));
    assert_eq!((c.h_menu, c.dw_ex_style), (0, 0));
    assert_eq!((c.cy, c.cx, c.y, c.x, c.style), (0, 0, 0, 0, 0));
}

#[test]
fn message_classification() {
    assert_eq!(classify_message(WM_NCCREATE), WindowMessage::NcCreate);
    assert_eq!(classify_message(WM_CREATE), WindowMessage::Create);
    assert_eq!(classify_message(WM_CLOSE), WindowMessage::Close);
    assert_eq!(classify_message(WM_DESTROY), WindowMessage::Destroy);
    assert_eq!(classify_message(WM_SETCURSOR), WindowMessage::SetCursor);
    assert_eq!(classify_message(WM_PAINT), WindowMessage::Paint);
    assert_eq!(classify_message(WM_QUIT), WindowMessage::Other);
    assert_eq!(classify_message(0x0200), WindowMessage::Other);
}

#[test]
fn message_values() {
    assert_eq!((WM_CLOSE, WM_DESTROY, WM_PAINT, WM_NCCREATE), (0x10, 0x02, 0x0F, 0x81));
    assert_eq!((WM_CREATE, WM_SETCURSOR, WM_QUIT), (0x01, 0x20, 0x12));
}

#[test]
fn nc_create_replies() {
    assert_eq!(nc_create_reply(None), 0);
    assert_eq!(nc_create_reply(Some(Ok(0))), 1);
    assert_eq!(nc_create_reply(Some(Err(Win32Error(5)))), 0);
}

#[test]
fn userdata_classification() {
    assert_eq!(classify_userdata(Ok(0x7000)), Userdata::Counter(0x7000));
    assert_eq!(classify_userdata(Ok(0)), Userdata::Empty);
    assert_eq!(classify_userdata(Err(Win32Error(1400))), Userdata::Unreadable(Win32Error(1400)));
}

#[test]
fn counter_advances_by_one() {
    assert_eq!(advance_counter(5), 6);
    assert_eq!(advance_counter(-1), 0);
    assert_eq!(advance_counter(i32::MAX - 1), i32::MAX);
}

#[test]
fn paint_brush_is_window_colour_plus_one() {
    assert_eq!(PAINT_BRUSH, 6);
}

#[test]
fn loop_steps() {
    let mut quit = MSG::default();
    quit.message = WM_QUIT;
    assert_eq!(loop_step(Ok(quit)), LoopStep::Quit);
    let mut paint = MSG::default();
    paint.message = WM_PAINT;
    assert_eq!(loop_step(Ok(paint)), LoopStep::Dispatch(paint));
    assert_eq!(loop_step(Err(Win32Error(6))), LoopStep::Fail(Win32Error(6)));
}
