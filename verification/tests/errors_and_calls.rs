use lib::calls::{atom_or_error, handle_or_error, message_or_error, translated, userdata_or_error};
use lib::error::{FormatError, Win32Error, APPLICATION_ERROR_BIT, SYSTEM_MESSAGE_FLAGS};
use lib::window::MSG;

#[test]
fn application_bit() {
    assert_eq!(APPLICATION_ERROR_BIT, 1 << 29);
    assert!(Win32Error(0x2000_0000).is_application_error());
    assert!(Win32Error(0xE000_0001).is_application_error());
    assert!(!Win32Error(5).is_application_error());
    assert!(!Win32Error(0xDFFF_FFFF).is_application_error());
}

#[test]
fn application_error_text() {
    assert_eq!(Win32Error(0x2000_0001).application_error_text(), "Win32ApplicationError(536870913)");
    assert_eq!(Win32Error(u32::MAX).application_error_text(), "Win32ApplicationError(4294967295)");
    assert_eq!(Win32Error(0).application_error_text(), "Win32ApplicationError(0)");
}

#[test]
fn display_text_application_code_ignores_system_message() {
    let units: Vec<u16> = "ignored".encode_utf16().collect();
    assert_eq!(
        Win32Error(0x2000_0007).display_text(Some(&units)),
        Ok("Win32ApplicationError(536870919)".to_string())
    );
    assert_eq!(
        Win32Error(0x2000_0007).display_text(None),
        Ok("Win32ApplicationError(536870919)".to_string())
    );
}

#[test]
fn display_text_system_code() {
    let units: Vec<u16> = "Access is denied.\r\n".encode_utf16().collect();
    assert_eq!(Win32Error(5).display_text(Some(&units)), Ok("Access is denied.".to_string()));
}

#[test]
fn display_text_without_message_fails() {
    assert_eq!(Win32Error(5).display_text(None), Err(FormatError));
    assert_eq!(Win32Error(5).display_text(Some(&[])), Err(FormatError));
}

#[test]
fn format_message_flags() {
    assert_eq!(SYSTEM_MESSAGE_FLAGS, 0x1300);
}

#[test]
fn handle_outcomes() {
    assert_eq!(handle_or_error(0x1234, Win32Error(87)), Ok(0x1234));
    assert_eq!(handle_or_error(0, Win32Error(87)), Err(Win32Error(87)));
}

#[test]
fn atom_outcomes() {
    assert_eq!(atom_or_error(0xC01A, Win32Error(1410)), Ok(0xC01A));
    assert_eq!(atom_or_error(0, Win32Error(1410)), Err(Win32Error(1410)));
}

#[test]
fn message_outcomes() {
    let mut msg = MSG::default();
    msg.message = 0x0012;
    assert_eq!(message_or_error(0, msg, Win32Error(6)), Ok(msg));
    assert_eq!(message_or_error(1, msg, Win32Error(6)), Ok(msg));
    assert_eq!(message_or_error(-1, msg, Win32Error(6)), Err(Win32Error(6)));
}

#[test]
fn translate_outcomes() {
    assert!(translated(1));
    assert!(translated(-3));
    assert!(!translated(0));
}

#[test]
fn userdata_outcomes() {
    assert_eq!(userdata_or_error(0x5000, Win32Error(1400)), Ok(0x5000));
    assert_eq!(userdata_or_error(0, Win32Error(0)), Ok(0));
    assert_eq!(userdata_or_error(0, Win32Error(1400)), Err(Win32Error(1400)));
}
