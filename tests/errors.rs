use clipboard2::errors::display_text;
use clipboard2::{ClipboardError, MacOsError, WinError};
use std::fmt;

const UNIMPLEMENTED: &str = "Attempting to set the contents of the clipboard, which hasn't yet been implemented on this platform.";

fn invalid_utf8() -> std::string::FromUtf8Error {
    String::from_utf8(vec![0x61, 0xff, 0x62]).unwrap_err()
}

#[derive(Debug)]
struct Layered(std::string::FromUtf8Error);

impl fmt::Display for Layered {
    fn fmt(&self, f: &mut fmt::Formatter) -> fmt::Result {
        f.write_str("layered")
    }
}

impl std::error::Error for Layered {
    fn source(&self) -> Option<&(dyn std::error::Error + 'static)> {
        Some(&self.0)
    }
}

#[test]
fn win_error_descriptions() {
    assert_eq!(
        WinError::EmptyClipboard.description(),
        "Empty clipboard or couldn't determine format of clipboard contents"
    );
    assert_eq!(
        WinError::FormatNoSize.description(),
        "Could not determine the length of the clipboard contents"
    );
}

#[test]
fn macos_error_descriptions() {
    assert_eq!(MacOsError::PasteWriteObjectsError.description(), "Could not paste objects to clipboard");
    assert_eq!(MacOsError::ReadObjectsForClassesEmpty.description(), "Clipboard is empty");
    assert_eq!(MacOsError::ReadObjectsForClassesNull.description(), "No objects to read");
    assert_eq!(MacOsError::PasteboardNotFound.description(), "Pasteboard not found");
    assert_eq!(MacOsError::NullPasteboard.description(), "General pasteboard not found");
}

#[test]
fn display_text_without_cause() {
    assert_eq!(display_text("boom", None), "Clipboard Error: boom\r\n");
}

#[test]
fn display_text_with_cause() {
    assert_eq!(display_text("boom", Some("deeper")), "Clipboard Error: boom\r\ncause: deeper");
}

#[test]
fn display_text_of_empty_parts() {
    assert_eq!(display_text("", None), "Clipboard Error: \r\n");
    assert_eq!(display_text("", Some("")), "Clipboard Error: \r\ncause: ");
}

#[test]
fn unimplemented_error() {
    let e = ClipboardError::Unimplemented;
    assert_eq!(e.description(), UNIMPLEMENTED);
    assert_eq!(e.cause(), None);
    assert_eq!(e.to_string(), format!("Clipboard Error: {}\r\n", UNIMPLEMENTED));
}

#[test]
fn windows_error_lifts_and_displays() {
    let e = ClipboardError::from(WinError::EmptyClipboard);
    assert!(matches!(e, ClipboardError::WindowsClipboardError(WinError::EmptyClipboard)));
    assert_eq!(e.cause(), None);
    assert_eq!(
        e.to_string(),
        "Clipboard Error: Empty clipboard or couldn't determine format of clipboard contents\r\n"
    );
}

#[test]
fn macos_error_lifts_and_displays() {
    let e = ClipboardError::from(MacOsError::PasteboardNotFound);
    assert!(matches!(e, ClipboardError::MacOsClipboardError(MacOsError::PasteboardNotFound)));
    assert_eq!(e.cause(), None);
    assert_eq!(e.to_string(), "Clipboard Error: Pasteboard not found\r\n");
}

#[test]
fn io_error_lifts_with_its_own_text() {
    let e = ClipboardError::from(std::io::Error::new(std::io::ErrorKind::Other, "disk on fire"));
    assert!(matches!(e, ClipboardError::IoError(_)));
    assert_eq!(e.description(), "disk on fire");
    assert_eq!(e.cause(), None);
    assert_eq!(e.to_string(), "Clipboard Error: disk on fire\r\n");
}

#[test]
fn io_error_cause_is_inner_errors_cause() {
    let inner = invalid_utf8();
    let inner_text = inner.to_string();
    let e = ClipboardError::from(std::io::Error::new(std::io::ErrorKind::Other, Layered(inner)));
    assert_eq!(e.description(), "layered");
    assert_eq!(e.cause(), Some(inner_text.clone()));
    assert_eq!(e.to_string(), format!("Clipboard Error: layered\r\ncause: {}", inner_text));
}

#[test]
fn encoding_error_lifts_with_its_own_text() {
    let inner = invalid_utf8();
    let text = inner.to_string();
    let e = ClipboardError::from(inner);
    assert!(matches!(e, ClipboardError::EncodingError(_)));
    assert_eq!(e.description(), text);
    assert_eq!(e.cause(), None);
    assert_eq!(e.to_string(), format!("Clipboard Error: {}\r\n", text));
}

#[test]
fn x11_error_lifts_without_cause() {
    let e = ClipboardError::from(x11_clipboard::error::Error::Timeout);
    assert!(matches!(e, ClipboardError::X11ClipboardError(x11_clipboard::error::Error::Timeout)));
    assert_eq!(e.description(), "Selection timed out");
    assert_eq!(e.cause(), None);
    assert_eq!(e.to_string(), "Clipboard Error: Selection timed out\r\n");
}

#[test]
fn headless_connection_failure_is_described() {
    // Without a reachable display server the connection fails; where one is
    // reachable there is no failure to describe.
    if let Err(native) = x11_clipboard::Clipboard::new() {
        let text = native.to_string();
        let e = ClipboardError::from(native);
        assert!(matches!(e, ClipboardError::X11ClipboardError(_)));
        assert!(e.description().contains(&text));
        assert!(e.to_string().contains(&text));
    }
}

#[test]
fn display_is_nonempty_and_stable_for_every_own_variant() {
    let mut all = vec![ClipboardError::Unimplemented];
    for w in [WinError::EmptyClipboard, WinError::FormatNoSize] {
        all.push(ClipboardError::from(w));
    }
    for m in [
        MacOsError::PasteWriteObjectsError,
        MacOsError::ReadObjectsForClassesEmpty,
        MacOsError::ReadObjectsForClassesNull,
        MacOsError::PasteboardNotFound,
        MacOsError::NullPasteboard,
    ] {
        all.push(ClipboardError::from(m));
    }
    for e in &all {
        assert!(!e.description().is_empty());
        assert!(!e.to_string().is_empty());
        assert_eq!(e.to_string(), e.to_string());
    }
}

#[test]
fn every_lift_gives_its_own_variant() {
    assert!(matches!(ClipboardError::from(WinError::FormatNoSize), ClipboardError::WindowsClipboardError(WinError::FormatNoSize)));
    assert!(matches!(ClipboardError::from(MacOsError::NullPasteboard), ClipboardError::MacOsClipboardError(MacOsError::NullPasteboard)));
    assert!(matches!(ClipboardError::from(invalid_utf8()), ClipboardError::EncodingError(_)));
    assert!(matches!(ClipboardError::from(std::io::Error::from(std::io::ErrorKind::NotFound)), ClipboardError::IoError(_)));
    assert!(matches!(ClipboardError::from(x11_clipboard::error::Error::Owner), ClipboardError::X11ClipboardError(x11_clipboard::error::Error::Owner)));
}

#[test]
fn encoding_error_text_names_the_bad_bytes() {
    let e = ClipboardError::from(invalid_utf8());
    assert_eq!(e.description(), "invalid utf-8 sequence of 1 bytes from index 1");
    assert_eq!(e.to_string(), "Clipboard Error: invalid utf-8 sequence of 1 bytes from index 1\r\n");
    assert_eq!(e.to_string(), e.to_string());
}
