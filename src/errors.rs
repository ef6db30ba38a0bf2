//! The error model shared by every clipboard backend.

use vstd::prelude::*;
use std::fmt::Write;
use vstd::string::StringExecFns;

verus! {

/// Failures of the Windows clipboard backend.
#[derive(Debug, Copy, Clone, PartialEq, Eq, Structural, Hash)]
pub enum WinError {
    EmptyClipboard,
    FormatNoSize,
}

impl WinError {
    /// The human-readable description of each failure.
    pub open spec fn spec_description(self) -> Seq<char> {
        match self {
            WinError::EmptyClipboard => "Empty clipboard or couldn't determine format of clipboard contents"@,
            WinError::FormatNoSize => "Could not determine the length of the clipboard contents"@,
        }
    }

    pub fn description(&self) -> (r: &'static str)
        ensures
            r@ == self.spec_description(),
    {
        match self {
            WinError::EmptyClipboard => "Empty clipboard or couldn't determine format of clipboard contents",
            WinError::FormatNoSize => "Could not determine the length of the clipboard contents",
        }
    }
}

/// Failures of the macOS pasteboard backend.
#[derive(Debug, Copy, Clone, PartialEq, Eq, Structural)]
pub enum MacOsError {
    PasteWriteObjectsError,
    ReadObjectsForClassesEmpty,
    ReadObjectsForClassesNull,
    PasteboardNotFound,
    NullPasteboard,
}

impl MacOsError {
    /// The human-readable description of each failure.
    pub open spec fn spec_description(self) -> Seq<char> {
        match self {
            MacOsError::PasteWriteObjectsError => "Could not paste objects to clipboard"@,
            MacOsError::ReadObjectsForClassesEmpty => "Clipboard is empty"@,
            MacOsError::ReadObjectsForClassesNull => "No objects to read"@,
            MacOsError::PasteboardNotFound => "Pasteboard not found"@,
            MacOsError::NullPasteboard => "General pasteboard not found"@,
        }
    }

    pub fn description(&self) -> (r: &'static str)
        ensures
            r@ == self.spec_description(),
    {
        match self {
            MacOsError::PasteWriteObjectsError => "Could not paste objects to clipboard",
            MacOsError::ReadObjectsForClassesEmpty => "Clipboard is empty",
            MacOsError::ReadObjectsForClassesNull => "No objects to read",
            MacOsError::PasteboardNotFound => "Pasteboard not found",
            MacOsError::NullPasteboard => "General pasteboard not found",
        }
    }
}

// The outside errors that `ClipboardError` wraps, opaque to the proofs.
#[verifier::external_type_specification]
#[verifier::external_body]
pub struct ExIoError(std::io::Error);

#[verifier::external_type_specification]
#[verifier::external_body]
pub struct ExFromUtf8Error(std::string::FromUtf8Error);

#[verifier::external_type_specification]
#[verifier::external_body]
pub struct ExX11Error(x11_clipboard::error::Error);

/// The one error type that every clipboard operation returns.
///
/// The generic causes wrap the standard library's errors; each platform
/// has one variant that wraps its own native error unchanged.
#[derive(Debug)]
pub enum ClipboardError {
    /// The operation has no implementation on this platform.
    Unimplemented,
    /// A generic input/output failure.
    IoError(std::io::Error),
    /// Bytes that had to be read as UTF-8 text were not valid UTF-8.
    EncodingError(std::string::FromUtf8Error),
    /// A failure of the X11 selection exchange.
    X11ClipboardError(x11_clipboard::error::Error),
    /// A failure of the macOS pasteboard.
    MacOsClipboardError(MacOsError),
    /// A failure of the Windows clipboard.
    WindowsClipboardError(WinError),
}

/// Every native error lifts, unchanged, into exactly one variant.
impl From<std::io::Error> for ClipboardError {
    fn from(e: std::io::Error) -> (r: ClipboardError)
        ensures
            r == ClipboardError::IoError(e),
    {
        ClipboardError::IoError(e)
    }
}

impl vstd::std_specs::convert::FromSpecImpl<std::io::Error> for ClipboardError {
    open spec fn obeys_from_spec() -> bool {
        true
    }

    open spec fn from_spec(e: std::io::Error) -> ClipboardError {
        ClipboardError::IoError(e)
    }
}

/// Every native error lifts, unchanged, into exactly one variant.
impl From<std::string::FromUtf8Error> for ClipboardError {
    fn from(e: std::string::FromUtf8Error) -> (r: ClipboardError)
        ensures
            r == ClipboardError::EncodingError(e),
    {
        ClipboardError::EncodingError(e)
    }
}

impl vstd::std_specs::convert::FromSpecImpl<std::string::FromUtf8Error> for ClipboardError {
    open spec fn obeys_from_spec() -> bool {
        true
    }

    open spec fn from_spec(e: std::string::FromUtf8Error) -> ClipboardError {
        ClipboardError::EncodingError(e)
    }
}

/// Every native error lifts, unchanged, into exactly one variant.
impl From<x11_clipboard::error::Error> for ClipboardError {
    fn from(e: x11_clipboard::error::Error) -> (r: ClipboardError)
        ensures
            r == ClipboardError::X11ClipboardError(e),
    {
        ClipboardError::X11ClipboardError(e)
    }
}

impl vstd::std_specs::convert::FromSpecImpl<x11_clipboard::error::Error> for ClipboardError {
    open spec fn obeys_from_spec() -> bool {
        true
    }

    open spec fn from_spec(e: x11_clipboard::error::Error) -> ClipboardError {
        ClipboardError::X11ClipboardError(e)
    }
}

/// Every native error lifts, unchanged, into exactly one variant.
impl From<MacOsError> for ClipboardError {
    fn from(e: MacOsError) -> (r: ClipboardError)
        ensures
            r == ClipboardError::MacOsClipboardError(e),
    {
        ClipboardError::MacOsClipboardError(e)
    }
}

impl vstd::std_specs::convert::FromSpecImpl<MacOsError> for ClipboardError {
    open spec fn obeys_from_spec() -> bool {
        true
    }

    open spec fn from_spec(e: MacOsError) -> ClipboardError {
        ClipboardError::MacOsClipboardError(e)
    }
}

/// Every native error lifts, unchanged, into exactly one variant.
impl From<WinError> for ClipboardError {
    fn from(e: WinError) -> (r: ClipboardError)
        ensures
            r == ClipboardError::WindowsClipboardError(e),
    {
        ClipboardError::WindowsClipboardError(e)
    }
}

impl vstd::std_specs::convert::FromSpecImpl<WinError> for ClipboardError {
    open spec fn obeys_from_spec() -> bool {
        true
    }

    open spec fn from_spec(e: WinError) -> ClipboardError {
        ClipboardError::WindowsClipboardError(e)
    }
}

/// The display text of a `FromUtf8Error`.
pub uninterp spec fn utf8_error_text_of(e: std::string::FromUtf8Error) -> Seq<char>;

/// Whether `text` is a text that the `Display` of `e` wrote. Not a function
/// of `e`: an I/O error may show a message of the operating system, or of an
/// inner error of the caller's own.
pub uninterp spec fn io_error_shows(e: std::io::Error, text: Seq<char>) -> bool;

/// Whether `text` is a text that the `Display` of the X11 error `e` wrote.
/// Not a function of `e`: it may hold an I/O error's text.
pub uninterp spec fn x11_error_shows(e: x11_clipboard::error::Error, text: Seq<char>) -> bool;

/// Whether `cause` is what was read of the lower-level error behind `e`: its
/// `Display` text, or `None` where `e` reports no such error. Not a function
/// of `e`: the lower-level error may be of the caller's own making.
pub uninterp spec fn io_error_cause_shows(e: std::io::Error, cause: Option<Seq<char>>) -> bool;

/// Relies on the `Display` of `std::io::Error`. Where a `Display` inside it
/// fails, the text written up to then is returned.
#[verifier::external_body]
fn io_error_text(e: &std::io::Error) -> (r: String)
    ensures
        io_error_shows(*e, r@),
{
    let mut t = String::new();
    let _ = write!(t, "{}", e);
    t
}

/// Relies on the `Display` of `x11_clipboard::error::Error`. Where a
/// `Display` or `Debug` inside it fails, the text written up to then is
/// returned.
#[verifier::external_body]
fn x11_error_text(e: &x11_clipboard::error::Error) -> (r: String)
    ensures
        x11_error_shows(*e, r@),
{
    let mut t = String::new();
    let _ = write!(t, "{}", e);
    t
}

/// Relies on the `Display` of `std::string::FromUtf8Error`, which depends on
/// the error value alone.
#[verifier::external_body]
fn utf8_error_text(e: &std::string::FromUtf8Error) -> (r: String)
    ensures
        r@ == utf8_error_text_of(*e),
{
    e.to_string()
}

impl ClipboardError {
    /// What `description` returns where that is a function of the error
    /// alone. `None` for the I/O and X11 variants, whose text may hold a
    /// message of the operating system.
    pub open spec fn fixed_description(&self) -> Option<Seq<char>> {
        match self {
            ClipboardError::Unimplemented => Some(
                "Attempting to set the contents of the clipboard, which hasn't yet been implemented on this platform."@,
            ),
            ClipboardError::EncodingError(e) => Some(utf8_error_text_of(*e)),
            ClipboardError::MacOsClipboardError(e) => Some(e.spec_description()),
            ClipboardError::WindowsClipboardError(e) => Some(e.spec_description()),
            _ => None,
        }
    }

    /// Whether `d` is the description of this error: the fixed text where
    /// there is one, else a display text of the wrapped outside error.
    pub open spec fn is_description(&self, d: Seq<char>) -> bool {
        match self {
            ClipboardError::IoError(e) => io_error_shows(*e, d),
            ClipboardError::X11ClipboardError(e) => x11_error_shows(*e, d),
            _ => Some(d) == self.fixed_description(),
        }
    }

    /// The human-readable description of this error.
    pub fn description(&self) -> (r: String)
        ensures
            self.is_description(r@),
    {
        match self {
            ClipboardError::Unimplemented => String::from_str(
                "Attempting to set the contents of the clipboard, which hasn't yet been implemented on this platform.",
            ),
            ClipboardError::IoError(e) => io_error_text(e),
            ClipboardError::EncodingError(e) => utf8_error_text(e),
            ClipboardError::X11ClipboardError(e) => x11_error_text(e),
            ClipboardError::MacOsClipboardError(e) => String::from_str(e.description()),
            ClipboardError::WindowsClipboardError(e) => String::from_str(e.description()),
        }
    }
}

/// The view of an optional string.
pub open spec fn opt_view(c: Option<String>) -> Option<Seq<char>> {
    match c {
        Some(s) => Some(s@),
        None => None,
    }
}

/// The displayed form of an error: a fixed prefix, its description, a line
/// break, and `cause: ` with the cause's text where there is a cause.
pub open spec fn spec_display_text(description: Seq<char>, cause: Option<Seq<char>>) -> Seq<char> {
    "Clipboard Error: "@ + description + "\r\n"@ + match cause {
        Some(c) => "cause: "@ + c,
        None => Seq::empty(),
    }
}

/// Builds the displayed form of an error from its description and the text
/// of its cause.
pub fn display_text(description: &str, cause: Option<&str>) -> (r: String)
    ensures
        r@ == spec_display_text(
            description@,
            match cause {
                Some(c) => Some(c@),
                None => None,
            },
        ),
{
    let mut r = String::from_str("Clipboard Error: ");
    r.append(description);
    r.append("\r\n");
    match cause {
        Some(c) => {
            r.append("cause: ");
            r.append(c);
        },
        None => {},
    }
    r
}

/// Relies on `std::io::Error`'s `Error::source`, and on the `Display` of
/// what it returns, which turns that lower-level error into its text. Where
/// that `Display` fails, the text written up to then is returned.
#[verifier::external_body]
fn io_error_source_text(e: &std::io::Error) -> (r: Option<String>)
    ensures
        io_error_cause_shows(*e, opt_view(r)),
{
    match std::error::Error::source(e) {
        Some(c) => {
            let mut t = String::new();
            let _ = write!(t, "{}", c);
            Some(t)
        },
        None => None,
    }
}

/// Relies on `std::string::FromUtf8Error`'s `Error::source`, which it does
/// not override: the trait's default reports no lower-level error.
#[verifier::external_body]
fn utf8_error_source_text(e: &std::string::FromUtf8Error) -> (r: Option<String>)
    ensures
        r is None,
{
    match std::error::Error::source(e) {
        Some(c) => {
            let mut t = String::new();
            let _ = write!(t, "{}", c);
            Some(t)
        },
        None => None,
    }
}

impl ClipboardError {
    /// Whether `c` is the cause of this error. An I/O error reports its
    /// inner error's own cause; every other variant has none: an encoding
    /// error's inner error reports none, and a platform error is itself the
    /// last cause.
    pub open spec fn is_cause(&self, c: Option<Seq<char>>) -> bool {
        match self {
            ClipboardError::IoError(e) => io_error_cause_shows(*e, c),
            _ => c is None,
        }
    }

    /// The text of the lower-level error behind this one, if there is one.
    pub fn cause(&self) -> (r: Option<String>)
        ensures
            self.is_cause(opt_view(r)),
    {
        match self {
            ClipboardError::Unimplemented => None,
            ClipboardError::IoError(e) => io_error_source_text(e),
            ClipboardError::EncodingError(e) => utf8_error_source_text(e),
            ClipboardError::X11ClipboardError(_) => None,
            ClipboardError::MacOsClipboardError(_) => None,
            ClipboardError::WindowsClipboardError(_) => None,
        }
    }

    /// Whether `r` is a displayed form of this error: a description of it
    /// and a cause of it, laid out by `spec_display_text`.
    pub open spec fn displays_as(&self, r: Seq<char>) -> bool {
        exists|d: Seq<char>, c: Option<Seq<char>>|
            #![trigger self.is_description(d), self.is_cause(c)]
            self.is_description(d) && self.is_cause(c) && r == spec_display_text(d, c)
    }

    /// The displayed form of this error, the one text that callers show.
    pub fn to_string(&self) -> (r: String)
        ensures
            self.displays_as(r@),
            self.fixed_description() is Some ==> r@ == spec_display_text(
                self.fixed_description()->0,
                None,
            ),
    {
        let d = self.description();
        let c = self.cause();
        let r = match &c {
            Some(t) => display_text(d.as_str(), Some(t.as_str())),
            None => display_text(d.as_str(), None),
        };
        assert(self.is_description(d@) && self.is_cause(opt_view(c)));
        r
    }
}

/// The description of every variant whose text is fixed by the library's
/// own rules is not empty.
pub proof fn lemma_own_description_nonempty(e: ClipboardError)
    requires
        e is Unimplemented || e is MacOsClipboardError || e is WindowsClipboardError,
    ensures
        e.fixed_description() is Some,
        e.fixed_description()->0.len() > 0,
{
    reveal_strlit(
        "Attempting to set the contents of the clipboard, which hasn't yet been implemented on this platform.",
    );
    reveal_strlit("Empty clipboard or couldn't determine format of clipboard contents");
    reveal_strlit("Could not determine the length of the clipboard contents");
    reveal_strlit("Could not paste objects to clipboard");
    reveal_strlit("Clipboard is empty");
    reveal_strlit("No objects to read");
    reveal_strlit("Pasteboard not found");
    reveal_strlit("General pasteboard not found");
}

/// The displayed form of every error is not empty.
pub proof fn lemma_display_nonempty(e: ClipboardError, r: Seq<char>)
    requires
        e.displays_as(r),
    ensures
        r.len() > 0,
{
    let (d, c) = choose|d: Seq<char>, c: Option<Seq<char>>|
        e.is_description(d) && e.is_cause(c) && r == spec_display_text(d, c);
    reveal_strlit("Clipboard Error: ");
    assert(r.len() >= "Clipboard Error: "@.len());
}

/// Where the description is a function of the error alone (every variant
/// but the I/O and X11 ones), the displayed form is one text: any two
/// displayed forms of the same error are equal.
pub proof fn lemma_display_deterministic(e: ClipboardError, r1: Seq<char>, r2: Seq<char>)
    requires
        e.fixed_description() is Some,
        e.displays_as(r1),
        e.displays_as(r2),
    ensures
        r1 == r2,
        r1 == spec_display_text(e.fixed_description()->0, None),
{
    let (d1, c1) = choose|d: Seq<char>, c: Option<Seq<char>>|
        e.is_description(d) && e.is_cause(c) && r1 == spec_display_text(d, c);
    let (d2, c2) = choose|d: Seq<char>, c: Option<Seq<char>>|
        e.is_description(d) && e.is_cause(c) && r2 == spec_display_text(d, c);
}

/// The displayed form of a platform error is its description and a line
/// break, with no cause after it.
pub proof fn lemma_platform_display_has_no_cause(e: ClipboardError, r: Seq<char>)
    requires
        e is X11ClipboardError || e is MacOsClipboardError || e is WindowsClipboardError,
        e.displays_as(r),
    ensures
        exists|d: Seq<char>| #[trigger] e.is_description(d) && r == "Clipboard Error: "@ + d + "\r\n"@,
{
    let (d, c) = choose|d: Seq<char>, c: Option<Seq<char>>|
        e.is_description(d) && e.is_cause(c) && r == spec_display_text(d, c);
    assert(r == "Clipboard Error: "@ + d + "\r\n"@);
}

} // verus!
