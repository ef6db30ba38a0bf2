//! A cross-platform clipboard: one capability trait that every platform
//! backend implements, and one error type for every platform.

use vstd::prelude::*;

pub mod errors;

pub use errors::{ClipboardError, MacOsError, WinError};

verus! {

/// What every platform backend provides: a handle on the system clipboard,
/// whose contents are read and replaced as raw bytes. Exactly one backend is
/// built for a target, and callers depend on this trait alone.
pub trait Clipboard {
    type Output;

    /// Opens the system clipboard.
    fn new() -> Result<Self::Output, ClipboardError>;

    /// Reads the current contents without changing them.
    fn get_contents(&self) -> Result<Vec<u8>, ClipboardError>;

    /// Replaces the contents; a platform that cannot write returns
    /// `ClipboardError::Unimplemented`.
    fn set_contents(&self, contents: Vec<u8>) -> Result<(), ClipboardError>;
}

} // verus!
