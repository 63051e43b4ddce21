//! The error taxonomy of the library.

use vstd::prelude::*;

verus! {

/// Everything that can go wrong in a mouse action or in the hook subsystem.
#[derive(Debug, PartialEq, Eq)]
pub enum Error {
    /// The operation is not available on the current platform.
    NotImplemented,
    /// A write to a device file did not complete.
    WriteFailed,
    /// The callback id handed to `unhook` is not registered.
    UnhookFailed,
    /// The pointer is not on the same screen as the queried window.
    X11PointerWindowMismatch,
    /// The input was blocked by another thread.
    InputIsBlocked,
    /// The platform could not create a native mouse event.
    CGCouldNotCreateEvent,
    /// The raw event source could not be opened with the caller's privileges.
    PermissionDenied,
    /// A backend-specific failure, described by its message.
    CustomError(String),
}

} // verus!
