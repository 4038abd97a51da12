//! What can go wrong while listening for clipboard updates or rewriting one.

use vstd::prelude::*;

verus! {

/// A failure of the listener, of its supervisor, or of one rewrite.
///
/// Only `WindowCreationFailure`, `ListenerRegistrationFailure` and
/// `StartFailure` ever reach the caller of a listener or a service. The others
/// end one rewrite and are absorbed by the message loop.
#[derive(Clone, Copy, Debug, PartialEq, Eq, Structural)]
pub enum Error {
    /// The system handed back a null window.
    WindowCreationFailure,
    /// The window could not be subscribed to clipboard updates.
    ListenerRegistrationFailure,
    /// Somebody else holds the clipboard open.
    ClipboardUnavailable,
    /// The clipboard holds nothing under the Unicode text format.
    NoTextContent,
    /// A shared buffer could not be locked.
    LockFailure,
    /// The clipboard could not be emptied.
    ClearFailure,
    /// No shared buffer could be had for the text.
    AllocationFailure,
    /// The clipboard did not accept the new buffer.
    SetFailure,
    /// The listener thread went away before it handed over its window.
    StartFailure,
}

impl Error {
    /// The text of [`Error::message`].
    pub open spec fn message_text(self) -> Seq<char> {
        match self {
            Error::WindowCreationFailure => "Failed to create window"@,
            Error::ListenerRegistrationFailure => "Failed to add clipboard format listener"@,
            Error::ClipboardUnavailable => "Failed to open clipboard"@,
            Error::NoTextContent => "Failed to get clipboard data"@,
            Error::LockFailure => "Failed to lock global memory"@,
            Error::ClearFailure => "Failed to empty clipboard"@,
            Error::AllocationFailure => "Failed to allocate global memory"@,
            Error::SetFailure => "Failed to set clipboard data"@,
            Error::StartFailure => "Failed to start clipboard listener"@,
        }
    }

    /// Whether the error ends a single rewrite, as opposed to a listener or a
    /// service.
    pub open spec fn is_rewrite_failure(self) -> bool {
        self == Error::ClipboardUnavailable || self == Error::NoTextContent || self
            == Error::LockFailure || self == Error::ClearFailure || self
            == Error::AllocationFailure || self == Error::SetFailure
    }

    /// A short description for a log line or a dialog.
    pub fn message(&self) -> (text: &'static str)
        ensures
            text@ == self.message_text(),
    {
        match self {
            Error::WindowCreationFailure => "Failed to create window",
            Error::ListenerRegistrationFailure => "Failed to add clipboard format listener",
            Error::ClipboardUnavailable => "Failed to open clipboard",
            Error::NoTextContent => "Failed to get clipboard data",
            Error::LockFailure => "Failed to lock global memory",
            Error::ClearFailure => "Failed to empty clipboard",
            Error::AllocationFailure => "Failed to allocate global memory",
            Error::SetFailure => "Failed to set clipboard data",
            Error::StartFailure => "Failed to start clipboard listener",
        }
    }

    /// Tells the failures of a rewrite, which a message loop swallows, from
    /// those that are handed to the caller.
    pub fn is_recoverable(&self) -> (recoverable: bool)
        ensures
            recoverable == self.is_rewrite_failure(),
    {
        match self {
            Error::ClipboardUnavailable => true,
            Error::NoTextContent => true,
            Error::LockFailure => true,
            Error::ClearFailure => true,
            Error::AllocationFailure => true,
            Error::SetFailure => true,
            _ => false,
        }
    }
}

} // verus!
