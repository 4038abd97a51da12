//! Keeps the system clipboard plain: on every clipboard update the text on it
//! is read and put back as the only content, which drops whatever formatting
//! travelled with it.
//!
//! The crate holds the decisions and none of the system calls. A rewrite is a
//! small machine ([`Rewriter`]) that names the next clipboard primitive to
//! carry out and takes what it answered; a listener ([`ClipboardListener`])
//! says what to do with each message taken from its queue; a service handle
//! ([`ClipboardService`]) says what to post to stop it. The program around the
//! crate carries the primitives out. [`Clipboard`] is a clipboard in memory
//! that answers the same primitives: against it the machine is proved to keep
//! the session discipline, and the effect of a rewrite is stated in closed
//! form.

pub mod clipboard;
pub mod clipboard_listener;
pub mod clipboard_service;
pub mod error;
pub mod laws;
pub mod rewrite;
pub mod rewriter;
pub mod scan;
pub mod text;

pub use clipboard::{Clipboard, Faults, Payload};
pub use clipboard_listener::{ClipboardListener, Dispatch, ListenerState, WindowRequest};
pub use clipboard_service::{ClipboardService, Post};
pub use error::Error;
pub use rewrite::process_clipboard;
pub use rewriter::{Action, Phase, Reply, Rewriter};
