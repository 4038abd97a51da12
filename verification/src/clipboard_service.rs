//! The handle by which another thread stops a running listener.

use vstd::prelude::*;
use crate::error::Error;

verus! {

/// The first message number that is free for an application's own use.
pub const WM_APP: u32 = 0x8000;

/// The quit signal: the message that asks a listener to leave its loop. No
/// message of the system has this number.
pub const WM_APP_QUIT: u32 = WM_APP + 1;

/// A message to post to a window's queue.
#[derive(Clone, Copy, Debug, PartialEq, Eq, Structural)]
pub struct Post {
    /// The window whose queue takes the message.
    pub hwnd: isize,
    /// The message number.
    pub message: u32,
    /// The first parameter of the message.
    pub wparam: usize,
    /// The second parameter of the message.
    pub lparam: isize,
}

/// A listener that runs on a thread of its own, known by its window.
#[derive(Debug)]
pub struct ClipboardService {
    hwnd: isize,
}

impl View for ClipboardService {
    type V = isize;

    /// The window of the listener.
    closed spec fn view(&self) -> isize {
        self.hwnd
    }
}

impl ClipboardService {
    /// What `start` returns for what came over the handoff.
    pub open spec fn started(handoff: Option<isize>) -> Result<isize, Error> {
        match handoff {
            Some(hwnd) if hwnd != 0 => Ok(hwnd),
            _ => Err(Error::StartFailure),
        }
    }

    /// Takes what the listener thread handed over and wraps it.
    ///
    /// `handoff` is the window that the thread sent once its listener
    /// existed, or `None` when the thread went away without sending one. The
    /// caller has waited for one or the other, so a service that this returns
    /// stands for a listener with a window: the window is never null.
    pub fn start(handoff: Option<isize>) -> (service: Result<ClipboardService, Error>)
        ensures
            match service {
                Ok(service) => Self::started(handoff) == Ok::<isize, Error>(service@) && service@
                    != 0,
                Err(error) => Self::started(handoff) == Err::<isize, Error>(error),
            },
    {
        match handoff {
            Some(hwnd) => {
                if hwnd != 0 {
                    Ok(ClipboardService { hwnd })
                } else {
                    Err(Error::StartFailure)
                }
            },
            None => Err(Error::StartFailure),
        }
    }

    /// The window of the listener.
    pub fn hwnd(&self) -> (hwnd: isize)
        ensures
            hwnd == self@,
    {
        self.hwnd
    }

    /// The message that stops the listener: the quit signal, for its window,
    /// with no parameters. Posting it neither waits nor fails; it may be
    /// posted any number of times.
    pub fn stop(&self) -> (post: Post)
        ensures
            post == (Post { hwnd: self@, message: WM_APP_QUIT, wparam: 0, lparam: 0 }),
    {
        Post { hwnd: self.hwnd, message: WM_APP_QUIT, wparam: 0, lparam: 0 }
    }
}

} // verus!
