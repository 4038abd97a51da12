//! The listener: a hidden window that is told of clipboard updates, and the
//! loop that takes its messages.
//!
//! The listener decides; it does not call the system. It says with which
//! parameters its window is made, whether a subscription counts, what to do
//! with each message that was taken from the queue, and whether the
//! subscription is still to be removed.

use vstd::prelude::*;
use crate::clipboard::{Clipboard, ClipboardView};
use crate::clipboard_service::WM_APP_QUIT;
use crate::error::Error;
use crate::rewrite::process_clipboard;
use crate::scan::{before_first, first_index, lemma_first_index_unique};

verus! {

/// The message that tells a subscribed window that the clipboard changed.
pub const WM_CLIPBOARDUPDATE: u32 = 0x031D;

/// The style of an ordinary top-level window.
pub const WS_OVERLAPPEDWINDOW: u32 = 0x00CF_0000;

/// The position or size that leaves the choice to the system.
pub const CW_USEDEFAULT: i32 = i32::MIN;

/// The parameters with which the window of a listener is made. Parent, menu,
/// module and creation data are all null.
#[derive(Debug)]
pub struct WindowRequest {
    /// The extended style.
    pub ex_style: u32,
    /// The name of the window class, in UTF-16 with its terminator.
    pub class_name: Vec<u16>,
    /// The style.
    pub style: u32,
    /// The horizontal position.
    pub x: i32,
    /// The vertical position.
    pub y: i32,
    /// The width.
    pub width: i32,
    /// The height.
    pub height: i32,
}

/// The name of the predefined window class `STATIC`, in UTF-16 with its
/// terminator.
pub open spec fn static_class_name() -> Seq<u16> {
    seq![0x53u16, 0x54u16, 0x41u16, 0x54u16, 0x49u16, 0x43u16, 0u16]
}

/// Where a listener stands.
#[derive(Clone, Copy, Debug, PartialEq, Eq, Structural)]
pub enum ListenerState {
    /// The window exists; nothing is subscribed.
    Created,
    /// The window is subscribed to clipboard updates; no message was taken
    /// yet.
    Registered,
    /// Messages are being taken.
    Running,
    /// The loop was left, or the listener was released before it ran.
    Stopped,
}

/// What to do with a message that was taken from the queue.
#[derive(Clone, Copy, Debug, PartialEq, Eq, Structural)]
pub enum Dispatch {
    /// Rewrite the clipboard, whatever comes of it, then hand the message to
    /// the default handling and take the next one.
    Rewrite,
    /// Hand the message to the default handling and take the next one.
    Forward,
    /// Leave the loop. The message is not handed on and no further message
    /// is taken.
    Quit,
}

/// A listener for clipboard updates.
#[derive(Debug)]
pub struct ClipboardListener {
    hwnd: isize,
    state: ListenerState,
    released: bool,
}

/// What [`ClipboardListener`] is in contracts.
pub struct ListenerView {
    /// The window of the listener.
    pub hwnd: isize,
    /// Where the listener stands.
    pub state: ListenerState,
    /// Whether the removal of the subscription was already asked for.
    pub released: bool,
}

impl View for ClipboardListener {
    type V = ListenerView;

    closed spec fn view(&self) -> ListenerView {
        ListenerView { hwnd: self.hwnd, state: self.state, released: self.released }
    }
}

/// How many of `messages` are clipboard updates.
pub open spec fn updates(messages: Seq<u32>) -> nat
    decreases messages.len(),
{
    if messages.len() == 0 {
        0
    } else {
        updates(messages.drop_last()) + if messages.last() == WM_CLIPBOARDUPDATE {
            1nat
        } else {
            0nat
        }
    }
}

impl ClipboardView {
    /// The clipboard after `times` rewrites in a row.
    pub open spec fn rewritten_times(self, times: nat) -> ClipboardView
        decreases times,
    {
        if times == 0 {
            self
        } else {
            self.rewritten_times((times - 1) as nat).rewritten()
        }
    }
}

/// How a run of the message loop over a queue ended.
pub struct Pumped {
    /// The listener after the run.
    pub listener: ListenerView,
    /// The clipboard after the run.
    pub clipboard: ClipboardView,
    /// What each rewrite returned, in the order of the updates that asked
    /// for them.
    pub attempts: Seq<Result<(), Error>>,
}

impl ListenerView {
    /// The listener that `new` makes of a window.
    pub open spec fn created(hwnd: isize) -> ListenerView {
        ListenerView { hwnd, state: ListenerState::Created, released: false }
    }

    /// Whether the listener takes messages: it is subscribed and has not
    /// left its loop.
    pub open spec fn pumping(self) -> bool {
        self.state == ListenerState::Registered || self.state == ListenerState::Running
    }

    /// The listener after `register`, and what `register` returns.
    pub open spec fn registered(self, subscribed: bool) -> (ListenerView, Result<(), Error>) {
        if self.state == ListenerState::Created && self.hwnd != 0 && subscribed {
            (ListenerView { state: ListenerState::Registered, ..self }, Ok(()))
        } else {
            (self, Err(Error::ListenerRegistrationFailure))
        }
    }

    /// The listener after a message was taken, and what to do with the
    /// message. `status` is what taking it returned: above zero for a
    /// message, zero or less when the queue has ended or failed.
    pub open spec fn dispatched(self, status: i32, message: u32) -> (ListenerView, Dispatch) {
        if !self.pumping() {
            (self, Dispatch::Quit)
        } else if status <= 0 || message == WM_APP_QUIT {
            (ListenerView { state: ListenerState::Stopped, ..self }, Dispatch::Quit)
        } else if message == WM_CLIPBOARDUPDATE {
            (ListenerView { state: ListenerState::Running, ..self }, Dispatch::Rewrite)
        } else {
            (ListenerView { state: ListenerState::Running, ..self }, Dispatch::Forward)
        }
    }

    /// The listener after `release`, and whether the subscription is to be
    /// removed now.
    pub open spec fn after_release(self) -> (ListenerView, bool) {
        (
            ListenerView { state: ListenerState::Stopped, released: true, ..self },
            !self.released && self.hwnd != 0,
        )
    }

    /// What the message loop makes of `queue` and `clipboard`.
    ///
    /// The loop handles the messages before the first quit signal and
    /// nothing behind it. Each clipboard update among them is answered by
    /// one rewrite, in the order of the queue, each on the clipboard as the
    /// one before left it. A queue without a quit signal leaves the listener
    /// waiting for more.
    pub open spec fn pumped(self, queue: Seq<u32>, clipboard: ClipboardView) -> Pumped {
        if !self.pumping() {
            Pumped { listener: self, clipboard, attempts: Seq::empty() }
        } else {
            let handled = before_first(queue, WM_APP_QUIT);
            let rewrites = updates(handled);
            Pumped {
                listener: ListenerView {
                    state: if handled.len() < queue.len() {
                        ListenerState::Stopped
                    } else if queue.len() > 0 {
                        ListenerState::Running
                    } else {
                        self.state
                    },
                    ..self
                },
                clipboard: clipboard.rewritten_times(rewrites),
                attempts: Seq::new(
                    rewrites,
                    |i: int| clipboard.rewritten_times(i as nat).rewrite_result(),
                ),
            }
        }
    }
}

impl ClipboardListener {
    /// The parameters for the window of a listener: an ordinary window of the
    /// class `STATIC`, never shown, placed and sized by the system.
    pub fn window_request() -> (request: WindowRequest)
        ensures
            request.ex_style == 0,
            request.class_name@ == static_class_name(),
            request.style == WS_OVERLAPPEDWINDOW,
            request.x == CW_USEDEFAULT,
            request.y == CW_USEDEFAULT,
            request.width == CW_USEDEFAULT,
            request.height == CW_USEDEFAULT,
    {
        let mut class_name: Vec<u16> = Vec::new();
        class_name.push(0x53);
        class_name.push(0x54);
        class_name.push(0x41);
        class_name.push(0x54);
        class_name.push(0x49);
        class_name.push(0x43);
        class_name.push(0);
        assert(class_name@ =~= static_class_name());
        WindowRequest {
            ex_style: 0,
            class_name,
            style: WS_OVERLAPPEDWINDOW,
            x: CW_USEDEFAULT,
            y: CW_USEDEFAULT,
            width: CW_USEDEFAULT,
            height: CW_USEDEFAULT,
        }
    }

    /// Makes a listener of the window that the system created for it. A null
    /// window is no window: the creation failed.
    pub fn new(hwnd: isize) -> (listener: Result<ClipboardListener, Error>)
        ensures
            match listener {
                Ok(listener) => hwnd != 0 && listener@ == ListenerView::created(hwnd),
                Err(error) => hwnd == 0 && error == Error::WindowCreationFailure,
            },
    {
        if hwnd == 0 {
            Err(Error::WindowCreationFailure)
        } else {
            Ok(ClipboardListener { hwnd, state: ListenerState::Created, released: false })
        }
    }

    /// The window of the listener, so that a quit signal can be aimed at it.
    pub fn hwnd(&self) -> (hwnd: isize)
        ensures
            hwnd == self@.hwnd,
    {
        self.hwnd
    }

    /// Where the listener stands.
    pub fn state(&self) -> (state: ListenerState)
        ensures
            state == self@.state,
    {
        self.state
    }

    /// Takes note of the subscription to clipboard updates. `subscribed` is
    /// whether the system accepted it. Only a listener that was just created,
    /// with a window, whose subscription was accepted goes on; any other
    /// stays as it is and must not take messages.
    pub fn register(&mut self, subscribed: bool) -> (result: Result<(), Error>)
        ensures
            (final(self)@, result) == old(self)@.registered(subscribed),
    {
        match self.state {
            ListenerState::Created => {
                if self.hwnd != 0 && subscribed {
                    self.state = ListenerState::Registered;
                    Ok(())
                } else {
                    Err(Error::ListenerRegistrationFailure)
                }
            },
            _ => Err(Error::ListenerRegistrationFailure),
        }
    }

    /// Decides what to do with a message that was taken from the queue.
    /// `status` is what taking it returned.
    pub fn on_message(&mut self, status: i32, message: u32) -> (dispatch: Dispatch)
        ensures
            (final(self)@, dispatch) == old(self)@.dispatched(status, message),
    {
        match self.state {
            ListenerState::Registered | ListenerState::Running => {
                if status <= 0 || message == WM_APP_QUIT {
                    self.state = ListenerState::Stopped;
                    Dispatch::Quit
                } else if message == WM_CLIPBOARDUPDATE {
                    self.state = ListenerState::Running;
                    Dispatch::Rewrite
                } else {
                    self.state = ListenerState::Running;
                    Dispatch::Forward
                }
            },
            _ => Dispatch::Quit,
        }
    }

    /// Ends the listener, on whatever path: after its loop, after a failed
    /// registration, or before it ever ran. Returns whether the subscription
    /// of its window is to be removed now, which is so exactly once, at the
    /// first call, for a listener with a window.
    pub fn release(&mut self) -> (unsubscribe: bool)
        ensures
            (final(self)@, unsubscribe) == old(self)@.after_release(),
    {
        let unsubscribe = !self.released && self.hwnd != 0;
        self.state = ListenerState::Stopped;
        self.released = true;
        unsubscribe
    }

    /// Takes the messages of `queue` in order, as the loop of a subscribed
    /// listener does, and rewrites `clipboard` at each clipboard update. A
    /// rewrite that fails changes nothing in the loop. Returns what each
    /// rewrite returned.
    pub fn pump(&mut self, queue: &[u32], clipboard: &mut Clipboard) -> (attempts: Vec<
        Result<(), Error>,
    >)
        requires
            old(clipboard).wf(),
        ensures
            final(clipboard).wf(),
            (Pumped {
                listener: final(self)@,
                clipboard: final(clipboard)@,
                attempts: attempts@,
            }) == old(self)@.pumped(queue@, old(clipboard)@),
    {
        let mut attempts: Vec<Result<(), Error>> = Vec::new();
        let ghost listener = self@;
        let ghost before = clipboard@;
        match self.state {
            ListenerState::Registered | ListenerState::Running => {},
            _ => {
                assert(attempts@ =~= Seq::empty());
                return attempts;
            },
        }
        let mut at: usize = 0;
        while at < queue.len()
            invariant
                at <= queue.len(),
                clipboard.wf(),
                listener == old(self)@,
                before == old(clipboard)@,
                listener.pumping(),
                forall|i: int| 0 <= i < at ==> queue@[i] != WM_APP_QUIT,
                self@ == (ListenerView {
                    state: if at > 0 {
                        ListenerState::Running
                    } else {
                        listener.state
                    },
                    ..listener
                }),
                clipboard@ == before.rewritten_times(updates(queue@.take(at as int))),
                attempts@ == Seq::new(
                    updates(queue@.take(at as int)),
                    |i: int| before.rewritten_times(i as nat).rewrite_result(),
                ),
            decreases queue.len() - at,
        {
            let message = queue[at];
            let ghost done = updates(queue@.take(at as int));
            proof {
                assert(queue@.take(at + 1).drop_last() =~= queue@.take(at as int));
                assert(queue@.take(at + 1).last() == message);
            }
            match self.on_message(1, message) {
                Dispatch::Quit => {
                    proof {
                        lemma_first_index_unique(queue@, WM_APP_QUIT, 0, at as int);
                    }
                    return attempts;
                },
                Dispatch::Rewrite => {
                    let result = process_clipboard(clipboard);
                    attempts.push(result);
                    assert(attempts@ =~= Seq::new(
                        done + 1,
                        |i: int| before.rewritten_times(i as nat).rewrite_result(),
                    ));
                },
                Dispatch::Forward => {},
            }
            at += 1;
        }
        proof {
            lemma_first_index_unique(queue@, WM_APP_QUIT, 0, at as int);
            assert(queue@.take(at as int) =~= queue@);
        }
        attempts
    }

    /// Subscribes and runs the loop: `register`, then `pump`. A listener
    /// whose registration fails takes no message and rewrites nothing.
    pub fn run(&mut self, subscribed: bool, queue: &[u32], clipboard: &mut Clipboard) -> (result:
        Result<Vec<Result<(), Error>>, Error>)
        requires
            old(clipboard).wf(),
        ensures
            final(clipboard).wf(),
            match old(self)@.registered(subscribed) {
                (listener, Ok(())) => result matches Ok(attempts) && (Pumped {
                    listener: final(self)@,
                    clipboard: final(clipboard)@,
                    attempts: attempts@,
                }) == listener.pumped(queue@, old(clipboard)@),
                (listener, Err(error)) => result == Err::<Vec<Result<(), Error>>, Error>(error)
                    && final(self)@ == old(self)@ && final(clipboard)@ == old(clipboard)@,
            },
    {
        match self.register(subscribed) {
            Ok(()) => Ok(self.pump(queue, clipboard)),
            Err(error) => Err(error),
        }
    }
}

} // verus!
