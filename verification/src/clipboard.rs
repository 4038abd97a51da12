//! A clipboard in memory that answers the primitives of a rewrite.
//!
//! It holds what a system clipboard holds (a text buffer, payloads under
//! other formats), keeps the books of one session (opened, emptied, which
//! buffer is locked, which buffer was allocated and not yet handed over) and
//! can be told to refuse any primitive that a system may refuse. What each
//! primitive needs is `permits`; what it does and answers is `respond`.

use vstd::prelude::*;
use crate::rewriter::{Action, ActionView, Reply, ReplyView, CF_UNICODETEXT, GMEM_MOVEABLE};
use crate::text::{read_terminated, terminated_prefix};

verus! {

/// The handle under which [`Clipboard::copy`] puts a text buffer.
pub const COPIED_HANDLE: isize = 1;

/// The handle that a new [`Clipboard`] gives to the buffers it allocates.
pub const ALLOCATED_HANDLE: isize = 2;

/// The primitives that a clipboard is told to refuse.
#[derive(Clone, Copy, Debug, PartialEq, Eq, Structural)]
pub struct Faults {
    /// Another process holds the clipboard: it cannot be opened.
    pub open: bool,
    /// The text buffer cannot be locked.
    pub lock_source: bool,
    /// The clipboard cannot be emptied.
    pub clear: bool,
    /// No buffer can be allocated.
    pub allocate: bool,
    /// An allocated buffer cannot be locked.
    pub lock_target: bool,
    /// The clipboard takes no new payload.
    pub install: bool,
}

impl Faults {
    /// Nothing is refused.
    pub open spec fn spec_none() -> Faults {
        Faults {
            open: false,
            lock_source: false,
            clear: false,
            allocate: false,
            lock_target: false,
            install: false,
        }
    }

    /// Nothing is refused.
    #[verifier::when_used_as_spec(spec_none)]
    pub fn none() -> (faults: Faults)
        ensures
            faults == Faults::spec_none(),
    {
        Faults {
            open: false,
            lock_source: false,
            clear: false,
            allocate: false,
            lock_target: false,
            install: false,
        }
    }
}

/// A payload under a format other than text.
#[derive(Clone, Debug, PartialEq, Eq)]
pub struct Payload {
    pub format: u32,
    pub bytes: Vec<u8>,
}

/// What [`Payload`] is in contracts.
pub struct PayloadView {
    pub format: u32,
    pub bytes: Seq<u8>,
}

impl View for Payload {
    type V = PayloadView;

    open spec fn view(&self) -> PayloadView {
        PayloadView { format: self.format, bytes: self.bytes@ }
    }
}

/// The views of a list of payloads, in its order.
pub open spec fn payload_views(payloads: Seq<Payload>) -> Seq<PayloadView> {
    payloads.map_values(|payload: Payload| payload@)
}

#[derive(Clone, Debug, PartialEq, Eq)]
struct Buffer {
    handle: isize,
    units: Vec<u16>,
}

/// A shared buffer of UTF-16 units that the clipboard holds.
pub struct BufferView {
    /// The name of the buffer; never zero.
    pub handle: isize,
    /// All of its units, a terminator and what follows it included.
    pub units: Seq<u16>,
}

#[derive(Clone, Debug, PartialEq, Eq)]
struct Staged {
    handle: isize,
    bytes: usize,
    units: Vec<u16>,
    locked: bool,
}

/// A buffer that was allocated and not yet handed to the clipboard.
pub struct StagedView {
    /// The name of the buffer; never zero.
    pub handle: isize,
    /// Its size.
    pub bytes: usize,
    /// What was written to its start.
    pub units: Seq<u16>,
    /// Whether it is locked.
    pub locked: bool,
}

/// A clipboard in memory.
#[derive(Clone, Debug, PartialEq, Eq)]
pub struct Clipboard {
    text: Option<Buffer>,
    others: Vec<Payload>,
    faults: Faults,
    spare: isize,
    open: bool,
    cleared: bool,
    source_locked: bool,
    staged: Option<Staged>,
}

/// What [`Clipboard`] is in contracts.
pub struct ClipboardView {
    /// The buffer under the Unicode text format, if there is one.
    pub text: Option<BufferView>,
    /// The payloads under all other formats.
    pub others: Seq<PayloadView>,
    /// What the clipboard refuses.
    pub faults: Faults,
    /// The handle of the next buffer that is allocated.
    pub spare: isize,
    /// Whether a session is open.
    pub open: bool,
    /// Whether the open session has emptied the clipboard.
    pub cleared: bool,
    /// Whether the text buffer is locked.
    pub source_locked: bool,
    /// The buffer that was allocated and not yet handed over or freed.
    pub staged: Option<StagedView>,
}

impl View for Clipboard {
    type V = ClipboardView;

    closed spec fn view(&self) -> ClipboardView {
        ClipboardView {
            text: match self.text {
                Some(buffer) => Some(BufferView { handle: buffer.handle, units: buffer.units@ }),
                None => None,
            },
            others: payload_views(self.others@),
            faults: self.faults,
            spare: self.spare,
            open: self.open,
            cleared: self.cleared,
            source_locked: self.source_locked,
            staged: match self.staged {
                Some(staged) => Some(
                    StagedView {
                        handle: staged.handle,
                        bytes: staged.bytes,
                        units: staged.units@,
                        locked: staged.locked,
                    },
                ),
                None => None,
            },
        }
    }
}

impl ClipboardView {
    /// No session is open, nothing is locked and no allocated buffer is left
    /// over.
    pub open spec fn at_rest(self) -> bool {
        !self.open && !self.cleared && !self.source_locked && self.staged is None
    }

    /// The clipboard is at rest and its handles are handles.
    pub open spec fn wf(self) -> bool {
        &&& self.at_rest()
        &&& self.spare != 0
        &&& self.text matches Some(buffer) ==> buffer.handle != 0
    }

    /// The text on the clipboard: what its text buffer holds before the first
    /// zero unit.
    pub open spec fn text_content(self) -> Option<Seq<u16>> {
        match self.text {
            Some(buffer) => Some(terminated_prefix(buffer.units)),
            None => None,
        }
    }

    /// The formats that the clipboard offers: text first, if it is there,
    /// then the others in their order.
    pub open spec fn formats(self) -> Seq<u32> {
        let others = self.others.map_values(|payload: PayloadView| payload.format);
        if self.text is Some {
            seq![CF_UNICODETEXT] + others
        } else {
            others
        }
    }

    /// Whether the clipboard, in this state, can be asked for `action`.
    ///
    /// This is the discipline of sessions and buffers: the clipboard is read,
    /// emptied and filled only inside a session; a buffer is locked before it
    /// is read or written and unlocked before it changes hands; a new buffer
    /// is handed over only after the session has emptied the clipboard, and
    /// what is written to it fits its size.
    pub open spec fn permits(self, action: ActionView) -> bool {
        match action {
            ActionView::OpenSession => !self.open,
            ActionView::Fetch { format } => self.open && format == CF_UNICODETEXT,
            ActionView::LockSource { source } => {
                &&& self.open
                &&& !self.source_locked
                &&& self.text matches Some(buffer)
                &&& buffer.handle == source
            },
            ActionView::UnlockSource { source } => {
                &&& self.source_locked
                &&& self.text matches Some(buffer)
                &&& buffer.handle == source
            },
            ActionView::ClearContents => self.open && !self.source_locked,
            ActionView::Allocate { flags, bytes } => {
                &&& flags == GMEM_MOVEABLE
                &&& self.staged is None
                &&& self.text matches Some(buffer) ==> buffer.handle != self.spare
            },
            ActionView::FillTarget { target, units } => {
                &&& self.staged matches Some(staged)
                &&& staged.handle == target
                &&& !staged.locked
                &&& 2 * units.len() <= staged.bytes
            },
            ActionView::UnlockTarget { target } => {
                &&& self.staged matches Some(staged)
                &&& staged.handle == target
                &&& staged.locked
            },
            ActionView::Install { format, target } => {
                &&& self.open
                &&& self.cleared
                &&& format == CF_UNICODETEXT
                &&& self.staged matches Some(staged)
                &&& staged.handle == target
                &&& !staged.locked
            },
            ActionView::Release { target } => {
                &&& self.staged matches Some(staged)
                &&& staged.handle == target
                &&& !staged.locked
            },
            ActionView::CloseSession => self.open && !self.source_locked,
            ActionView::Finish(_) => true,
        }
    }

    /// The state after `action`, and the answer to it.
    pub open spec fn respond(self, action: ActionView) -> (ClipboardView, ReplyView) {
        match action {
            ActionView::OpenSession => if self.faults.open {
                (self, ReplyView::Status(0))
            } else {
                (ClipboardView { open: true, cleared: false, ..self }, ReplyView::Status(1))
            },
            ActionView::Fetch { format } => match self.text {
                Some(buffer) => (self, ReplyView::Handle(buffer.handle)),
                None => (self, ReplyView::Handle(0)),
            },
            ActionView::LockSource { source } => match self.text {
                Some(buffer) if !self.faults.lock_source => (
                    ClipboardView { source_locked: true, ..self },
                    ReplyView::Contents(Some(buffer.units)),
                ),
                _ => (self, ReplyView::Contents(None)),
            },
            ActionView::UnlockSource { source } => (
                ClipboardView { source_locked: false, ..self },
                ReplyView::Done,
            ),
            ActionView::ClearContents => if self.faults.clear {
                (self, ReplyView::Status(0))
            } else {
                (
                    ClipboardView { text: None, others: Seq::empty(), cleared: true, ..self },
                    ReplyView::Status(1),
                )
            },
            ActionView::Allocate { flags, bytes } => if self.faults.allocate {
                (self, ReplyView::Handle(0))
            } else {
                (
                    ClipboardView {
                        staged: Some(
                            StagedView {
                                handle: self.spare,
                                bytes,
                                units: Seq::empty(),
                                locked: false,
                            },
                        ),
                        ..self
                    },
                    ReplyView::Handle(self.spare),
                )
            },
            ActionView::FillTarget { target, units } => match self.staged {
                Some(staged) if !self.faults.lock_target => (
                    ClipboardView {
                        staged: Some(StagedView { units, locked: true, ..staged }),
                        ..self
                    },
                    ReplyView::Status(1),
                ),
                _ => (self, ReplyView::Status(0)),
            },
            ActionView::UnlockTarget { target } => match self.staged {
                Some(staged) => (
                    ClipboardView { staged: Some(StagedView { locked: false, ..staged }), ..self },
                    ReplyView::Done,
                ),
                None => (self, ReplyView::Done),
            },
            ActionView::Install { format, target } => match self.staged {
                Some(staged) if !self.faults.install => (
                    ClipboardView {
                        text: Some(BufferView { handle: staged.handle, units: staged.units }),
                        staged: None,
                        ..self
                    },
                    ReplyView::Handle(staged.handle),
                ),
                _ => (self, ReplyView::Handle(0)),
            },
            ActionView::Release { target } => (
                ClipboardView { staged: None, ..self },
                ReplyView::Done,
            ),
            ActionView::CloseSession => (
                ClipboardView { open: false, cleared: false, ..self },
                ReplyView::Done,
            ),
            ActionView::Finish(_) => (self, ReplyView::Done),
        }
    }
}

impl Clipboard {
    /// The clipboard is at rest and its handles are handles. Every function
    /// that this crate offers leaves a clipboard so.
    pub open spec fn wf(&self) -> bool {
        self@.wf()
    }

    /// An empty clipboard that refuses nothing.
    pub fn new() -> (clipboard: Clipboard)
        ensures
            clipboard.wf(),
            clipboard@ == (ClipboardView {
                text: None,
                others: Seq::empty(),
                faults: Faults::none(),
                spare: ALLOCATED_HANDLE,
                open: false,
                cleared: false,
                source_locked: false,
                staged: None,
            }),
    {
        let clipboard = Clipboard {
            text: None,
            others: Vec::new(),
            faults: Faults::none(),
            spare: ALLOCATED_HANDLE,
            open: false,
            cleared: false,
            source_locked: false,
            staged: None,
        };
        assert(payload_views(clipboard.others@) =~= Seq::empty());
        clipboard
    }

    /// Puts new content on the clipboard, as an application does when the
    /// user copies: `buffer` becomes the text buffer, unit for unit, and
    /// `others` the payloads under the other formats. Whatever was there
    /// before is gone.
    pub fn copy(&mut self, buffer: Option<Vec<u16>>, others: Vec<Payload>)
        requires
            old(self).wf(),
        ensures
            final(self).wf(),
            final(self)@ == (ClipboardView {
                text: match buffer {
                    Some(units) => Some(BufferView { handle: COPIED_HANDLE, units: units@ }),
                    None => None,
                },
                others: payload_views(others@),
                ..old(self)@
            }),
    {
        self.text = match buffer {
            Some(units) => Some(Buffer { handle: COPIED_HANDLE, units }),
            None => None,
        };
        self.others = others;
    }

    /// Tells the clipboard what to refuse from now on.
    pub fn set_faults(&mut self, faults: Faults)
        requires
            old(self).wf(),
        ensures
            final(self).wf(),
            final(self)@ == (ClipboardView { faults, ..old(self)@ }),
    {
        self.faults = faults;
    }

    /// What the clipboard refuses.
    pub fn faults(&self) -> (faults: Faults)
        ensures
            faults == self@.faults,
    {
        self.faults
    }

    /// The text on the clipboard, without its terminator; `None` when the
    /// clipboard holds no text.
    pub fn text(&self) -> (text: Option<Vec<u16>>)
        ensures
            match text {
                Some(units) => self@.text_content() == Some(units@),
                None => self@.text_content() is None,
            },
    {
        match &self.text {
            Some(buffer) => Some(read_terminated(buffer.units.as_slice())),
            None => None,
        }
    }

    /// All the units of the text buffer, the terminator and what follows it
    /// included; `None` when the clipboard holds no text.
    pub fn text_buffer(&self) -> (units: Option<&Vec<u16>>)
        ensures
            match units {
                Some(units) => self@.text matches Some(buffer) && buffer.units == units@,
                None => self@.text is None,
            },
    {
        match &self.text {
            Some(buffer) => Some(&buffer.units),
            None => None,
        }
    }

    /// The payloads under the formats other than text.
    pub fn others(&self) -> (others: &Vec<Payload>)
        ensures
            payload_views(others@) == self@.others,
    {
        &self.others
    }

    /// The formats that the clipboard offers: text first, if it is there,
    /// then the others in their order.
    pub fn formats(&self) -> (formats: Vec<u32>)
        ensures
            formats@ == self@.formats(),
    {
        let mut formats: Vec<u32> = Vec::new();
        if self.text.is_some() {
            formats.push(CF_UNICODETEXT);
        }
        let ghost head = formats@;
        let ghost ids = self@.others.map_values(|payload: PayloadView| payload.format);
        let mut at: usize = 0;
        while at < self.others.len()
            invariant
                at <= self.others.len(),
                ids == self@.others.map_values(|payload: PayloadView| payload.format),
                ids.len() == self.others.len(),
                formats@ == head + ids.take(at as int),
            decreases self.others.len() - at,
        {
            formats.push(self.others[at].format);
            at += 1;
            assert(formats@ =~= head + ids.take(at as int));
        }
        assert(ids.take(at as int) =~= ids);
        formats
    }

    /// Whether no session is open, nothing is locked and no allocated buffer
    /// is left over.
    pub fn at_rest(&self) -> (at_rest: bool)
        ensures
            at_rest == self@.at_rest(),
    {
        !self.open && !self.cleared && !self.source_locked && self.staged.is_none()
    }

    /// Carries out one primitive and answers it.
    pub(crate) fn perform(&mut self, action: Action) -> (reply: Reply)
        requires
            old(self)@.permits(action@),
        ensures
            (final(self)@, reply@) == old(self)@.respond(action@),
    {
        match action {
            Action::OpenSession => {
                if self.faults.open {
                    Reply::Status(0)
                } else {
                    self.open = true;
                    self.cleared = false;
                    Reply::Status(1)
                }
            },
            Action::Fetch { format: _ } => {
                match &self.text {
                    Some(buffer) => Reply::Handle(buffer.handle),
                    None => Reply::Handle(0),
                }
            },
            Action::LockSource { source: _ } => {
                if self.faults.lock_source {
                    Reply::Contents(None)
                } else {
                    match &self.text {
                        Some(buffer) => {
                            let units = buffer.units.clone();
                            assert(units@ =~= buffer.units@);
                            self.source_locked = true;
                            Reply::Contents(Some(units))
                        },
                        None => Reply::Contents(None),
                    }
                }
            },
            Action::UnlockSource { source: _ } => {
                self.source_locked = false;
                Reply::Done
            },
            Action::ClearContents => {
                if self.faults.clear {
                    Reply::Status(0)
                } else {
                    self.text = None;
                    self.others = Vec::new();
                    self.cleared = true;
                    assert(payload_views(self.others@) =~= Seq::empty());
                    Reply::Status(1)
                }
            },
            Action::Allocate { flags: _, bytes } => {
                if self.faults.allocate {
                    Reply::Handle(0)
                } else {
                    self.staged = Some(
                        Staged { handle: self.spare, bytes, units: Vec::new(), locked: false },
                    );
                    Reply::Handle(self.spare)
                }
            },
            Action::FillTarget { target: _, units } => {
                if self.faults.lock_target {
                    Reply::Status(0)
                } else {
                    match self.staged.take() {
                        Some(staged) => {
                            self.staged = Some(
                                Staged {
                                    handle: staged.handle,
                                    bytes: staged.bytes,
                                    units,
                                    locked: true,
                                },
                            );
                            Reply::Status(1)
                        },
                        None => Reply::Status(0),
                    }
                }
            },
            Action::UnlockTarget { target: _ } => {
                match self.staged.take() {
                    Some(staged) => {
                        self.staged = Some(
                            Staged {
                                handle: staged.handle,
                                bytes: staged.bytes,
                                units: staged.units,
                                locked: false,
                            },
                        );
                    },
                    None => {},
                }
                Reply::Done
            },
            Action::Install { format: _, target: _ } => {
                if self.faults.install {
                    Reply::Handle(0)
                } else {
                    match self.staged.take() {
                        Some(staged) => {
                            let handle = staged.handle;
                            self.text = Some(Buffer { handle, units: staged.units });
                            Reply::Handle(handle)
                        },
                        None => Reply::Handle(0),
                    }
                }
            },
            Action::Release { target: _ } => {
                self.staged = None;
                Reply::Done
            },
            Action::CloseSession => {
                self.open = false;
                self.cleared = false;
                Reply::Done
            },
            Action::Finish(_) => Reply::Done,
        }
    }
}

} // verus!
