//! One rewrite of the clipboard, as a machine that is stepped from outside.
//!
//! The machine names the next clipboard primitive ([`Action`]); whoever drives
//! it carries the primitive out and steps the machine with what the system
//! answered ([`Reply`]). It decides everything in between: which answer is a
//! failure, which error that is, what has to be released before the session is
//! closed, and what is written back.

use vstd::prelude::*;
use crate::error::Error;
use crate::text::{
    buffer_bytes,
    payload_bytes,
    read_terminated,
    terminated,
    terminated_prefix,
    with_terminator,
};

verus! {

/// The clipboard format of zero-terminated UTF-16 text.
pub const CF_UNICODETEXT: u32 = 13;

/// The allocation flag for a movable shared buffer, the kind that a clipboard
/// takes.
pub const GMEM_MOVEABLE: u32 = 0x0002;

/// A clipboard primitive for the driver to carry out.
#[derive(Debug, PartialEq, Eq)]
pub enum Action {
    /// Open the clipboard for this thread, with no owner window. Answered by
    /// `Status`.
    OpenSession,
    /// Ask for the handle of the payload under `format`. Answered by `Handle`.
    Fetch { format: u32 },
    /// Lock the buffer `source` and copy all of it out. Answered by
    /// `Contents`, with `None` when the lock was refused.
    LockSource { source: isize },
    /// Unlock the buffer `source`. Answered by `Done`.
    UnlockSource { source: isize },
    /// Empty the clipboard of every format. Answered by `Status`.
    ClearContents,
    /// Allocate a shared buffer of `bytes` bytes with `flags`. Answered by
    /// `Handle`.
    Allocate { flags: u32, bytes: usize },
    /// Lock the buffer `target` and copy `units` to its start. Answered by
    /// `Status`, zero when the lock was refused; after any other answer the
    /// buffer stays locked.
    FillTarget { target: isize, units: Vec<u16> },
    /// Unlock the buffer `target`. Answered by `Done`.
    UnlockTarget { target: isize },
    /// Hand the buffer `target` to the clipboard as its payload under
    /// `format`. Answered by `Handle`.
    Install { format: u32, target: isize },
    /// Free the buffer `target`, which the clipboard did not take. Answered
    /// by `Done`.
    Release { target: isize },
    /// Close the clipboard. Answered by `Done`.
    CloseSession,
    /// Nothing is left to do: the rewrite ended with this result.
    Finish(Result<(), Error>),
}

/// What [`Action`] is in contracts.
pub enum ActionView {
    OpenSession,
    Fetch { format: u32 },
    LockSource { source: isize },
    UnlockSource { source: isize },
    ClearContents,
    Allocate { flags: u32, bytes: usize },
    FillTarget { target: isize, units: Seq<u16> },
    UnlockTarget { target: isize },
    Install { format: u32, target: isize },
    Release { target: isize },
    CloseSession,
    Finish(Result<(), Error>),
}

impl View for Action {
    type V = ActionView;

    open spec fn view(&self) -> ActionView {
        match *self {
            Action::OpenSession => ActionView::OpenSession,
            Action::Fetch { format } => ActionView::Fetch { format },
            Action::LockSource { source } => ActionView::LockSource { source },
            Action::UnlockSource { source } => ActionView::UnlockSource { source },
            Action::ClearContents => ActionView::ClearContents,
            Action::Allocate { flags, bytes } => ActionView::Allocate { flags, bytes },
            Action::FillTarget { target, units } => ActionView::FillTarget {
                target,
                units: units@,
            },
            Action::UnlockTarget { target } => ActionView::UnlockTarget { target },
            Action::Install { format, target } => ActionView::Install { format, target },
            Action::Release { target } => ActionView::Release { target },
            Action::CloseSession => ActionView::CloseSession,
            Action::Finish(result) => ActionView::Finish(result),
        }
    }
}

/// What the system answered to the last [`Action`].
#[derive(Clone, Debug, PartialEq, Eq)]
pub enum Reply {
    /// The primitive has no answer that matters, or none was carried out yet.
    Done,
    /// A truth value as the system gives it: zero for failure.
    Status(i32),
    /// A handle as a number: zero for none.
    Handle(isize),
    /// All the units of a locked buffer, or `None` when it could not be
    /// locked.
    Contents(Option<Vec<u16>>),
}

/// What [`Reply`] is in contracts.
pub enum ReplyView {
    Done,
    Status(i32),
    Handle(isize),
    Contents(Option<Seq<u16>>),
}

impl View for Reply {
    type V = ReplyView;

    open spec fn view(&self) -> ReplyView {
        match *self {
            Reply::Done => ReplyView::Done,
            Reply::Status(status) => ReplyView::Status(status),
            Reply::Handle(handle) => ReplyView::Handle(handle),
            Reply::Contents(None) => ReplyView::Contents(None),
            Reply::Contents(Some(units)) => ReplyView::Contents(Some(units@)),
        }
    }
}

impl ReplyView {
    /// Holds of a `Status` other than zero, and of nothing else.
    pub open spec fn granted(self) -> bool {
        self matches ReplyView::Status(status) && status != 0
    }

    /// The handle of a `Handle`; zero, which is no handle, for anything else.
    pub open spec fn handle(self) -> isize {
        match self {
            ReplyView::Handle(handle) => handle,
            _ => 0,
        }
    }

    /// The units of a `Contents`; `None` for anything else.
    pub open spec fn contents(self) -> Option<Seq<u16>> {
        match self {
            ReplyView::Contents(contents) => contents,
            _ => None,
        }
    }
}

impl Reply {
    /// Whether this is a status that reports success.
    pub fn granted(&self) -> (granted: bool)
        ensures
            granted == self@.granted(),
    {
        match self {
            Reply::Status(status) => *status != 0,
            _ => false,
        }
    }

    /// The handle that this answer carries, zero when it carries none.
    pub fn handle(&self) -> (handle: isize)
        ensures
            handle == self@.handle(),
    {
        match self {
            Reply::Handle(handle) => *handle,
            _ => 0,
        }
    }
}

/// Where a rewrite stands: which primitive it has asked for last.
#[derive(Clone, Copy, Debug, PartialEq, Eq, Structural)]
pub enum Phase {
    /// Nothing was asked for yet.
    Start,
    /// `OpenSession` is out.
    Opening,
    /// `Fetch` is out; the session is open.
    Fetching,
    /// `LockSource` is out.
    LockingSource,
    /// `UnlockSource` is out; the text is copied.
    UnlockingSource,
    /// `ClearContents` is out.
    Clearing,
    /// `Allocate` is out; the clipboard is empty.
    Allocating,
    /// `FillTarget` is out; the new buffer is ours.
    Filling,
    /// `UnlockTarget` is out.
    UnlockingTarget,
    /// `Install` is out.
    Installing,
    /// `Release` is out, after a failure that left the new buffer with us.
    Releasing,
    /// `CloseSession` is out; the result is settled.
    Closing,
    /// `Finish` was given.
    Finished,
}

impl Phase {
    /// How many steps a rewrite can still take from this phase, at most.
    pub open spec fn rank(self) -> nat {
        match self {
            Phase::Start => 12,
            Phase::Opening => 11,
            Phase::Fetching => 10,
            Phase::LockingSource => 9,
            Phase::UnlockingSource => 8,
            Phase::Clearing => 7,
            Phase::Allocating => 6,
            Phase::Filling => 5,
            Phase::UnlockingTarget => 4,
            Phase::Installing => 3,
            Phase::Releasing => 2,
            Phase::Closing => 1,
            Phase::Finished => 0,
        }
    }
}

/// The state of one rewrite.
#[derive(Debug)]
pub struct Rewriter {
    phase: Phase,
    source: isize,
    target: isize,
    text: Vec<u16>,
    outcome: Result<(), Error>,
}

/// What [`Rewriter`] is in contracts.
pub struct RewriterView {
    /// The primitive that is out.
    pub phase: Phase,
    /// The handle of the buffer that the text is read from; zero before it is
    /// known.
    pub source: isize,
    /// The handle of the buffer that the text is written to; zero before it
    /// is allocated.
    pub target: isize,
    /// The text that was read; empty before that.
    pub text: Seq<u16>,
    /// The result, once it is settled; `Ok` before that.
    pub outcome: Result<(), Error>,
}

impl View for Rewriter {
    type V = RewriterView;

    closed spec fn view(&self) -> RewriterView {
        RewriterView {
            phase: self.phase,
            source: self.source,
            target: self.target,
            text: self.text@,
            outcome: self.outcome,
        }
    }
}

impl RewriterView {
    /// A rewrite that has not begun.
    pub open spec fn initial() -> RewriterView {
        RewriterView {
            phase: Phase::Start,
            source: 0,
            target: 0,
            text: Seq::empty(),
            outcome: Ok(()),
        }
    }

    /// Settles the result as `error` with the session still open: the next
    /// primitive closes it.
    pub open spec fn abandon(self, error: Error) -> (RewriterView, ActionView) {
        (
            RewriterView { phase: Phase::Closing, outcome: Err(error), ..self },
            ActionView::CloseSession,
        )
    }

    /// Settles the result as `error` with the new buffer still ours: the next
    /// primitive frees it.
    pub open spec fn discard(self, error: Error) -> (RewriterView, ActionView) {
        (
            RewriterView { phase: Phase::Releasing, outcome: Err(error), ..self },
            ActionView::Release { target: self.target },
        )
    }

    /// The state after `reply` arrived, and the primitive to carry out next.
    ///
    /// An answer of another kind than the one that the phase waits for counts
    /// as the failure of the primitive that is out.
    pub open spec fn next(self, reply: ReplyView) -> (RewriterView, ActionView) {
        match self.phase {
            Phase::Start => (
                RewriterView { phase: Phase::Opening, ..self },
                ActionView::OpenSession,
            ),
            Phase::Opening => if reply.granted() {
                (
                    RewriterView { phase: Phase::Fetching, ..self },
                    ActionView::Fetch { format: CF_UNICODETEXT },
                )
            } else {
                (
                    RewriterView {
                        phase: Phase::Finished,
                        outcome: Err(Error::ClipboardUnavailable),
                        ..self
                    },
                    ActionView::Finish(Err(Error::ClipboardUnavailable)),
                )
            },
            Phase::Fetching => if reply.handle() != 0 {
                (
                    RewriterView { phase: Phase::LockingSource, source: reply.handle(), ..self },
                    ActionView::LockSource { source: reply.handle() },
                )
            } else {
                self.abandon(Error::NoTextContent)
            },
            Phase::LockingSource => match reply.contents() {
                Some(units) => (
                    RewriterView {
                        phase: Phase::UnlockingSource,
                        text: terminated_prefix(units),
                        ..self
                    },
                    ActionView::UnlockSource { source: self.source },
                ),
                None => self.abandon(Error::LockFailure),
            },
            Phase::UnlockingSource => (
                RewriterView { phase: Phase::Clearing, ..self },
                ActionView::ClearContents,
            ),
            Phase::Clearing => if !reply.granted() {
                self.abandon(Error::ClearFailure)
            } else if buffer_bytes(self.text.len()) > usize::MAX {
                self.abandon(Error::AllocationFailure)
            } else {
                (
                    RewriterView { phase: Phase::Allocating, ..self },
                    ActionView::Allocate {
                        flags: GMEM_MOVEABLE,
                        bytes: buffer_bytes(self.text.len()) as usize,
                    },
                )
            },
            Phase::Allocating => if reply.handle() != 0 {
                (
                    RewriterView { phase: Phase::Filling, target: reply.handle(), ..self },
                    ActionView::FillTarget {
                        target: reply.handle(),
                        units: terminated(self.text),
                    },
                )
            } else {
                self.abandon(Error::AllocationFailure)
            },
            Phase::Filling => if reply.granted() {
                (
                    RewriterView { phase: Phase::UnlockingTarget, ..self },
                    ActionView::UnlockTarget { target: self.target },
                )
            } else {
                self.discard(Error::LockFailure)
            },
            Phase::UnlockingTarget => (
                RewriterView { phase: Phase::Installing, ..self },
                ActionView::Install { format: CF_UNICODETEXT, target: self.target },
            ),
            Phase::Installing => if reply.handle() != 0 {
                (
                    RewriterView { phase: Phase::Closing, outcome: Ok(()), ..self },
                    ActionView::CloseSession,
                )
            } else {
                self.discard(Error::SetFailure)
            },
            Phase::Releasing => (
                RewriterView { phase: Phase::Closing, ..self },
                ActionView::CloseSession,
            ),
            Phase::Closing => (
                RewriterView { phase: Phase::Finished, ..self },
                ActionView::Finish(self.outcome),
            ),
            Phase::Finished => (self, ActionView::Finish(self.outcome)),
        }
    }
}

/// A rewrite ends, whatever the system answers: each step takes the machine
/// to a phase of lower rank, so the thirteenth step at the latest gives
/// `Finish`. `Finish` comes with the last phase and only with it, and from
/// then on every step gives it again, with the same result.
pub proof fn lemma_step_advances(machine: RewriterView, reply: ReplyView)
    ensures
        machine.phase != Phase::Finished ==> machine.next(reply).0.phase.rank()
            < machine.phase.rank(),
        machine.phase == Phase::Finished ==> machine.next(reply) == (
            machine,
            ActionView::Finish(machine.outcome),
        ),
        machine.next(reply).1 is Finish <==> machine.next(reply).0.phase == Phase::Finished,
        machine.next(reply).1 matches ActionView::Finish(result) ==> result == machine.next(
            reply,
        ).0.outcome,
{
}

impl Rewriter {
    /// A rewrite that has not begun. Its first step, whatever it is given,
    /// asks for the session.
    pub fn new() -> (rewriter: Rewriter)
        ensures
            rewriter@ == RewriterView::initial(),
    {
        Rewriter { phase: Phase::Start, source: 0, target: 0, text: Vec::new(), outcome: Ok(()) }
    }

    /// The phase that the rewrite is in.
    pub fn phase(&self) -> (phase: Phase)
        ensures
            phase == self@.phase,
    {
        self.phase
    }

    /// Whether `Finish` was given.
    pub fn is_finished(&self) -> (finished: bool)
        ensures
            finished == (self@.phase == Phase::Finished),
    {
        match self.phase {
            Phase::Finished => true,
            _ => false,
        }
    }

    fn abandon(&mut self, error: Error) -> (action: Action)
        ensures
            (final(self)@, action@) == old(self)@.abandon(error),
    {
        self.phase = Phase::Closing;
        self.outcome = Err(error);
        Action::CloseSession
    }

    fn discard(&mut self, error: Error) -> (action: Action)
        ensures
            (final(self)@, action@) == old(self)@.discard(error),
    {
        self.phase = Phase::Releasing;
        self.outcome = Err(error);
        Action::Release { target: self.target }
    }

    /// Takes the answer to the primitive that is out and gives the next one.
    pub fn step(&mut self, reply: Reply) -> (action: Action)
        ensures
            (final(self)@, action@) == old(self)@.next(reply@),
    {
        match self.phase {
            Phase::Start => {
                self.phase = Phase::Opening;
                Action::OpenSession
            },
            Phase::Opening => {
                if reply.granted() {
                    self.phase = Phase::Fetching;
                    Action::Fetch { format: CF_UNICODETEXT }
                } else {
                    self.phase = Phase::Finished;
                    self.outcome = Err(Error::ClipboardUnavailable);
                    Action::Finish(Err(Error::ClipboardUnavailable))
                }
            },
            Phase::Fetching => {
                let source = reply.handle();
                if source != 0 {
                    self.phase = Phase::LockingSource;
                    self.source = source;
                    Action::LockSource { source }
                } else {
                    self.abandon(Error::NoTextContent)
                }
            },
            Phase::LockingSource => {
                match reply {
                    Reply::Contents(Some(units)) => {
                        self.phase = Phase::UnlockingSource;
                        self.text = read_terminated(units.as_slice());
                        Action::UnlockSource { source: self.source }
                    },
                    _ => self.abandon(Error::LockFailure),
                }
            },
            Phase::UnlockingSource => {
                self.phase = Phase::Clearing;
                Action::ClearContents
            },
            Phase::Clearing => {
                if !reply.granted() {
                    self.abandon(Error::ClearFailure)
                } else {
                    match payload_bytes(self.text.len()) {
                        Some(bytes) => {
                            self.phase = Phase::Allocating;
                            Action::Allocate { flags: GMEM_MOVEABLE, bytes }
                        },
                        None => self.abandon(Error::AllocationFailure),
                    }
                }
            },
            Phase::Allocating => {
                let target = reply.handle();
                if target != 0 {
                    self.phase = Phase::Filling;
                    self.target = target;
                    Action::FillTarget { target, units: with_terminator(&self.text) }
                } else {
                    self.abandon(Error::AllocationFailure)
                }
            },
            Phase::Filling => {
                if reply.granted() {
                    self.phase = Phase::UnlockingTarget;
                    Action::UnlockTarget { target: self.target }
                } else {
                    self.discard(Error::LockFailure)
                }
            },
            Phase::UnlockingTarget => {
                self.phase = Phase::Installing;
                Action::Install { format: CF_UNICODETEXT, target: self.target }
            },
            Phase::Installing => {
                if reply.handle() != 0 {
                    self.phase = Phase::Closing;
                    self.outcome = Ok(());
                    Action::CloseSession
                } else {
                    self.discard(Error::SetFailure)
                }
            },
            Phase::Releasing => {
                self.phase = Phase::Closing;
                Action::CloseSession
            },
            Phase::Closing => {
                self.phase = Phase::Finished;
                Action::Finish(self.outcome)
            },
            Phase::Finished => Action::Finish(self.outcome),
        }
    }
}

} // verus!
