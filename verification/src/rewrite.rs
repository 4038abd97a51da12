//! A whole rewrite against a clipboard in memory, and what it amounts to.

use vstd::prelude::*;
use crate::clipboard::{BufferView, Clipboard, ClipboardView};
use crate::error::Error;
use crate::rewriter::{Action, ActionView, Reply, ReplyView, Rewriter, RewriterView};
use crate::text::{buffer_bytes, terminated, terminated_prefix};

verus! {

/// How a rewrite ended.
pub struct Outcome {
    /// What the rewrite returned.
    pub result: Result<(), Error>,
    /// The clipboard as the rewrite left it.
    pub clipboard: ClipboardView,
    /// Whether every primitive on the way was one that the clipboard permits
    /// in the state it was asked in.
    pub permitted: bool,
}

/// Steps `machine` with `reply`, asks `clipboard` for what the machine names,
/// and so on until the machine finishes.
pub open spec fn run(machine: RewriterView, reply: ReplyView, clipboard: ClipboardView) -> Outcome
    decreases machine.phase.rank(),
{
    let (stepped, action) = machine.next(reply);
    match action {
        ActionView::Finish(result) => Outcome { result, clipboard, permitted: true },
        _ => if clipboard.permits(action) {
            let (answered, answer) = clipboard.respond(action);
            run(stepped, answer, answered)
        } else {
            Outcome { result: Err(Error::ClipboardUnavailable), clipboard, permitted: false }
        },
    }
}

impl ClipboardView {
    /// The text that a rewrite would read and write back. Meant for a
    /// clipboard that holds text.
    pub open spec fn text_read(self) -> Seq<u16> {
        match self.text {
            Some(buffer) => terminated_prefix(buffer.units),
            None => Seq::empty(),
        }
    }

    /// What a rewrite of this clipboard returns.
    ///
    /// The first primitive that is refused decides, in the order in which a
    /// rewrite asks for them. A text so long that no `usize` holds the size
    /// of its buffer counts as a buffer that cannot be allocated.
    pub open spec fn rewrite_result(self) -> Result<(), Error> {
        if self.faults.open {
            Err(Error::ClipboardUnavailable)
        } else if self.text is None {
            Err(Error::NoTextContent)
        } else if self.faults.lock_source {
            Err(Error::LockFailure)
        } else if self.faults.clear {
            Err(Error::ClearFailure)
        } else if buffer_bytes(self.text_read().len()) > usize::MAX || self.faults.allocate {
            Err(Error::AllocationFailure)
        } else if self.faults.lock_target {
            Err(Error::LockFailure)
        } else if self.faults.install {
            Err(Error::SetFailure)
        } else {
            Ok(())
        }
    }

    /// Whether a rewrite of this clipboard gets as far as emptying it.
    pub open spec fn rewrite_clears(self) -> bool {
        !self.faults.open && self.text is Some && !self.faults.lock_source && !self.faults.clear
    }

    /// The clipboard as a rewrite leaves it.
    ///
    /// A rewrite that fails before it has emptied the clipboard leaves it as
    /// it was. One that fails later leaves it empty. One that succeeds leaves
    /// the text that it read, terminated, in a buffer of its own, and nothing
    /// under any other format.
    pub open spec fn rewritten(self) -> ClipboardView {
        if !self.rewrite_clears() {
            self
        } else if self.rewrite_result() is Err {
            ClipboardView { text: None, others: Seq::empty(), ..self }
        } else {
            ClipboardView {
                text: Some(
                    BufferView { handle: self.spare, units: terminated(self.text_read()) },
                ),
                others: Seq::empty(),
                ..self
            }
        }
    }
}

/// Run against a clipboard at rest, the machine asks only for what the
/// clipboard permits, returns `rewrite_result` and leaves `rewritten`.
pub proof fn lemma_run(clipboard: ClipboardView)
    requires
        clipboard.wf(),
    ensures
        run(RewriterView::initial(), ReplyView::Done, clipboard) == (Outcome {
            result: clipboard.rewrite_result(),
            clipboard: clipboard.rewritten(),
            permitted: true,
        }),
{
    reveal_with_fuel(run, 14);
}

/// A rewrite leaves the clipboard at rest: the session is closed, nothing is
/// locked and no allocated buffer is left over, however the rewrite ended.
pub proof fn lemma_rewritten_wf(clipboard: ClipboardView)
    requires
        clipboard.wf(),
    ensures
        clipboard.rewritten().wf(),
{
}

/// Rewrites the text on `clipboard`: reads it, empties the clipboard and puts
/// the text back as its only content.
pub fn process_clipboard(clipboard: &mut Clipboard) -> (result: Result<(), Error>)
    requires
        old(clipboard).wf(),
    ensures
        result == old(clipboard)@.rewrite_result(),
        final(clipboard)@ == old(clipboard)@.rewritten(),
        final(clipboard).wf(),
{
    let ghost before = clipboard@;
    let mut machine = Rewriter::new();
    let mut reply = Reply::Done;
    proof {
        lemma_run(before);
    }
    loop
        invariant
            run(machine@, reply@, clipboard@) == (Outcome {
                result: before.rewrite_result(),
                clipboard: before.rewritten(),
                permitted: true,
            }),
            before == old(clipboard)@,
            before.wf(),
        decreases machine@.phase.rank(),
    {
        let ghost stepped_from = machine@;
        let ghost answered_with = reply@;
        let action = machine.step(reply);
        assert(stepped_from.next(answered_with) == (machine@, action@));
        match action {
            Action::Finish(result) => {
                assert(run(stepped_from, answered_with, clipboard@).result == result);
                return result;
            },
            _ => {
                assert(run(stepped_from, answered_with, clipboard@).permitted);
                assert(clipboard@.permits(action@));
                reply = clipboard.perform(action);
            },
        }
    }
}

} // verus!
