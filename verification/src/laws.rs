//! What holds of every rewrite and of every run of the message loop.
//!
//! The laws speak of `rewrite_result`, `rewritten` and `pumped`, which are
//! what `process_clipboard`, `ClipboardListener::pump` and
//! `ClipboardListener::run` are proved to return and to leave behind.

use vstd::prelude::*;
use crate::clipboard::{ClipboardView, Faults};
use crate::clipboard_listener::{updates, ListenerState, ListenerView, WM_CLIPBOARDUPDATE};
use crate::clipboard_service::WM_APP_QUIT;
use crate::error::Error;
use crate::rewriter::CF_UNICODETEXT;
use crate::scan::{before_first, free_of, lemma_before_first_ignores_rest, lemma_first_index_unique};
use crate::text::{buffer_bytes, lemma_terminated_prefix_stable};

verus! {

/// Round trip. A rewrite that nothing refuses succeeds and leaves on the
/// clipboard the text that was there, unit for unit, under the text format
/// and under no other.
///
/// The text must be one whose buffer has a size: a text of half the address
/// space cannot be written back.
pub proof fn lemma_rewrite_keeps_text(clipboard: ClipboardView)
    requires
        clipboard.wf(),
        clipboard.text is Some,
        clipboard.faults == Faults::none(),
        buffer_bytes(clipboard.text_read().len()) <= usize::MAX,
    ensures
        clipboard.rewrite_result() is Ok,
        clipboard.rewritten().text_content() == clipboard.text_content(),
        clipboard.rewritten().others.len() == 0,
        clipboard.rewritten().formats() == seq![CF_UNICODETEXT],
{
    lemma_terminated_prefix_stable(clipboard.text->0.units);
    assert(clipboard.rewritten().formats() =~= seq![CF_UNICODETEXT]);
}

/// Idempotence. A second rewrite right after a first one changes nothing: it
/// leaves the clipboard as the first one left it, and where the first one
/// succeeded, so does the second.
pub proof fn lemma_rewrite_idempotent(clipboard: ClipboardView)
    requires
        clipboard.wf(),
    ensures
        clipboard.rewritten().rewritten() == clipboard.rewritten(),
        clipboard.rewritten().rewritten().text_content() == clipboard.rewritten().text_content(),
        clipboard.rewrite_result() is Ok ==> clipboard.rewritten().rewrite_result() is Ok,
{
    if clipboard.text is Some {
        lemma_terminated_prefix_stable(clipboard.text->0.units);
    }
}

/// Failure isolation, for one rewrite. While another process holds the
/// clipboard a rewrite fails as unavailable and changes nothing; once the
/// clipboard is free again the next rewrite succeeds and keeps the text.
pub proof fn lemma_unavailable_clipboard_is_left_alone(clipboard: ClipboardView)
    requires
        clipboard.wf(),
        clipboard.faults.open,
    ensures
        clipboard.rewrite_result() == Err::<(), Error>(Error::ClipboardUnavailable),
        clipboard.rewritten() == clipboard,
        ({
            let freed = ClipboardView { faults: Faults::none(), ..clipboard.rewritten() };
            clipboard.text is Some && buffer_bytes(clipboard.text_read().len()) <= usize::MAX
                ==> freed.rewrite_result() is Ok && freed.rewritten().text_content()
                == clipboard.text_content()
        }),
{
    if clipboard.text is Some {
        lemma_terminated_prefix_stable(clipboard.text->0.units);
    }
}

/// A rewrite that fails before the clipboard was emptied leaves the clipboard
/// as it was; one that fails after that leaves it empty; none leaves it
/// half-written.
pub proof fn lemma_failed_rewrite(clipboard: ClipboardView)
    requires
        clipboard.wf(),
        clipboard.rewrite_result() is Err,
    ensures
        !clipboard.rewrite_clears() ==> clipboard.rewritten() == clipboard,
        clipboard.rewrite_clears() ==> clipboard.rewritten().text is None
            && clipboard.rewritten().others.len() == 0,
        clipboard.rewrite_clears() <==> clipboard.rewrite_result() == Err::<(), Error>(
            Error::AllocationFailure,
        ) || clipboard.rewrite_result() == Err::<(), Error>(Error::SetFailure) || (
        clipboard.rewrite_result() == Err::<(), Error>(Error::LockFailure)
            && !clipboard.faults.lock_source),
{
}

/// No text. A rewrite of a clipboard without text, which can be opened,
/// fails for want of text and leaves every payload as it was.
pub proof fn lemma_no_text_is_left_alone(clipboard: ClipboardView)
    requires
        clipboard.wf(),
        clipboard.text is None,
        !clipboard.faults.open,
    ensures
        clipboard.rewrite_result() == Err::<(), Error>(Error::NoTextContent),
        clipboard.rewritten() == clipboard,
{
}

/// Failure isolation, for the loop. How rewrites end has no part in the
/// course of the loop: over the same queue it attempts as many rewrites and
/// ends in the same state, whatever the clipboard holds or refuses.
pub proof fn lemma_loop_outlives_failures(
    listener: ListenerView,
    queue: Seq<u32>,
    clipboard: ClipboardView,
    other: ClipboardView,
)
    ensures
        listener.pumped(queue, clipboard).listener == listener.pumped(queue, other).listener,
        listener.pumped(queue, clipboard).attempts.len() == listener.pumped(
            queue,
            other,
        ).attempts.len(),
        listener.pumping() && free_of(queue, WM_APP_QUIT) ==> listener.pumped(
            queue,
            clipboard,
        ).listener.pumping(),
{
    if listener.pumping() && free_of(queue, WM_APP_QUIT) {
        lemma_first_index_unique(queue, WM_APP_QUIT, 0, queue.len() as int);
    }
}

/// Stopping. A quit signal ends the loop where it stands in the queue: the
/// listener is stopped, and nothing that is queued behind the signal is
/// handled, a clipboard update no more than anything else.
pub proof fn lemma_quit_ends_loop(
    listener: ListenerView,
    head: Seq<u32>,
    rest: Seq<u32>,
    clipboard: ClipboardView,
)
    requires
        listener.pumping(),
    ensures
        listener.pumped(head.push(WM_APP_QUIT) + rest, clipboard) == listener.pumped(
            head.push(WM_APP_QUIT),
            clipboard,
        ),
        listener.pumped(head.push(WM_APP_QUIT) + rest, clipboard).listener.state
            == ListenerState::Stopped,
        free_of(head, WM_APP_QUIT) ==> listener.pumped(
            head.push(WM_APP_QUIT) + rest,
            clipboard,
        ).attempts.len() == updates(head),
        head.len() == 0 ==> listener.pumped(head.push(WM_APP_QUIT) + rest, clipboard).clipboard
            == clipboard,
{
    lemma_before_first_ignores_rest(head, WM_APP_QUIT, rest);
    lemma_before_first_ignores_rest(head, WM_APP_QUIT, Seq::empty());
    assert(head.push(WM_APP_QUIT) + Seq::empty() =~= head.push(WM_APP_QUIT));
    if free_of(head, WM_APP_QUIT) {
        lemma_first_index_unique(head, WM_APP_QUIT, 0, head.len() as int);
        assert(before_first(head, WM_APP_QUIT) =~= head);
    }
    if head.len() == 0 {
        assert(before_first(head, WM_APP_QUIT) =~= Seq::empty());
    }
}

/// A queue of `count` clipboard updates and nothing else.
pub open spec fn burst(count: nat) -> Seq<u32> {
    Seq::new(count, |i: int| WM_CLIPBOARDUPDATE)
}

/// Every message of a burst is a clipboard update.
pub proof fn lemma_updates_of_burst(count: nat)
    ensures
        updates(burst(count)) == count,
        free_of(burst(count), WM_APP_QUIT),
    decreases count,
{
    if count > 0 {
        lemma_updates_of_burst((count - 1) as nat);
        assert(burst(count).drop_last() =~= burst((count - 1) as nat));
    }
}

/// Multiple updates. Clipboard updates that come in a row are answered by
/// one rewrite each, in their order: the rewrite for an update works on the
/// clipboard as the rewrites for the updates before it left it.
pub proof fn lemma_one_rewrite_per_update(
    listener: ListenerView,
    count: nat,
    clipboard: ClipboardView,
)
    requires
        listener.pumping(),
    ensures
        listener.pumped(burst(count), clipboard).attempts.len() == count,
        forall|i: int|
            0 <= i < count ==> listener.pumped(burst(count), clipboard).attempts[i]
                == clipboard.rewritten_times(i as nat).rewrite_result(),
        listener.pumped(burst(count), clipboard).clipboard == clipboard.rewritten_times(count),
{
    lemma_updates_of_burst(count);
    lemma_first_index_unique(burst(count), WM_APP_QUIT, 0, count as int);
    assert(before_first(burst(count), WM_APP_QUIT) =~= burst(count));
}

/// Rewrites in a row settle at once: after the first, every further rewrite
/// leaves the clipboard as it found it.
pub proof fn lemma_rewritten_times_settles(clipboard: ClipboardView, times: nat)
    requires
        clipboard.wf(),
        times >= 1,
    ensures
        clipboard.rewritten_times(times) == clipboard.rewritten(),
        clipboard.rewritten_times(times).wf(),
    decreases times,
{
    if times > 1 {
        lemma_rewritten_times_settles(clipboard, (times - 1) as nat);
        lemma_rewrite_idempotent(clipboard);
    } else {
        assert(clipboard.rewritten_times(0) == clipboard);
    }
}

} // verus!
