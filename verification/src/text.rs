//! Zero-terminated UTF-16 text as it lies in a shared clipboard buffer.

use vstd::prelude::*;
use crate::scan::{before_first, free_of, lemma_before_first, lemma_first_index_unique};

verus! {

/// The text that a buffer holds: its units before the first zero unit, all of
/// them when there is no zero.
pub open spec fn terminated_prefix(buffer: Seq<u16>) -> Seq<u16> {
    before_first(buffer, 0u16)
}

/// The buffer content that stands for `text`: the text and one zero unit.
pub open spec fn terminated(text: Seq<u16>) -> Seq<u16> {
    text.push(0u16)
}

/// The bytes that a buffer for `units` code units of text and a terminator
/// takes.
pub open spec fn buffer_bytes(units: nat) -> nat {
    2 * (units + 1)
}

/// Reading back what was written: a text without a zero, written with its
/// terminator, is the text of the buffer it was written to.
pub proof fn lemma_prefix_of_terminated(text: Seq<u16>)
    requires
        free_of(text, 0u16),
    ensures
        terminated_prefix(terminated(text)) == text,
{
    let buffer = terminated(text);
    lemma_first_index_unique(buffer, 0u16, 0, text.len() as int);
    assert(buffer.take(text.len() as int) =~= text);
}

/// Reading is stable: the text of a buffer, terminated and read again, is the
/// same text.
pub proof fn lemma_terminated_prefix_stable(buffer: Seq<u16>)
    ensures
        terminated_prefix(terminated(terminated_prefix(buffer))) == terminated_prefix(buffer),
{
    lemma_before_first(buffer, 0u16);
    lemma_prefix_of_terminated(terminated_prefix(buffer));
}

/// Copies the text out of a buffer: everything before the first zero unit.
pub fn read_terminated(buffer: &[u16]) -> (text: Vec<u16>)
    ensures
        text@ == terminated_prefix(buffer@),
{
    let mut text: Vec<u16> = Vec::new();
    let mut at: usize = 0;
    while at < buffer.len() && buffer[at] != 0
        invariant
            at <= buffer.len(),
            text@ == buffer@.take(at as int),
            forall|i: int| 0 <= i < at ==> buffer@[i] != 0,
        decreases buffer.len() - at,
    {
        text.push(buffer[at]);
        at += 1;
        assert(text@ =~= buffer@.take(at as int));
    }
    proof {
        lemma_first_index_unique(buffer@, 0u16, 0, at as int);
    }
    text
}

/// Lays `text` out as a buffer holds it: the text, then one zero unit.
pub fn with_terminator(text: &Vec<u16>) -> (payload: Vec<u16>)
    ensures
        payload@ == terminated(text@),
{
    let mut payload: Vec<u16> = Vec::new();
    let mut at: usize = 0;
    while at < text.len()
        invariant
            at <= text.len(),
            payload@ == text@.take(at as int),
        decreases text.len() - at,
    {
        payload.push(text[at]);
        at += 1;
        assert(payload@ =~= text@.take(at as int));
    }
    payload.push(0u16);
    assert(payload@ =~= terminated(text@));
    payload
}

/// The size in bytes of a buffer for a text of `units` code units and its
/// terminator, or `None` when no `usize` holds it.
pub fn payload_bytes(units: usize) -> (bytes: Option<usize>)
    ensures
        bytes == if buffer_bytes(units as nat) <= usize::MAX {
            Some(buffer_bytes(units as nat) as usize)
        } else {
            None::<usize>
        },
{
    if units < usize::MAX / 2 {
        Some(2 * (units + 1))
    } else {
        None
    }
}

} // verus!
