//! The clipboard-swap model: the system clipboard as the library sees it,
//! the snapshot taken before a payload is written, and the restore step —
//! with the law that a full swap cycle leaves the clipboard exactly as it
//! was found.
//!
//! The application layer reads and writes the real clipboard; this module
//! fixes what those steps do to its content.

use vstd::prelude::*;

verus! {

/// A clipboard content as the library models it: the format identifier and
/// the raw payload bytes of the first available format, or nothing when no
/// format is available.
pub open spec fn content_view(content: Option<(u32, Vec<u8>)>) -> Option<(u32, Seq<u8>)> {
    match content {
        None => None,
        Some((format, bytes)) => Some((format, bytes@)),
    }
}

/// What writing a payload leaves on the clipboard: exactly the one format
/// with the payload's bytes, whatever was there before.
pub open spec fn set_transition(format: u32, payload: Seq<u8>) -> Option<(u32, Seq<u8>)> {
    Some((format, payload))
}

/// What restoring a snapshot leaves on the clipboard: the snapshot's content
/// when one was captured; the clipboard untouched when there was nothing to
/// restore (an empty snapshot is a valid state, not an error).
pub open spec fn restore_transition(
    content: Option<(u32, Seq<u8>)>,
    snapshot: Option<(u32, Seq<u8>)>,
) -> Option<(u32, Seq<u8>)> {
    match snapshot {
        None => content,
        Some(saved) => Some(saved),
    }
}

/// The clipboard swap is idempotent with respect to external state: for any
/// pre-existing clipboard content and any injected payload, a full cycle —
/// snapshot, payload write, restore — leaves the clipboard holding exactly
/// the pre-existing content, format identifier and bytes alike.
pub proof fn lemma_swap_restores(
    content: Option<(u32, Seq<u8>)>,
    format: u32,
    payload: Seq<u8>,
)
    requires
        content is Some,
    ensures
        restore_transition(set_transition(format, payload), content) == content,
{
}

/// The state of the system clipboard, a single global resource: either empty
/// or holding one format's raw payload.
pub struct Clipboard {
    content: Option<(u32, Vec<u8>)>,
}

/// The content captured from the clipboard immediately before a payload
/// write, consumed to restore it immediately after the paste keystroke.
/// Absence of any clipboard format is a valid snapshot state ("nothing to
/// restore"), not an error.
pub struct ClipboardStore {
    saved: Option<(u32, Vec<u8>)>,
}

/// A byte-for-byte copy of a payload.
fn copy_bytes(src: &Vec<u8>) -> (r: Vec<u8>)
    ensures
        r@ == src@,
{
    let mut r: Vec<u8> = Vec::new();
    let n = src.len();
    let mut i: usize = 0;
    while i < n
        invariant
            n == src@.len(),
            i <= n,
            r@ =~= src@.take(i as int),
        decreases n - i,
    {
        r.push(src[i]);
        i += 1;
        assert(r@ =~= src@.take(i as int));
    }
    assert(r@ =~= src@);
    r
}

impl Clipboard {
    /// The modeled content.
    pub closed spec fn spec_content(&self) -> Option<(u32, Seq<u8>)> {
        content_view(self.content)
    }

    /// Models the clipboard from what the application layer read off the
    /// real one: the first available format and its raw bytes, or nothing.
    pub fn from_state(content: Option<(u32, Vec<u8>)>) -> (c: Clipboard)
        ensures
            c.spec_content() == content_view(content),
    {
        Clipboard { content }
    }

    /// The content, for the application layer to write back to the real
    /// clipboard.
    pub fn content(&self) -> (c: &Option<(u32, Vec<u8>)>)
        ensures
            content_view(*c) == self.spec_content(),
    {
        &self.content
    }

    /// Captures the snapshot to restore after the paste: exactly the current
    /// content, copied bit for bit.
    pub fn save(&self) -> (s: ClipboardStore)
        ensures
            s.spec_saved() == self.spec_content(),
    {
        match &self.content {
            None => ClipboardStore { saved: None },
            Some(pair) => ClipboardStore { saved: Some((pair.0, copy_bytes(&pair.1))) },
        }
    }

    /// Writes a payload: the clipboard then holds exactly the one format
    /// with the payload's bytes.
    pub fn set(&mut self, format: u32, payload: Vec<u8>)
        ensures
            final(self).spec_content() == set_transition(format, payload@),
    {
        self.content = Some((format, payload));
    }

    /// Restores a snapshot: the clipboard then holds the snapshot's content;
    /// with an empty snapshot there is nothing to restore and the clipboard
    /// keeps what the paste left on it.
    pub fn restore(&mut self, store: ClipboardStore)
        ensures
            final(self).spec_content() == restore_transition(
                old(self).spec_content(),
                store.spec_saved(),
            ),
    {
        match store.saved {
            None => {},
            Some(pair) => {
                self.content = Some(pair);
            },
        }
    }
}

impl ClipboardStore {
    /// The captured content, or nothing when no clipboard format was
    /// available at capture time.
    pub closed spec fn spec_saved(&self) -> Option<(u32, Seq<u8>)> {
        content_view(self.saved)
    }

    /// Whether a content was captured, and so whether the restore step of
    /// the swap cycle has anything to write back.
    pub fn has_snapshot(&self) -> (r: bool)
        ensures
            r == (self.spec_saved() is Some),
    {
        self.saved.is_some()
    }
}

} // verus!
