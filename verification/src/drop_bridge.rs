//! Drag payload bridge.
//!
//! The host hands drag-and-drop data over through a text side file and
//! bumps a monotonic counter (`drop_seq`) in the control block each time a
//! new payload is available. Each accepted frame is checked for a counter
//! that moved forward; only then is the side file loaded. The most recent
//! payload is kept in a small store that the UI surface queries on an
//! actual drop gesture. The surrounding process owns the lock around the
//! store; this module owns what the store holds and when it changes.

use vstd::prelude::*;

use crate::text::trim_bytes;
use crate::text::trimmed;

verus! {

/// A new drag payload is due exactly when the counter is nonzero and has
/// strictly increased past the last observed value. A counter that merely
/// changed downwards is a regression, not a new drop.
pub open spec fn spec_new_drop(last: u32, cur: u32) -> bool {
    cur != 0 && cur > last
}

/// Decides whether `cur` announces a drag payload not yet loaded.
pub fn new_drop(last: u32, cur: u32) -> (r: bool)
    ensures
        r == spec_new_drop(last, cur),
{
    cur != 0 && cur > last
}

/// The most recent drag payload: the counter value it arrived under and
/// its trimmed text, empty until a first payload arrives.
pub struct DropPayloadStore {
    /// Counter value of the last stored payload; zero before the first.
    pub last_seq: u32,
    /// Bytes of the last stored payload; empty before the first.
    pub last_text: Vec<u8>,
}

impl DropPayloadStore {
    /// A store with no payload yet.
    pub fn new() -> (r: Self)
        ensures
            r.last_seq == 0,
            r.last_text@ == Seq::<u8>::empty(),
    {
        DropPayloadStore { last_seq: 0, last_text: Vec::new() }
    }

    /// Replaces the stored payload.
    pub fn publish(&mut self, seq: u32, text: Vec<u8>)
        ensures
            final(self).last_seq == seq,
            final(self).last_text@ == text@,
    {
        self.last_seq = seq;
        self.last_text = text;
    }

    /// The current payload text, cloned out; empty if none arrived yet.
    pub fn read(&self) -> (r: Vec<u8>)
        ensures
            r@ == self.last_text@,
    {
        let mut r: Vec<u8> = Vec::new();
        let n = self.last_text.len();
        let mut k: usize = 0;
        while k < n
            invariant
                k <= n,
                n == self.last_text@.len(),
                r@ == self.last_text@.subrange(0, k as int),
            decreases n - k,
        {
            r.push(self.last_text[k]);
            assert(r@ =~= self.last_text@.subrange(0, k + 1 as int));
            k = k + 1;
        }
        proof {
            assert(self.last_text@.subrange(0, n as int) =~= self.last_text@);
        }
        r
    }
}

impl Default for DropPayloadStore {
    /// Same as `new`: no payload yet.
    fn default() -> (r: Self)
        ensures
            r.last_seq == 0,
            r.last_text@ == Seq::<u8>::empty(),
    {
        DropPayloadStore { last_seq: 0, last_text: Vec::new() }
    }
}

/// The bytes a side-file read produced, or nothing when the file was
/// absent or unreadable (the host may still be mid-write; not an error).
pub open spec fn view_read(contents: Option<&[u8]>) -> Option<Seq<u8>> {
    match contents {
        Some(s) => Some(s@),
        None => None,
    }
}

/// A side-file read carries a payload: it succeeded and its trimmed text
/// is non-empty.
pub open spec fn spec_drop_applies(contents: Option<Seq<u8>>) -> bool {
    match contents {
        Some(s) => trimmed(s).len() > 0,
        None => false,
    }
}

/// Folds one side-file read into the store. Only a readable file whose
/// trimmed text is non-empty replaces the stored payload; anything else
/// leaves the store untouched, so the same counter value is retried on the
/// next announcing frame. Returns whether the payload advanced.
pub fn apply_drop_read(
    store: &mut DropPayloadStore,
    drop_seq: u32,
    contents: Option<&[u8]>,
) -> (advanced: bool)
    ensures
        advanced == spec_drop_applies(view_read(contents)),
        advanced ==> match contents {
            Some(s) => final(store).last_seq == drop_seq && final(store).last_text@ == trimmed(s@),
            None => false,
        },
        !advanced ==> *final(store) == *old(store),
{
    match contents {
        Some(s) => {
            let t = trim_bytes(s);
            if t.len() > 0 {
                store.publish(drop_seq, t);
                true
            } else {
                false
            }
        },
        None => false,
    }
}

} // verus!
