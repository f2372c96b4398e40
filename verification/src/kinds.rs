//! Filesystem change kinds, as the bit flags that change notifications carry.

use vstd::prelude::*;
use inotify::WatchMask;

verus! {

/// The file was modified.
pub const MODIFY: u32 = 0x0000_0002;

/// A file opened for writing was closed.
pub const CLOSE_WRITE: u32 = 0x0000_0008;

/// A file that was not opened for writing was closed.
pub const CLOSE_NOWRITE: u32 = 0x0000_0010;

/// A file or directory was created in the watched directory.
pub const CREATE: u32 = 0x0000_0100;

/// A file or directory was deleted from the watched directory.
pub const DELETE: u32 = 0x0000_0200;

/// Every bit that a watch subscription can carry: the twelve event bits and
/// the five option bits.
pub const WATCHABLE: u32 = 0xA700_0FFF;

/// A set of change kinds, one bit per kind. A notification carries the kinds
/// that apply to it; a requested kind usually holds a single bit.
#[derive(Clone, Copy, Debug, PartialEq, Eq, Structural)]
pub struct ChangeKind {
    pub bits: u32,
}

impl ChangeKind {
    /// Every bit of `other` is set in `self`.
    pub open spec fn covers(self, other: ChangeKind) -> bool {
        self.bits & other.bits == other.bits
    }

    pub fn new(bits: u32) -> (r: ChangeKind)
        ensures
            r.bits == bits,
    {
        ChangeKind { bits }
    }

    pub fn bits(&self) -> (r: u32)
        ensures
            r == self.bits,
    {
        self.bits
    }

    pub fn contains(&self, other: ChangeKind) -> (r: bool)
        ensures
            r == self.covers(other),
    {
        self.bits & other.bits == other.bits
    }
}

/// The kinds watched when the caller names none: content written, created,
/// deleted, modified, closed without a write, in this order.
pub open spec fn default_kinds() -> Seq<ChangeKind> {
    seq![
        ChangeKind { bits: CLOSE_WRITE },
        ChangeKind { bits: CREATE },
        ChangeKind { bits: DELETE },
        ChangeKind { bits: MODIFY },
        ChangeKind { bits: CLOSE_NOWRITE },
    ]
}

/// One notification carries at least one of the requested kinds.
pub open spec fn event_matches(event: ChangeKind, requested: Seq<ChangeKind>) -> bool {
    exists|i: int| 0 <= i < requested.len() && event.covers(#[trigger] requested[i])
}

/// Some notification of the batch carries at least one of the requested kinds.
pub open spec fn batch_matches(batch: Seq<ChangeKind>, requested: Seq<ChangeKind>) -> bool {
    exists|j: int| 0 <= j < batch.len() && event_matches(#[trigger] batch[j], requested)
}

/// The bits of a watch subscription for the requested kinds: the union of
/// their bits, without the bits that a subscription cannot carry.
pub open spec fn watch_bits(requested: Seq<ChangeKind>) -> u32
    decreases requested.len(),
{
    if requested.len() == 0 {
        0u32
    } else {
        watch_bits(requested.drop_last()) | (requested.last().bits & WATCHABLE)
    }
}

/// Calls `inotify::WatchMask::from_bits_truncate` and reads the bits of the
/// mask it returns: the argument's bits that are flags of `WatchMask`, which
/// are the bits of `WATCHABLE`; every other bit is cleared.
#[verifier::external_body]
fn subscribable_bits(bits: u32) -> (r: u32)
    ensures
        r == bits & WATCHABLE,
{
    WatchMask::from_bits_truncate(bits).bits()
}

pub fn event_has_requested(event: ChangeKind, requested: &Vec<ChangeKind>) -> (r: bool)
    ensures
        r == event_matches(event, requested@),
{
    let mut i: usize = 0;
    while i < requested.len()
        invariant
            i <= requested.len(),
            forall|k: int| 0 <= k < i ==> !event.covers(#[trigger] requested@[k]),
        decreases requested.len() - i,
    {
        if event.contains(requested[i]) {
            return true;
        }
        i += 1;
    }
    false
}

pub fn batch_has_requested(batch: &Vec<ChangeKind>, requested: &Vec<ChangeKind>) -> (r: bool)
    ensures
        r == batch_matches(batch@, requested@),
{
    let mut j: usize = 0;
    while j < batch.len()
        invariant
            j <= batch.len(),
            forall|k: int| 0 <= k < j ==> !event_matches(#[trigger] batch@[k], requested@),
        decreases batch.len() - j,
    {
        if event_has_requested(batch[j], requested) {
            return true;
        }
        j += 1;
    }
    false
}

/// The subscription mask for the requested kinds.
pub fn watch_mask(requested: &Vec<ChangeKind>) -> (r: u32)
    ensures
        r == watch_bits(requested@),
{
    let mut acc: u32 = 0;
    let mut i: usize = 0;
    while i < requested.len()
        invariant
            i <= requested.len(),
            acc == watch_bits(requested@.take(i as int)),
        decreases requested.len() - i,
    {
        let kept: u32 = subscribable_bits(requested[i].bits);
        proof {
            let next = requested@.take(i + 1);
            assert(next.drop_last() =~= requested@.take(i as int));
            assert(next.last() == requested@[i as int]);
        }
        acc = acc | kept;
        i += 1;
    }
    proof {
        assert(requested@.take(i as int) =~= requested@);
    }
    acc
}

/// A copy of the requested kinds, in the same order.
pub fn copy_kinds(kinds: &Vec<ChangeKind>) -> (r: Vec<ChangeKind>)
    ensures
        r@ == kinds@,
{
    let mut out: Vec<ChangeKind> = Vec::new();
    let mut i: usize = 0;
    while i < kinds.len()
        invariant
            i <= kinds.len(),
            out@ == kinds@.take(i as int),
        decreases kinds.len() - i,
    {
        out.push(kinds[i]);
        proof {
            assert(out@ =~= kinds@.take(i + 1));
        }
        i += 1;
    }
    proof {
        assert(kinds@.take(i as int) =~= kinds@);
    }
    out
}

} // verus!
