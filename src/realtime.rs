//! The shared real-time state: a single slot holding the latest spectrum
//! snapshot and its playback timestamp. The audio thread publishes into it,
//! the render thread reads copies of it; whoever shares it across threads
//! guards it with one lock, so each publish and each read is one step.

use vstd::prelude::*;

verus! {

/// One spectrum snapshot: the frequency bins of the last analysed window and
/// the time since playback started, in nanoseconds.
pub struct RealtimeAttributes<B> {
    pub fft: Vec<B>,
    pub timestamp: u64,
}

} // verus!

verus! {

/// What a slot holds: the bins and the timestamp of one snapshot.
pub type SnapshotView<B> = (Seq<B>, u64);

impl<B> RealtimeAttributes<B> {
    pub open spec fn snapshot(&self) -> SnapshotView<B> {
        (self.fft@, self.timestamp)
    }
}

/// The slot after publishing each of `published` in order, starting from
/// `initial`: each publish replaces the whole snapshot.
pub open spec fn after_publishing<B>(initial: SnapshotView<B>, published: Seq<SnapshotView<B>>) -> SnapshotView<B> {
    if published.len() == 0 {
        initial
    } else {
        published.last()
    }
}

/// The single-slot cell of the latest snapshot.
pub struct RealtimeSlot<B> {
    current: RealtimeAttributes<B>,
}

impl<B> View for RealtimeSlot<B> {
    type V = SnapshotView<B>;

    closed spec fn view(&self) -> SnapshotView<B> {
        self.current.snapshot()
    }
}

impl<B: Copy> RealtimeSlot<B> {
    /// A slot holding the default snapshot: no bins, timestamp zero.
    pub fn new() -> (r: Self)
        ensures
            r@ == (Seq::<B>::empty(), 0u64),
    {
        RealtimeSlot { current: RealtimeAttributes { fft: Vec::new(), timestamp: 0 } }
    }

    /// Replaces the held snapshot by `snapshot`, whole (last write wins).
    pub fn publish(&mut self, snapshot: RealtimeAttributes<B>)
        ensures
            final(self)@ == snapshot.snapshot(),
            final(self)@ == after_publishing(old(self)@, seq![snapshot.snapshot()]),
    {
        self.current = snapshot;
    }

    /// An independent copy of the held snapshot.
    pub fn read(&self) -> (r: RealtimeAttributes<B>)
        ensures
            r.snapshot() == self@,
    {
        let src = &self.current.fft;
        let mut bins: Vec<B> = Vec::with_capacity(src.len());
        let mut i: usize = 0;
        while i < src.len()
            invariant
                i <= src@.len(),
                bins@ == src@.subrange(0, i as int),
            decreases src@.len() - i,
        {
            bins.push(src[i]);
            i = i + 1;
        }
        assert(bins@ =~= src@);
        RealtimeAttributes { fft: bins, timestamp: self.current.timestamp }
    }
}

/// A read never mixes snapshots: after any sequence of publishes the slot
/// holds the bins and the timestamp of one and the same snapshot, the last
/// one published (or the initial one if none was), with no earlier one
/// queued; publishing `a` and then `b` is publishing `a + b`.
pub proof fn lemma_publish_atomic<B>(
    initial: SnapshotView<B>,
    a: Seq<SnapshotView<B>>,
    b: Seq<SnapshotView<B>>,
)
    ensures
        a.len() == 0 ==> after_publishing(initial, a) == initial,
        a.len() > 0 ==> after_publishing(initial, a) == a[a.len() - 1],
        a.len() > 0 ==> after_publishing(initial, a).0 == a[a.len() - 1].0
            && after_publishing(initial, a).1 == a[a.len() - 1].1,
        after_publishing(after_publishing(initial, a), b) == after_publishing(initial, a + b),
{
    if b.len() > 0 {
        assert((a + b).last() == b.last());
    } else {
        assert(a + b =~= a);
    }
}

} // verus!
