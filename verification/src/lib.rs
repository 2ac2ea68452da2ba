//! Decision logic of a display multiplexer: discovery of GPU outputs, the
//! rendering context and surface lifecycle, and the keyboard plumbing that sits
//! on top of them. Every function here works on plain values; the embedding
//! program performs the device and driver calls and reports their outcomes.

pub mod egl_util;
pub mod handler;
pub mod input;
pub mod output;
pub mod udev;

use vstd::prelude::*;

verus! {

/// The first `count` of the engines that `kept` keeps, in their order.
pub open spec fn retained<W>(engines: Seq<W>, kept: Seq<bool>, count: nat) -> Seq<W>
    decreases count,
{
    if count == 0 {
        Seq::empty()
    } else {
        let before = retained(engines, kept, (count - 1) as nat);
        if kept[count - 1] {
            before.push(engines[count - 1])
        } else {
            before
        }
    }
}

/// The engines that are told of input, as weak references: an engine may go
/// away at any time. `W` is the embedding program's weak reference.
///
/// References to engines that are gone are pruned at one defined point: the end
/// of [`EngineWeakCollection::for_each`].
pub struct EngineWeakCollection<W> {
    engines: Vec<W>,
}

impl<W> View for EngineWeakCollection<W> {
    type V = Seq<W>;

    /// The references, in the order in which they were added.
    closed spec fn view(&self) -> Seq<W> {
        self.engines@
    }
}

impl<W> EngineWeakCollection<W> {
    /// A collection without engines.
    pub fn new() -> (collection: Self)
        ensures
            collection@ == Seq::<W>::empty(),
    {
        EngineWeakCollection { engines: Vec::new() }
    }

    /// Adds a reference to an engine.
    pub fn add(&mut self, engine: W)
        ensures
            final(self)@ == old(self)@.push(engine),
    {
        self.engines.push(engine);
    }

    /// Number of references held.
    pub fn len(&self) -> (n: usize)
        ensures
            n == self@.len(),
    {
        self.engines.len()
    }

    /// Visits every reference once, in the order in which they were added.
    /// `visit` does with the engine what is to be done and says whether the
    /// engine is still there. Afterwards the references for which it said no
    /// are dropped; the others stay, in their order.
    pub fn for_each<F: Fn(&W) -> bool>(&mut self, visit: F)
        requires
            forall|engine: &W| call_requires(visit, (engine,)),
        ensures
            exists|kept: Seq<bool>|
                {
                    &&& kept.len() == old(self)@.len()
                    &&& forall|i: int|
                        0 <= i < kept.len() ==> call_ensures(visit, (&old(self)@[i],), kept[i])
                    &&& final(self)@ == #[trigger] retained(old(self)@, kept, kept.len())
                },
    {
        let mut engines: Vec<W> = Vec::new();
        core::mem::swap(&mut self.engines, &mut engines);
        let ghost all = engines@;
        let ghost mut kept: Seq<bool> = Seq::empty();
        let total = engines.len();
        while engines.len() > 0
            invariant
                all == old(self)@,
                total == all.len(),
                kept.len() + engines@.len() == total,
                engines@ == all.subrange(kept.len() as int, total as int),
                forall|i: int| 0 <= i < kept.len() ==> call_ensures(visit, (&all[i],), kept[i]),
                self.engines@ == retained(all, kept, kept.len()),
                forall|engine: &W| call_requires(visit, (engine,)),
            decreases engines@.len(),
        {
            let engine = engines.remove(0);
            let alive = visit(&engine);
            proof {
                let before = kept;
                kept = before.push(alive);
                lemma_retained_prefix(all, before, kept, before.len());
            }
            if alive {
                self.engines.push(engine);
            }
        }
    }
}

/// What is retained of the first engines depends only on what is said of them.
proof fn lemma_retained_prefix<W>(engines: Seq<W>, a: Seq<bool>, b: Seq<bool>, count: nat)
    requires
        count <= a.len(),
        count <= b.len(),
        forall|i: int| 0 <= i < count ==> a[i] == b[i],
    ensures
        retained(engines, a, count) == retained(engines, b, count),
    decreases count,
{
    if count > 0 {
        lemma_retained_prefix(engines, a, b, (count - 1) as nat);
    }
}

} // verus!
