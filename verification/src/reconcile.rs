//! Reconciliation of asynchronous load notifications with the folder listing.
//!
//! Model files load independently, and their completion notifications may
//! arrive before or after the folder-level listing resolves. The
//! [`Reconciler`] buffers every notification seen before resolution, drains
//! the buffer exactly once — in arrival order — when the listing resolves,
//! and thereafter processes notifications live. An added id is appended to
//! the registry of loaded models at most once, and only if the listing
//! contains it; every append is reported back so that exactly one list row is
//! materialized per registered id.

use vstd::prelude::*;

verus! {

/// The kind of a per-file load notification.
#[derive(Clone, Copy, Debug, PartialEq, Eq, Structural)]
pub enum AssetEventKind {
    Added,
    Modified,
    Removed,
}

/// One per-file load notification: a kind and the stable id of the file it
/// concerns.
#[derive(Clone, Copy, Debug, PartialEq, Eq, Structural)]
pub struct AssetEvent {
    pub kind: AssetEventKind,
    pub id: u64,
}

/// The session's loading phase. It moves from `Unloaded` to `Loaded` exactly
/// once, when the folder listing resolves, and never back.
#[derive(Clone, Copy, Debug, PartialEq, Eq, Structural)]
pub enum LoadingPhase {
    Unloaded,
    Loaded,
}

/// The effect of one notification on the registry: an added id that the
/// listing contains and the registry does not yet hold is appended; every
/// other notification leaves the registry unchanged.
pub open spec fn registry_step(listing: Seq<u64>, reg: Seq<u64>, ev: AssetEvent) -> Seq<u64> {
    if ev.kind is Added && listing.contains(ev.id) && !reg.contains(ev.id) {
        reg.push(ev.id)
    } else {
        reg
    }
}

/// The registry after a whole stream of notifications, processed in order.
pub open spec fn registry_run(listing: Seq<u64>, reg: Seq<u64>, evs: Seq<AssetEvent>) -> Seq<u64>
    decreases evs.len(),
{
    if evs.len() == 0 {
        reg
    } else {
        registry_run(listing, registry_step(listing, reg, evs.first()), evs.drop_first())
    }
}

/// Buffers load notifications until the folder listing resolves, then keeps
/// the append-only registry of confirmed, loaded model ids.
pub struct Reconciler {
    /// Current loading phase.
    pub phase: LoadingPhase,
    /// The folder listing; meaningful once `phase` is `Loaded`.
    pub listing: Vec<u64>,
    /// Notifications observed before resolution, in arrival order.
    pub pending: Vec<AssetEvent>,
    /// Ids confirmed present in the listing and loaded, in registration order.
    pub registry: Vec<u64>,
}

impl Reconciler {
    /// Well-formedness: the registry never repeats an id, holds only ids of
    /// the listing, and is empty until the listing resolves; the pending
    /// buffer is empty from resolution on.
    pub open spec fn wf(&self) -> bool {
        &&& self.registry@.no_duplicates()
        &&& forall|i: int|
            0 <= i < self.registry@.len() ==> self.listing@.contains(#[trigger] self.registry@[i])
        &&& (self.phase is Unloaded ==> self.registry@.len() == 0 && self.listing@.len() == 0)
        &&& (self.phase is Loaded ==> self.pending@.len() == 0)
    }

    /// A fresh reconciler: unresolved, with nothing buffered or registered.
    pub fn new() -> (r: Reconciler)
        ensures
            r.wf(),
            r.phase is Unloaded,
            r.pending@.len() == 0,
            r.registry@.len() == 0,
    {
        Reconciler {
            phase: LoadingPhase::Unloaded,
            listing: Vec::new(),
            pending: Vec::new(),
            registry: Vec::new(),
        }
    }

    /// Accept one load notification. Before resolution it is buffered
    /// losslessly in arrival order; after resolution it is processed live.
    /// The returned ids — at most one — are exactly the ids appended to the
    /// registry by this call, to be materialized as list rows.
    pub fn observe(&mut self, ev: AssetEvent) -> (out: Vec<u64>)
        requires
            old(self).wf(),
        ensures
            final(self).wf(),
            final(self).phase == old(self).phase,
            final(self).listing@ == old(self).listing@,
            old(self).phase is Unloaded ==> {
                &&& final(self).pending@ == old(self).pending@.push(ev)
                &&& final(self).registry@ == old(self).registry@
                &&& out@.len() == 0
            },
            old(self).phase is Loaded ==> {
                &&& final(self).pending@ == old(self).pending@
                &&& final(self).registry@ == registry_step(
                    old(self).listing@,
                    old(self).registry@,
                    ev,
                )
                &&& out@ == final(self).registry@.skip(old(self).registry@.len() as int)
            },
    {
        match self.phase {
            LoadingPhase::Unloaded => {
                self.pending.push(ev);
                Vec::new()
            },
            LoadingPhase::Loaded => {
                let ghost pre = self.registry@;
                let grew = step_exec(&self.listing, &mut self.registry, ev);
                let mut out: Vec<u64> = Vec::new();
                if grew {
                    out.push(ev.id);
                }
                proof {
                    assert(out@ =~= self.registry@.skip(pre.len() as int));
                    assert forall|k: int| 0 <= k < self.registry@.len() implies self
                        .listing@
                        .contains(#[trigger] self.registry@[k]) by {
                        if k < pre.len() {
                            assert(self.registry@[k] == pre[k]);
                        }
                    }
                }
                out
            },
        }
    }

    /// Resolve the folder listing: move to `Loaded`, drain the pending buffer
    /// exactly once in arrival order, and return — in registration order —
    /// the ids the drain appended, one list row each.
    pub fn resolve(&mut self, listing: Vec<u64>) -> (out: Vec<u64>)
        requires
            old(self).wf(),
            old(self).phase is Unloaded,
        ensures
            final(self).wf(),
            final(self).phase is Loaded,
            final(self).listing@ == listing@,
            final(self).pending@.len() == 0,
            final(self).registry@ == registry_run(listing@, Seq::<u64>::empty(), old(self).pending@),
            out@ == final(self).registry@,
    {
        self.phase = LoadingPhase::Loaded;
        let ghost lst = listing@;
        self.listing = listing;
        let ghost drained = self.pending@;
        let mut out: Vec<u64> = Vec::new();
        proof {
            assert(self.registry@ =~= Seq::<u64>::empty());
            assert(drained.take(0) =~= Seq::<AssetEvent>::empty());
        }
        let mut i: usize = 0;
        while i < self.pending.len()
            invariant
                i <= self.pending.len(),
                self.phase is Loaded,
                self.pending@ == drained,
                self.listing@ == lst,
                self.registry@ == registry_run(lst, Seq::<u64>::empty(), drained.take(i as int)),
                out@ == self.registry@,
                self.registry@.no_duplicates(),
                forall|k: int|
                    0 <= k < self.registry@.len() ==> lst.contains(#[trigger] self.registry@[k]),
            decreases self.pending.len() - i,
        {
            let ev = self.pending[i];
            let ghost pre = self.registry@;
            let grew = step_exec(&self.listing, &mut self.registry, ev);
            if grew {
                out.push(ev.id);
            }
            proof {
                lemma_registry_run_snoc(lst, Seq::<u64>::empty(), drained.take(i as int), ev);
                assert(drained.take(i as int).push(ev) =~= drained.take(i + 1));
                assert forall|k: int| 0 <= k < self.registry@.len() implies lst.contains(
                    #[trigger] self.registry@[k],
                ) by {
                    if k < pre.len() {
                        assert(self.registry@[k] == pre[k]);
                    }
                }
            }
            i = i + 1;
        }
        self.pending.clear();
        proof {
            assert(drained.take(drained.len() as int) =~= drained);
        }
        out
    }
}

/// Linear scan for an id.
fn contains_id(v: &Vec<u64>, id: u64) -> (r: bool)
    ensures
        r == v@.contains(id),
{
    let mut i: usize = 0;
    while i < v.len()
        invariant
            i <= v.len(),
            forall|k: int| 0 <= k < i ==> v@[k] != id,
        decreases v.len() - i,
    {
        if v[i] == id {
            return true;
        }
        i = i + 1;
    }
    false
}

/// Apply one notification to the registry, as `registry_step` describes.
/// Returns whether the registry grew.
fn step_exec(listing: &Vec<u64>, registry: &mut Vec<u64>, ev: AssetEvent) -> (grew: bool)
    requires
        old(registry)@.no_duplicates(),
    ensures
        final(registry)@ == registry_step(listing@, old(registry)@, ev),
        final(registry)@.no_duplicates(),
        grew == (final(registry)@.len() > old(registry)@.len()),
        grew ==> final(registry)@ == old(registry)@.push(ev.id) && listing@.contains(ev.id),
        !grew ==> final(registry)@ == old(registry)@,
{
    let is_added = match ev.kind {
        AssetEventKind::Added => true,
        _ => false,
    };
    if !is_added {
        return false;
    }
    if !contains_id(listing, ev.id) {
        return false;
    }
    if contains_id(registry, ev.id) {
        return false;
    }
    let ghost pre = registry@;
    registry.push(ev.id);
    proof {
        assert forall|i: int, j: int|
            0 <= i < registry@.len() && 0 <= j < registry@.len() && i != j implies registry@[i]
            != registry@[j] by {
            if i < pre.len() && j < pre.len() {
                assert(pre.no_duplicates());
            } else if j == pre.len() {
                assert(registry@[i] == pre[i]);
                assert(!pre.contains(ev.id));
            } else {
                assert(registry@[j] == pre[j]);
                assert(!pre.contains(ev.id));
            }
        }
    }
    true
}

/// Appending a notification to a stream steps the registry the stream built.
pub proof fn lemma_registry_run_snoc(
    listing: Seq<u64>,
    reg: Seq<u64>,
    evs: Seq<AssetEvent>,
    ev: AssetEvent,
)
    ensures
        registry_run(listing, reg, evs.push(ev)) == registry_step(
            listing,
            registry_run(listing, reg, evs),
            ev,
        ),
    decreases evs.len(),
{
    let s = evs.push(ev);
    assert(s.len() == evs.len() + 1);
    if evs.len() == 0 {
        assert(s.drop_first() =~= Seq::<AssetEvent>::empty());
        assert(s.first() == ev);
        assert(registry_run(listing, reg, s) == registry_run(
            listing,
            registry_step(listing, reg, ev),
            Seq::<AssetEvent>::empty(),
        ));
        assert(registry_run(listing, registry_step(listing, reg, ev), Seq::<AssetEvent>::empty())
            == registry_step(listing, reg, ev));
        assert(registry_run(listing, reg, evs) == reg);
    } else {
        assert(s.first() == evs.first());
        assert(s.drop_first() =~= evs.drop_first().push(ev));
        let reg1 = registry_step(listing, reg, evs.first());
        lemma_registry_run_snoc(listing, reg1, evs.drop_first(), ev);
        assert(registry_run(listing, reg, s) == registry_run(listing, reg1, s.drop_first()));
        assert(registry_run(listing, reg, evs) == registry_run(listing, reg1, evs.drop_first()));
    }
}

/// Splitting a stream at any point and running the halves in turn builds the
/// same registry as running the whole stream: buffering a prefix and
/// replaying it at resolution loses nothing and reorders nothing.
pub proof fn lemma_registry_run_split(
    listing: Seq<u64>,
    reg: Seq<u64>,
    evs: Seq<AssetEvent>,
    k: int,
)
    requires
        0 <= k <= evs.len(),
    ensures
        registry_run(listing, reg, evs) == registry_run(
            listing,
            registry_run(listing, reg, evs.take(k)),
            evs.skip(k),
        ),
    decreases k,
{
    if k == 0 {
        assert(evs.take(0) =~= Seq::<AssetEvent>::empty());
        assert(evs.skip(0) =~= evs);
    } else {
        let reg1 = registry_step(listing, reg, evs.first());
        lemma_registry_run_split(listing, reg1, evs.drop_first(), k - 1);
        assert(evs.take(k).first() == evs.first());
        assert(evs.take(k).drop_first() =~= evs.drop_first().take(k - 1));
        assert(evs.skip(k) =~= evs.drop_first().skip(k - 1));
        assert(registry_run(listing, reg, evs.take(k)) == registry_run(
            listing,
            reg1,
            evs.drop_first().take(k - 1),
        ));
        assert(registry_run(listing, reg, evs) == registry_run(listing, reg1, evs.drop_first()));
    }
}

/// An id already in the registry stays there through any further stream.
pub proof fn lemma_run_keeps_member(
    listing: Seq<u64>,
    reg: Seq<u64>,
    evs: Seq<AssetEvent>,
    id: u64,
)
    requires
        reg.contains(id),
    ensures
        registry_run(listing, reg, evs).contains(id),
    decreases evs.len(),
{
    if evs.len() > 0 {
        let reg1 = registry_step(listing, reg, evs.first());
        let w = choose|i: int| 0 <= i < reg.len() && reg[i] == id;
        assert(reg1[w] == id);
        lemma_run_keeps_member(listing, reg1, evs.drop_first(), id);
    }
}

/// An added event for an id of the listing, anywhere in the stream, puts the
/// id into the registry.
pub proof fn lemma_run_registers(listing: Seq<u64>, reg: Seq<u64>, evs: Seq<AssetEvent>, id: u64)
    requires
        listing.contains(id),
        exists|i: int|
            0 <= i < evs.len() && #[trigger] evs[i] == (AssetEvent {
                kind: AssetEventKind::Added,
                id,
            }),
    ensures
        registry_run(listing, reg, evs).contains(id),
    decreases evs.len(),
{
    let w = choose|i: int|
        0 <= i < evs.len() && #[trigger] evs[i] == (AssetEvent { kind: AssetEventKind::Added, id });
    let reg1 = registry_step(listing, reg, evs.first());
    if w == 0 {
        if reg.contains(id) {
            let j = choose|i: int| 0 <= i < reg.len() && reg[i] == id;
            assert(reg1[j] == id);
        } else {
            assert(reg1 == reg.push(id));
            assert(reg1[reg.len() as int] == id);
        }
        lemma_run_keeps_member(listing, reg1, evs.drop_first(), id);
    } else {
        assert(evs.drop_first()[w - 1] == evs[w]);
        lemma_run_registers(listing, reg1, evs.drop_first(), id);
    }
}

/// Running any stream preserves the registry's well-formedness: no id is
/// ever repeated, and only ids of the listing are appended.
pub proof fn lemma_run_wf(listing: Seq<u64>, reg: Seq<u64>, evs: Seq<AssetEvent>)
    requires
        reg.no_duplicates(),
        forall|i: int| 0 <= i < reg.len() ==> listing.contains(#[trigger] reg[i]),
    ensures
        registry_run(listing, reg, evs).no_duplicates(),
        forall|i: int|
            0 <= i < registry_run(listing, reg, evs).len() ==> listing.contains(
                #[trigger] registry_run(listing, reg, evs)[i],
            ),
    decreases evs.len(),
{
    if evs.len() > 0 {
        let ev = evs.first();
        let reg1 = registry_step(listing, reg, ev);
        if reg1 != reg {
            assert(reg1 == reg.push(ev.id));
            assert forall|i: int, j: int|
                0 <= i < reg1.len() && 0 <= j < reg1.len() && i != j implies reg1[i] != reg1[j] by {
                if i < reg.len() && j < reg.len() {
                } else if j == reg.len() {
                    assert(reg1[i] == reg[i]);
                    assert(!reg.contains(ev.id));
                } else {
                    assert(reg1[j] == reg[j]);
                    assert(!reg.contains(ev.id));
                }
            }
            assert forall|i: int| 0 <= i < reg1.len() implies listing.contains(
                #[trigger] reg1[i],
            ) by {
                if i < reg.len() {
                    assert(reg1[i] == reg[i]);
                }
            }
        }
        lemma_run_wf(listing, reg1, evs.drop_first());
    }
}

/// Each id of the listing for which an added event appears anywhere in the
/// notification stream ends up in the registry exactly once — it is present,
/// and the registry holds no duplicates — wherever in the stream the folder
/// listing resolves: the first `k` notifications are the ones buffered and
/// replayed at resolution, the rest are processed live.
pub proof fn lemma_added_id_registered_once(
    listing: Seq<u64>,
    evs: Seq<AssetEvent>,
    k: int,
    id: u64,
)
    requires
        0 <= k <= evs.len(),
        listing.contains(id),
        exists|i: int|
            0 <= i < evs.len() && #[trigger] evs[i] == (AssetEvent {
                kind: AssetEventKind::Added,
                id,
            }),
    ensures
        ({
            let reg = registry_run(
                listing,
                registry_run(listing, Seq::<u64>::empty(), evs.take(k)),
                evs.skip(k),
            );
            reg.contains(id) && reg.no_duplicates() && reg.to_multiset().count(id) == 1
        }),
{
    lemma_registry_run_split(listing, Seq::<u64>::empty(), evs, k);
    lemma_run_registers(listing, Seq::<u64>::empty(), evs, id);
    lemma_run_wf(listing, Seq::<u64>::empty(), evs);
    let reg = registry_run(listing, Seq::<u64>::empty(), evs);
    reg.to_multiset_ensures();
    reg.lemma_multiset_has_no_duplicates();
    assert(reg.to_multiset().count(id) > 0);
}

/// Re-observing an added id that is already registered is a no-op: the
/// registry — and with it the count of materialized rows — does not change.
pub proof fn lemma_reobserve_is_noop(listing: Seq<u64>, reg: Seq<u64>, id: u64)
    requires
        reg.contains(id),
    ensures
        registry_step(listing, reg, AssetEvent { kind: AssetEventKind::Added, id }) == reg,
{
}

} // verus!
