//! One browsing session: the reconciler and the list presenter, coupled.
//!
//! Every id the reconciler registers is materialized as exactly one sidebar
//! row, in registration order — the invariant [`Session::wf`] carries the
//! at-most-once-materialization guarantee across any interleaving of load
//! notifications and folder resolution. Labels come from the folder entries:
//! a row shows the file stem of its model's path.

use vstd::prelude::*;
use crate::reconcile::{AssetEvent, LoadingPhase, Reconciler, registry_run};
use crate::presenter::{ListPresenter, ListRow, file_stem, stem_of};

verus! {

/// One entry of the resolved folder listing: a model id and, when known,
/// the path the model was loaded from.
pub struct ModelEntry {
    pub id: u64,
    pub path: Option<Vec<u8>>,
}

/// Folder-level load status, as the loader reports it each tick.
#[derive(Clone, Copy, Debug, PartialEq, Eq, Structural)]
pub enum FolderLoadState {
    Loading,
    Loaded,
    Failed,
}

/// What a folder status report calls for.
#[derive(Clone, Copy, Debug, PartialEq, Eq, Structural)]
pub enum FolderStatusAction {
    /// Nothing to do this tick; keep buffering.
    KeepWaiting,
    /// The folder finished loading: resolve the listing now.
    ResolveNow,
    /// The folder-level load failed; the session cannot proceed.
    AbortSession,
}

/// The ids of a listing's entries, in listing order.
pub open spec fn entry_ids(entries: Seq<ModelEntry>) -> Seq<u64> {
    entries.map_values(|e: ModelEntry| e.id)
}

/// A row's label fits some folder entry of its model: the stem of that
/// entry's path, or nothing when the entry's path is unknown.
pub open spec fn label_matches(entries: Seq<ModelEntry>, row: ListRow) -> bool {
    exists|i: int|
        0 <= i < entries.len() && (#[trigger] entries[i]).id == row.model_id && (match (
            entries[i].path,
            row.label,
        ) {
            (Some(p), Some(l)) => l@ == stem_of(p@),
            (None, None) => true,
            _ => false,
        })
}

/// Decide what a folder status report means for the loading state machine:
/// a failure is fatal; completion, seen while still unloaded, resolves the
/// listing; anything else keeps the session buffering. Once loaded, further
/// reports change nothing.
pub fn folder_status_action(phase: LoadingPhase, status: FolderLoadState) -> (a:
    FolderStatusAction)
    ensures
        a == (match status {
            FolderLoadState::Failed => FolderStatusAction::AbortSession,
            FolderLoadState::Loaded => if phase is Unloaded {
                FolderStatusAction::ResolveNow
            } else {
                FolderStatusAction::KeepWaiting
            },
            FolderLoadState::Loading => FolderStatusAction::KeepWaiting,
        }),
{
    match status {
        FolderLoadState::Failed => FolderStatusAction::AbortSession,
        FolderLoadState::Loaded => match phase {
            LoadingPhase::Unloaded => FolderStatusAction::ResolveNow,
            LoadingPhase::Loaded => FolderStatusAction::KeepWaiting,
        },
        FolderLoadState::Loading => FolderStatusAction::KeepWaiting,
    }
}

/// The session state: reconciliation, presentation, and the folder entries
/// labels are drawn from.
pub struct Session {
    pub reconciler: Reconciler,
    pub presenter: ListPresenter,
    /// The resolved folder entries; empty until resolution.
    pub entries: Vec<ModelEntry>,
}

impl Session {
    /// Well-formedness: the parts are well-formed, the reconciler's listing
    /// is exactly the ids of the folder entries, and the rows mirror the
    /// registry one to one, in order, with fitting labels — each registered
    /// id is materialized exactly once.
    pub open spec fn wf(&self) -> bool {
        &&& self.reconciler.wf()
        &&& self.presenter.wf()
        &&& self.reconciler.listing@ == entry_ids(self.entries@)
        &&& self.reconciler.phase is Unloaded ==> self.entries@.len() == 0
        &&& self.presenter.rows@.len() == self.reconciler.registry@.len()
        &&& forall|i: int|
            0 <= i < self.presenter.rows@.len()
                ==> (#[trigger] self.presenter.rows@[i]).model_id
                == self.reconciler.registry@[i]
        &&& forall|i: int|
            0 <= i < self.presenter.rows@.len() ==> label_matches(
                self.entries@,
                #[trigger] self.presenter.rows@[i],
            )
    }

    /// A fresh session: unresolved, nothing buffered, no rows.
    pub fn new() -> (s: Session)
        ensures
            s.wf(),
            s.reconciler.phase is Unloaded,
            s.reconciler.pending@.len() == 0,
            s.presenter.rows@.len() == 0,
    {
        let s = Session {
            reconciler: Reconciler::new(),
            presenter: ListPresenter::new(),
            entries: Vec::new(),
        };
        proof {
            assert(s.reconciler.listing@ =~= entry_ids(s.entries@));
        }
        s
    }

    /// Accept one load notification: buffered while the listing is pending,
    /// processed live after, and — when it registers a new id — materialized
    /// as exactly one new row.
    pub fn observe_event(&mut self, ev: AssetEvent)
        requires
            old(self).wf(),
        ensures
            final(self).wf(),
            final(self).reconciler.phase == old(self).reconciler.phase,
            final(self).entries@ == old(self).entries@,
            old(self).reconciler.phase is Unloaded ==> {
                &&& final(self).reconciler.pending@ == old(self).reconciler.pending@.push(ev)
                &&& final(self).reconciler.registry@ == old(self).reconciler.registry@
                &&& final(self).presenter.rows@ == old(self).presenter.rows@
            },
            old(self).reconciler.phase is Loaded ==> {
                &&& final(self).reconciler.registry@ == crate::reconcile::registry_step(
                    old(self).reconciler.listing@,
                    old(self).reconciler.registry@,
                    ev,
                )
                &&& final(self).presenter.rows@.len() == final(self).reconciler.registry@.len()
            },
    {
        let out = self.reconciler.observe(ev);
        self.materialize_all(&out);
        proof {
            let reg = self.reconciler.registry@;
            let oldreg = old(self).reconciler.registry@;
            let oldrows = old(self).presenter.rows@;
            assert forall|i: int|
                0 <= i < self.presenter.rows@.len() implies (#[trigger] self.presenter.rows@[
                i]).model_id == reg[i] by {
                if i < oldrows.len() {
                    assert(self.presenter.rows@[i] == oldrows[i]);
                } else {
                    assert(self.presenter.rows@[oldrows.len() as int + (i - oldrows.len())]
                        .model_id == out@[i - oldrows.len()]);
                    if old(self).reconciler.phase is Loaded {
                        assert(out@[i - oldrows.len()] == reg.skip(oldreg.len() as int)[i
                            - oldrows.len()]);
                    }
                }
            }
        }
    }

    /// Resolve the folder listing: drain the buffered notifications exactly
    /// once, in arrival order, and materialize one row per id the drain
    /// registered, in registration order.
    pub fn resolve_folder(&mut self, entries: Vec<ModelEntry>)
        requires
            old(self).wf(),
            old(self).reconciler.phase is Unloaded,
        ensures
            final(self).wf(),
            final(self).reconciler.phase is Loaded,
            final(self).entries@ == entries@,
            final(self).reconciler.listing@ == entry_ids(entries@),
            final(self).reconciler.registry@ == registry_run(
                entry_ids(entries@),
                Seq::<u64>::empty(),
                old(self).reconciler.pending@,
            ),
            final(self).presenter.rows@.len() == final(self).reconciler.registry@.len(),
    {
        let ids = collect_ids(&entries);
        self.entries = entries;
        let out = self.reconciler.resolve(ids);
        self.materialize_all(&out);
        proof {
            let reg = self.reconciler.registry@;
            let oldrows = old(self).presenter.rows@;
            assert(oldrows.len() == 0);
            assert forall|i: int|
                0 <= i < self.presenter.rows@.len() implies (#[trigger] self.presenter.rows@[
                i]).model_id == reg[i] by {
                assert(self.presenter.rows@[oldrows.len() as int + (i - oldrows.len())].model_id
                    == out@[i - oldrows.len()]);
            }
        }
    }

    /// Materialize one row per id, in order, labelled from the folder
    /// entries.
    #[verifier::loop_isolation(false)]
    fn materialize_all(&mut self, out: &Vec<u64>)
        requires
            old(self).reconciler.wf(),
            old(self).presenter.wf(),
            old(self).reconciler.listing@ == entry_ids(old(self).entries@),
            forall|i: int|
                0 <= i < out@.len() ==> old(self).reconciler.listing@.contains(#[trigger] out@[i]),
            forall|i: int|
                0 <= i < old(self).presenter.rows@.len() ==> label_matches(
                    old(self).entries@,
                    #[trigger] old(self).presenter.rows@[i],
                ),
        ensures
            final(self).reconciler == old(self).reconciler,
            final(self).entries@ == old(self).entries@,
            final(self).presenter.wf(),
            final(self).presenter.expanded == old(self).presenter.expanded,
            final(self).presenter.scroll == old(self).presenter.scroll,
            final(self).presenter.rows@.len() == old(self).presenter.rows@.len() + out@.len(),
            forall|i: int|
                0 <= i < old(self).presenter.rows@.len()
                    ==> #[trigger] final(self).presenter.rows@[i] == old(self).presenter.rows@[i],
            forall|i: int|
                0 <= i < out@.len()
                    ==> (#[trigger] final(self).presenter.rows@[
                    old(self).presenter.rows@.len() + i]).model_id == out@[i],
            forall|i: int|
                old(self).presenter.rows@.len() <= i < final(self).presenter.rows@.len()
                    ==> label_matches(old(self).entries@, #[trigger] final(self).presenter.rows@[i]),
    {
        let mut k: usize = 0;
        while k < out.len()
            invariant
                k <= out@.len(),
                self.reconciler == old(self).reconciler,
                self.entries@ == old(self).entries@,
                self.presenter.wf(),
                self.presenter.expanded == old(self).presenter.expanded,
                self.presenter.scroll == old(self).presenter.scroll,
                self.presenter.rows@.len() == old(self).presenter.rows@.len() + k,
                forall|i: int|
                    0 <= i < old(self).presenter.rows@.len()
                        ==> #[trigger] self.presenter.rows@[i] == old(self).presenter.rows@[i],
                forall|i: int|
                    0 <= i < k
                        ==> (#[trigger] self.presenter.rows@[
                        old(self).presenter.rows@.len() + i]).model_id == out@[i],
                forall|i: int|
                    old(self).presenter.rows@.len() <= i < self.presenter.rows@.len()
                        ==> label_matches(self.entries@, #[trigger] self.presenter.rows@[i]),
            decreases out@.len() - k,
        {
            let id = out[k];
            let label = lookup_label(&self.entries, id);
            self.presenter.materialize(id, label);
            k = k + 1;
        }
    }
}

/// The ids of the folder entries, in order.
fn collect_ids(entries: &Vec<ModelEntry>) -> (ids: Vec<u64>)
    ensures
        ids@ == entry_ids(entries@),
{
    let mut ids: Vec<u64> = Vec::new();
    let mut i: usize = 0;
    proof {
        assert(ids@ =~= entry_ids(entries@).take(0));
    }
    while i < entries.len()
        invariant
            i <= entries@.len(),
            ids@ == entry_ids(entries@).take(i as int),
        decreases entries@.len() - i,
    {
        ids.push(entries[i].id);
        proof {
            assert(ids@ =~= entry_ids(entries@).take(i + 1));
        }
        i = i + 1;
    }
    proof {
        assert(entry_ids(entries@).take(entries@.len() as int) =~= entry_ids(entries@));
    }
    ids
}

/// The label for a model id: the file stem of the first folder entry with
/// that id, or nothing when that entry has no path.
fn lookup_label(entries: &Vec<ModelEntry>, id: u64) -> (label: Option<Vec<u8>>)
    requires
        entry_ids(entries@).contains(id),
    ensures
        label_matches(entries@, (ListRow { model_id: id, label })),
{
    let mut i: usize = 0;
    proof {
        let w = choose|j: int| 0 <= j < entry_ids(entries@).len() && entry_ids(entries@)[j] == id;
        assert(entries@[w].id == id);
    }
    while i < entries.len()
        invariant
            i <= entries@.len(),
            exists|j: int| 0 <= j < entries@.len() && (#[trigger] entries@[j]).id == id,
            forall|j: int| 0 <= j < i ==> (#[trigger] entries@[j]).id != id,
        decreases entries@.len() - i,
    {
        if entries[i].id == id {
            let label = match &entries[i].path {
                Some(p) => Some(file_stem(p)),
                None => None,
            };
            return label;
        }
        i = i + 1;
    }
    proof {
        let j = choose|j: int| 0 <= j < entries@.len() && (#[trigger] entries@[j]).id == id;
        assert(false);
    }
    None
}

/// Each registered id owns exactly one sidebar row: the sequence of row
/// model ids is exactly the registry, which never repeats an id.
pub proof fn lemma_one_row_per_id(s: &Session)
    requires
        s.wf(),
    ensures
        s.presenter.rows@.map_values(|r: ListRow| r.model_id) == s.reconciler.registry@,
        s.presenter.rows@.map_values(|r: ListRow| r.model_id).no_duplicates(),
{
    assert(s.presenter.rows@.map_values(|r: ListRow| r.model_id) =~= s.reconciler.registry@);
}

} // verus!
