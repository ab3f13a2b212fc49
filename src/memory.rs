//! A store that keeps its quads in memory, for tests and for embedding.
//!
//! It has no concurrent writers, so its transactions never conflict; a body
//! that fails leaves the store as it was.

use crate::model::{Transact, Transaction, TransactionError, TransactionOpError};
use crate::storage::quad_views;
use crate::term::{GraphName, Quad, QuadView};
use vstd::prelude::*;

verus! {

/// A copy of each quad of `quads`, in order.
fn duplicate_all(quads: &Vec<Quad>) -> (r: Vec<Quad>)
    ensures
        quad_views(r@) == quad_views(quads@),
{
    let mut r: Vec<Quad> = Vec::new();
    let mut i: usize = 0;
    while i < quads.len()
        invariant
            i <= quads.len(),
            r.len() == i,
            forall|k: int| 0 <= k < i ==> (#[trigger] r[k])@ == quads[k]@,
        decreases quads.len() - i,
    {
        r.push(quads[i].duplicate());
        i = i + 1;
    }
    assert(quad_views(r@) =~= quad_views(quads@));
    r
}

/// Whether some quad of `quads` denotes `q`.
fn holds(quads: &Vec<Quad>, q: &Quad) -> (r: bool)
    ensures
        r == quad_views(quads@).to_set().contains(q@),
{
    let mut i: usize = 0;
    while i < quads.len()
        invariant
            i <= quads.len(),
            forall|k: int| 0 <= k < i ==> (#[trigger] quads[k])@ != q@,
        decreases quads.len() - i,
    {
        if quads[i].same(q) {
            assert(quad_views(quads@)[i as int] == q@);
            return true;
        }
        i = i + 1;
    }
    assert(!quad_views(quads@).contains(q@)) by {
        if quad_views(quads@).contains(q@) {
            let k = choose|k: int| 0 <= k < quad_views(quads@).len() && quad_views(quads@)[k] == q@;
            assert(quads[k]@ == q@);
        }
    }
    false
}

/// A transaction on a [`MemoryStore`]: a private copy of its quads.
pub struct MemoryTransaction {
    quads: Vec<Quad>,
}

impl Transaction for MemoryTransaction {
    closed spec fn quads(&self) -> Set<QuadView> {
        quad_views(self.quads@).to_set()
    }

    fn contains(&self, quad: &Quad) -> (r: Result<bool, TransactionOpError>) {
        Ok(holds(&self.quads, quad))
    }

    fn insert(&mut self, quad: &Quad) -> (r: Result<(), TransactionOpError>) {
        if !holds(&self.quads, quad) {
            let ghost before = self.quads@;
            self.quads.push(quad.duplicate());
            assert(quad_views(self.quads@) =~= quad_views(before).push(quad@));
            proof {
                quad_views(before).lemma_push_to_set_commute(quad@);
            }
        } else {
            assert(quad_views(self.quads@).to_set().insert(quad@) =~= quad_views(
                self.quads@,
            ).to_set());
        }
        Ok(())
    }

    fn remove(&mut self, quad: &Quad) -> (r: Result<(), TransactionOpError>) {
        let ghost before = quad_views(self.quads@);
        let mut kept: Vec<Quad> = Vec::new();
        let mut i: usize = 0;
        while i < self.quads.len()
            invariant
                i <= self.quads.len(),
                before == quad_views(self.quads@),
                forall|k: int| 0 <= k < kept.len() ==> (#[trigger] kept[k])@ != quad@,
                forall|k: int| 0 <= k < kept.len() ==> before.contains((#[trigger] kept[k])@),
                forall|k: int|
                    0 <= k < i && (#[trigger] self.quads[k])@ != quad@ ==> quad_views(
                        kept@,
                    ).contains(self.quads[k]@),
            decreases self.quads.len() - i,
        {
            if !self.quads[i].same(quad) {
                let ghost old_kept = quad_views(kept@);
                kept.push(self.quads[i].duplicate());
                assert(quad_views(kept@) =~= old_kept.push(self.quads[i as int]@));
                assert forall|k: int|
                    0 <= k < i + 1 && (#[trigger] self.quads[k])@ != quad@ implies quad_views(
                    kept@,
                ).contains(self.quads[k]@) by {
                    if k < i {
                        let m = choose|m: int| 0 <= m < old_kept.len() && old_kept[m] == self.quads[k]@;
                        assert(quad_views(kept@)[m] == self.quads[k]@);
                    } else {
                        assert(quad_views(kept@)[old_kept.len() as int] == self.quads[k]@);
                    }
                }
            }
            assert(before[i as int] == self.quads[i as int]@);
            i = i + 1;
        }
        let ghost after = quad_views(kept@);
        assert(after.to_set() =~= before.to_set().remove(quad@)) by {
            assert forall|q: QuadView| after.to_set().contains(q) implies before.to_set().remove(
                quad@,
            ).contains(q) by {
                let k = choose|k: int| 0 <= k < after.len() && after[k] == q;
                assert(kept[k]@ == q);
            }
            assert forall|q: QuadView| before.to_set().remove(quad@).contains(q) implies after.to_set().contains(
                q,
            ) by {
                let k = choose|k: int| 0 <= k < before.len() && before[k] == q;
                assert(self.quads[k]@ == q);
            }
        }
        self.quads = kept;
        Ok(())
    }
}

/// A store whose quads live in memory.
pub struct MemoryStore {
    quads: Vec<Quad>,
}

impl MemoryStore {
    pub fn new() -> (r: MemoryStore)
        ensures
            r.quads() == Set::<QuadView>::empty(),
    {
        let r = MemoryStore { quads: Vec::new() };
        assert(quad_views(r.quads@).to_set() =~= Set::<QuadView>::empty());
        r
    }

    /// Whether the store holds `quad`.
    pub fn contains(&self, quad: &Quad) -> (r: bool)
        ensures
            r == self.quads().contains(quad@),
    {
        holds(&self.quads, quad)
    }
}

impl Transact for MemoryStore {
    type Tx = MemoryTransaction;

    type Abort = ();

    closed spec fn quads(&self) -> Set<QuadView> {
        quad_views(self.quads@).to_set()
    }

    fn transact<R, F: Fn(Self::Tx) -> (Self::Tx, Result<R, TransactionOpError>)>(
        &mut self,
        f: F,
    ) -> (r: Result<R, TransactionError<Self::Abort>>) {
        let t0 = MemoryTransaction { quads: duplicate_all(&self.quads) };
        let ghost g0 = t0;
        assert(g0.quads() == self.quads());
        let (t1, result) = f(t0);
        let ghost g1 = t1;
        match result {
            Ok(v) => {
                self.quads = t1.quads;
                let r: Result<R, TransactionError<Self::Abort>> = Ok(v);
                assert(f.ensures((g0,), (g1, Ok::<R, TransactionOpError>(r->Ok_0))));
                r
            },
            Err(TransactionOpError::Conflict) => Err(
                TransactionError::OtherError("conflicting write".to_owned()),
            ),
            Err(TransactionOpError::Storage(msg)) => Err(TransactionError::OtherError(msg)),
        }
    }

    fn quads_for_graph(&self, graph_name: &GraphName) -> (r: Vec<Quad>) {
        let mut r: Vec<Quad> = Vec::new();
        let mut i: usize = 0;
        while i < self.quads.len()
            invariant
                i <= self.quads.len(),
                forall|k: int| 0 <= k < r.len() ==> (#[trigger] r[k])@.graph == graph_name@,
                forall|k: int| 0 <= k < r.len() ==> self.quads().contains((#[trigger] r[k])@),
                forall|k: int|
                    0 <= k < i && (#[trigger] self.quads[k])@.graph == graph_name@ ==> exists|m: int|
                        0 <= m < r.len() && (#[trigger] r[m])@ == self.quads[k]@,
            decreases self.quads.len() - i,
        {
            if self.quads[i].graph_name.same(graph_name) {
                assert(quad_views(self.quads@)[i as int] == self.quads[i as int]@);
                let ghost old_r = r@;
                r.push(self.quads[i].duplicate());
                assert(r[r.len() - 1]@ == self.quads[i as int]@);
                assert forall|k: int|
                    0 <= k < i && (#[trigger] self.quads[k])@.graph == graph_name@ implies exists|m: int|
                        0 <= m < r.len() && (#[trigger] r[m])@ == self.quads[k]@ by {
                    let m = choose|m: int| 0 <= m < old_r.len() && (#[trigger] old_r[m])@ == self.quads[k]@;
                    assert(r[m] == old_r[m]);
                }
            }
            i = i + 1;
        }
        assert forall|q: QuadView|
            #[trigger] self.quads().contains(q) && q.graph == graph_name@ implies exists|m: int|
                0 <= m < r.len() && (#[trigger] r[m])@ == q by {
            let k = choose|k: int| 0 <= k < quad_views(self.quads@).len() && quad_views(self.quads@)[k] == q;
            assert(self.quads[k]@ == q);
        }
        r
    }
}

} // verus!
