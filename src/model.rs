//! The storage engine as this library sees it: a store that runs a body of work
//! as one atomic transaction, and the transaction handle that the body works on.
//!
//! What a store holds is modelled as a set of quads. A store retries a body
//! that met a write conflict on its own; its caller sees either the body's
//! committed result or an error, and after an error nothing of the body is
//! visible.

use crate::term::{GraphName, Quad, QuadView};
use vstd::prelude::*;

verus! {

/// Why one operation on a transaction handle failed.
#[derive(Clone, Debug, PartialEq, Eq)]
pub enum TransactionOpError {
    /// A concurrent writer touched the same key; the store runs the body again.
    Conflict,
    /// The write could not be applied.
    Storage(String),
}

/// Why a whole transaction did not commit.
#[derive(Clone, Debug, PartialEq, Eq)]
pub enum TransactionError<E> {
    /// The engine gave the transaction up on purpose.
    Aborted(E),
    /// The storage failed.
    OtherError(String),
}

/// A transaction in flight: reads see its own earlier writes.
pub trait Transaction: Sized {
    /// The quads visible through this transaction.
    spec fn quads(&self) -> Set<QuadView>;

    fn contains(&self, quad: &Quad) -> (r: Result<bool, TransactionOpError>)
        ensures
            r is Ok ==> r->Ok_0 == self.quads().contains(quad@),
    ;

    fn insert(&mut self, quad: &Quad) -> (r: Result<(), TransactionOpError>)
        ensures
            r is Ok ==> final(self).quads() == old(self).quads().insert(quad@),
    ;

    fn remove(&mut self, quad: &Quad) -> (r: Result<(), TransactionOpError>)
        ensures
            r is Ok ==> final(self).quads() == old(self).quads().remove(quad@),
    ;
}

/// A store that runs bodies of work as atomic transactions.
pub trait Transact: Sized {
    type Tx: Transaction;

    type Abort;

    /// The quads committed to this store.
    spec fn quads(&self) -> Set<QuadView>;

    /// Runs `f` on a transaction that starts from the committed quads. On `Ok`
    /// the body returned that value and what it left in the transaction is now
    /// committed; on `Err` nothing changed.
    fn transact<R, F: Fn(Self::Tx) -> (Self::Tx, Result<R, TransactionOpError>)>(
        &mut self,
        f: F,
    ) -> (r: Result<R, TransactionError<Self::Abort>>)
        requires
            forall|t: Self::Tx| f.requires((t,)),
        ensures
            r is Ok ==> exists|t0: Self::Tx, t1: Self::Tx|
                #[trigger] f.ensures((t0,), (t1, Ok::<R, TransactionOpError>(r->Ok_0)))
                    && t0.quads() == old(self).quads() && final(self).quads() == t1.quads(),
            r is Err ==> final(self).quads() == old(self).quads(),
    ;

    /// Every committed quad of graph `graph_name`, each once.
    fn quads_for_graph(&self, graph_name: &GraphName) -> (r: Vec<Quad>)
        ensures
            forall|i: int| 0 <= i < r.len() ==> (#[trigger] r[i])@.graph == graph_name@,
            forall|i: int| 0 <= i < r.len() ==> self.quads().contains((#[trigger] r[i])@),
            forall|q: QuadView|
                #[trigger] self.quads().contains(q) && q.graph == graph_name@ ==> exists|i: int|
                    0 <= i < r.len() && (#[trigger] r[i])@ == q,
    ;
}

/// A store handle, held for the operations that run on it.
pub struct TransactStore<S> {
    pub store: S,
}

impl<S> TransactStore<S> {
    pub fn new(store: S) -> (r: TransactStore<S>)
        ensures
            r.store == store,
    {
        TransactStore { store }
    }
}

} // verus!
