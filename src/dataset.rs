//! Insertion and removal of quads, each operation one atomic transaction.

use crate::model::{Transact, Transaction, TransactionError, TransactionOpError};
use crate::project::{make_quad_from_spog, opt_term, quad_view, Term};
use crate::term::{Quad, QuadView};
use vstd::prelude::*;

verus! {

/// Why a mutation failed: the storage could not apply a write.
#[derive(Clone, Debug, PartialEq, Eq)]
pub enum MutableDatasetError {
    Io(String),
}

/// The relation between the stored quads before (`before`) and after (`after`)
/// an insertion of the quad `q` that four terms denote, and its result `r`.
pub open spec fn insert_post(
    q: Option<QuadView>,
    before: Set<QuadView>,
    after: Set<QuadView>,
    r: Result<bool, MutableDatasetError>,
) -> bool {
    match q {
        None => r == Ok::<bool, MutableDatasetError>(false) && after == before,
        Some(q) => {
            &&& r == Ok::<bool, MutableDatasetError>(true) ==> !before.contains(q) && after
                == before.insert(q)
            &&& r != Ok::<bool, MutableDatasetError>(true) ==> after == before
        },
    }
}

/// The relation between the stored quads before and after a removal of the
/// quad `q` that four terms denote, and its result `r`.
pub open spec fn remove_post(
    q: Option<QuadView>,
    before: Set<QuadView>,
    after: Set<QuadView>,
    r: Result<bool, MutableDatasetError>,
) -> bool {
    match q {
        None => r == Ok::<bool, MutableDatasetError>(false) && after == before,
        Some(q) => {
            &&& r == Ok::<bool, MutableDatasetError>(true) ==> after == before.remove(q)
            &&& r != Ok::<bool, MutableDatasetError>(true) ==> after == before
        },
    }
}

/// The body of an insertion: writes `quad` unless the transaction already
/// holds it, and says whether it wrote.
pub fn insert_in_transaction<T: Transaction>(t: T, quad: &Quad) -> (r: (
    T,
    Result<bool, TransactionOpError>,
))
    ensures
        r.1 == Ok::<bool, TransactionOpError>(true) ==> !t.quads().contains(quad@) && r.0.quads()
            == t.quads().insert(quad@),
        r.1 == Ok::<bool, TransactionOpError>(false) ==> t.quads().contains(quad@) && r.0.quads()
            == t.quads(),
{
    let mut t = t;
    match t.contains(quad) {
        Ok(true) => (t, Ok(false)),
        Ok(false) => match t.insert(quad) {
            Ok(()) => (t, Ok(true)),
            Err(e) => (t, Err(e)),
        },
        Err(e) => (t, Err(e)),
    }
}

/// The body of a removal: removes `quad`, present or not.
pub fn remove_in_transaction<T: Transaction>(t: T, quad: &Quad) -> (r: (
    T,
    Result<bool, TransactionOpError>,
))
    ensures
        r.1 is Ok ==> r.1 == Ok::<bool, TransactionOpError>(true) && r.0.quads()
            == t.quads().remove(quad@),
{
    let mut t = t;
    match t.remove(quad) {
        Ok(()) => (t, Ok(true)),
        Err(e) => (t, Err(e)),
    }
}

/// What a mutation reports for the outcome of its transaction: the body's
/// result when it committed, `false` when the engine aborted it, and the
/// storage error otherwise.
pub fn mutation_outcome<R, E>(r: Result<R, TransactionError<E>>, aborted: R) -> (o: Result<
    R,
    MutableDatasetError,
>)
    ensures
        r is Ok ==> o == Ok::<R, MutableDatasetError>(r->Ok_0),
        r is Err && r->Err_0 is Aborted ==> o == Ok::<R, MutableDatasetError>(aborted),
        r is Err && r->Err_0 is OtherError ==> o == Err::<R, MutableDatasetError>(
            MutableDatasetError::Io(r->Err_0->OtherError_0),
        ),
{
    match r {
        Ok(v) => Ok(v),
        Err(TransactionError::Aborted(_)) => Ok(aborted),
        Err(TransactionError::OtherError(msg)) => Err(MutableDatasetError::Io(msg)),
    }
}

/// Four terms offered as one quad: subject, predicate, object and an optional
/// graph.
#[derive(Clone, Debug, PartialEq, Eq)]
pub struct QuadTuple(pub Term, pub Term, pub Term, pub Option<Term>);

/// The quad that a tuple denotes, if every position admits its term.
pub open spec fn tuple_quad(t: QuadTuple) -> Option<QuadView> {
    quad_view(t.0, t.1, t.2, t.3)
}

/// The set of quads that the tuples denote; tuples that do not project add
/// nothing.
pub open spec fn projected(src: Seq<QuadTuple>) -> Set<QuadView>
    decreases src.len(),
{
    if src.len() == 0 {
        Set::empty()
    } else {
        let rest = projected(src.drop_last());
        match tuple_quad(src.last()) {
            Some(q) => rest.insert(q),
            None => rest,
        }
    }
}

pub proof fn lemma_projected_finite(src: Seq<QuadTuple>)
    ensures
        projected(src).finite(),
    decreases src.len(),
{
    if src.len() > 0 {
        lemma_projected_finite(src.drop_last());
    }
}

/// The relation between the stored quads before and after a bulk insertion of
/// `src`, and its result `r`: on success every quad that `src` denotes is
/// stored and `r` counts those that were new, unless the engine aborted the
/// transaction, which leaves the store as it was and counts nothing.
pub open spec fn insert_all_post(
    src: Seq<QuadTuple>,
    before: Set<QuadView>,
    after: Set<QuadView>,
    r: Result<usize, MutableDatasetError>,
) -> bool {
    &&& r is Ok ==> (after == before.union(projected(src)) && r->Ok_0 == projected(src).difference(
        before,
    ).len()) || (after == before && r->Ok_0 == 0)
    &&& r is Err ==> after == before
}

/// The body of a bulk insertion: projects each tuple, writes each quad that
/// the transaction does not hold yet, and counts the writes.
pub fn insert_all_in_transaction<T: Transaction>(t: T, src: &Vec<QuadTuple>) -> (r: (
    T,
    Result<usize, TransactionOpError>,
))
    ensures
        r.1 is Ok ==> r.0.quads() == t.quads().union(projected(src@)) && r.1->Ok_0
            == projected(src@).difference(t.quads()).len(),
{
    let ghost start = t.quads();
    let mut t = t;
    let mut inserted: usize = 0;
    let mut i: usize = 0;
    assert(projected(src@.subrange(0, 0)) =~= Set::empty()) by {
        assert(src@.subrange(0, 0).len() == 0);
    }
    assert(start.union(Set::empty()) =~= start);
    assert(Set::<QuadView>::empty().difference(start) =~= Set::empty());
    while i < src.len()
        invariant
            i <= src.len(),
            inserted <= i,
            t.quads() == start.union(projected(src@.subrange(0, i as int))),
            inserted == projected(src@.subrange(0, i as int)).difference(start).len(),
        decreases src.len() - i,
    {
        let ghost prefix = src@.subrange(0, i as int);
        let ghost next = src@.subrange(0, i + 1);
        assert(next.drop_last() == prefix);
        assert(next.last() == src@[i as int]);
        proof {
            lemma_projected_finite(prefix);
        }
        let tuple = &src[i];
        let g = tuple.3.as_ref();
        assert(opt_term(g) == tuple.3);
        match make_quad_from_spog(&tuple.0, &tuple.1, &tuple.2, g) {
            Some(quad) => {
                match t.contains(&quad) {
                    Ok(true) => {
                        assert(projected(next).difference(start) =~= projected(prefix).difference(
                            start,
                        ));
                        assert(t.quads() =~= start.union(projected(next)));
                    },
                    Ok(false) => {
                        match t.insert(&quad) {
                            Ok(()) => {},
                            Err(e) => {
                                return (t, Err(e));
                            },
                        }
                        assert(projected(next).difference(start) =~= projected(prefix).difference(
                            start,
                        ).insert(quad@));
                        assert(t.quads() =~= start.union(projected(next)));
                        inserted = inserted + 1;
                    },
                    Err(e) => {
                        return (t, Err(e));
                    },
                }
            },
            None => {},
        }
        i = i + 1;
    }
    assert(src@.subrange(0, src.len() as int) == src@);
    (t, Ok(inserted))
}

/// A mutable dataset over a transactional store.
pub struct Store<S> {
    pub store: S,
}

impl<S: Transact> Store<S> {
    pub fn new(store: S) -> (r: Store<S>)
        ensures
            r.store == store,
    {
        Store { store }
    }

    /// Inserts the quad that the four terms denote. `Ok(true)` means it was
    /// absent and is now stored; terms that do not project leave the store as it
    /// was and give `Ok(false)`, as does a quad already stored.
    pub fn insert(&mut self, s: &Term, p: &Term, o: &Term, g: Option<&Term>) -> (r: Result<
        bool,
        MutableDatasetError,
    >)
        ensures
            insert_post(
                quad_view(*s, *p, *o, opt_term(g)),
                old(self).store.quads(),
                final(self).store.quads(),
                r,
            ),
    {
        match make_quad_from_spog(s, p, o, g) {
            None => Ok(false),
            Some(quad) => {
                let ghost before = self.store.quads();
                let body = (|t: S::Tx| -> (res: (S::Tx, Result<bool, TransactionOpError>))
                    ensures
                        res.1 == Ok::<bool, TransactionOpError>(true) ==> !t.quads().contains(
                            quad@,
                        ) && res.0.quads() == t.quads().insert(quad@),
                        res.1 == Ok::<bool, TransactionOpError>(false) ==> res.0.quads()
                            == t.quads(),
                    { insert_in_transaction(t, &quad) });
                let result = self.store.transact(body);
                mutation_outcome(result, false)
            },
        }
    }
}

impl<S: Transact> Store<S> {
    /// Removes the quad that the four terms denote. `Ok(true)` means the removal
    /// committed, whether or not the quad was there; terms that do not project
    /// give `Ok(false)` and change nothing.
    pub fn remove(&mut self, s: &Term, p: &Term, o: &Term, g: Option<&Term>) -> (r: Result<
        bool,
        MutableDatasetError,
    >)
        ensures
            remove_post(
                quad_view(*s, *p, *o, opt_term(g)),
                old(self).store.quads(),
                final(self).store.quads(),
                r,
            ),
    {
        match make_quad_from_spog(s, p, o, g) {
            None => Ok(false),
            Some(quad) => {
                let body = (|t: S::Tx| -> (res: (S::Tx, Result<bool, TransactionOpError>))
                    ensures
                        res.1 is Ok ==> res.1 == Ok::<bool, TransactionOpError>(true)
                            && res.0.quads() == t.quads().remove(quad@),
                    { remove_in_transaction(t, &quad) });
                let result = self.store.transact(body);
                mutation_outcome(result, false)
            },
        }
    }

    /// Inserts every quad that `src` denotes in one transaction, skipping the
    /// tuples that do not project, and counts the quads that were new.
    pub fn insert_all(&mut self, src: &Vec<QuadTuple>) -> (r: Result<usize, MutableDatasetError>)
        ensures
            insert_all_post(src@, old(self).store.quads(), final(self).store.quads(), r),
    {
        let body = (|t: S::Tx| -> (res: (S::Tx, Result<usize, TransactionOpError>))
            ensures
                res.1 is Ok ==> res.0.quads() == t.quads().union(projected(src@)) && res.1->Ok_0
                    == projected(src@).difference(t.quads()).len(),
            { insert_all_in_transaction(t, src) });
        let result = self.store.transact(body);
        mutation_outcome(result, 0)
    }
}

} // verus!
