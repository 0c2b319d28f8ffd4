use vstd::prelude::*;
use crate::movie::MovieModel;
use crate::service::{fetch_result, fetch_step, upsert_step, ServiceModel};

verus! {

/// One call on the service, as a mathematical value.
pub enum Operation {
    Fetch(Seq<char>),
    CreateOrReplace(MovieModel),
}

/// What one call returned: the record fetched (or none), or whether the
/// write was accepted.
pub enum Outcome {
    Fetched(Option<MovieModel>),
    Written(bool),
}

pub open spec fn apply(s: ServiceModel, op: Operation) -> ServiceModel {
    match op {
        Operation::Fetch(id) => fetch_step(s, id),
        Operation::CreateOrReplace(m) => upsert_step(s, m),
    }
}

pub open spec fn outcome(s: ServiceModel, op: Operation) -> Outcome {
    match op {
        Operation::Fetch(id) => Outcome::Fetched(fetch_result(s, id)),
        Operation::CreateOrReplace(m) => Outcome::Written(m.is_valid()),
    }
}

/// The outcomes of running `ops` in order from state `s`.
pub open spec fn outcomes(s: ServiceModel, ops: Seq<Operation>) -> Seq<Outcome>
    decreases ops.len(),
{
    if ops.len() == 0 {
        Seq::empty()
    } else {
        seq![outcome(s, ops[0])] + outcomes(apply(s, ops[0]), ops.drop_first())
    }
}

/// The record stored under `id`, if any.
pub open spec fn stored(s: ServiceModel, id: Seq<char>) -> Option<MovieModel> {
    if s.store.contains_key(id) {
        Some(s.store[id])
    } else {
        None
    }
}

/// The state after writing each record of `ms` in order.
pub open spec fn upsert_all(s: ServiceModel, ms: Seq<MovieModel>) -> ServiceModel
    decreases ms.len(),
{
    if ms.len() == 0 {
        s
    } else {
        upsert_step(upsert_all(s, ms.drop_last()), ms.last())
    }
}

/// A fetch for each identifier of `ids`, in order.
pub open spec fn fetch_ops(ids: Seq<Seq<char>>) -> Seq<Operation> {
    ids.map_values(|k: Seq<char>| Operation::Fetch(k))
}

/// In a coherent state a fetch returns what the store holds, and every
/// operation keeps the state coherent.
pub proof fn lemma_step_coherent(s: ServiceModel, op: Operation)
    requires
        s.is_coherent(),
    ensures
        apply(s, op).is_coherent(),
        op is Fetch ==> fetch_result(s, op->Fetch_0) == stored(s, op->Fetch_0),
        op is Fetch ==> apply(s, op).store == s.store,
        op is CreateOrReplace ==> apply(s, op).store == upsert_step(s, op->CreateOrReplace_0).store,
{
    let t = apply(s, op);
    assert forall|k: Seq<char>| #[trigger] t.cache.contains_key(k) implies t.store.contains_key(k)
        && t.store[k] == t.cache[k] by {
        assert(s.cache.contains_key(k) ==> s.store.contains_key(k) && s.store[k] == s.cache[k]);
    }
}

/// The first outcome belongs to the first operation; the others are those
/// of the remaining operations from the state it leaves.
pub proof fn lemma_outcomes_shape(s: ServiceModel, ops: Seq<Operation>)
    ensures
        outcomes(s, ops).len() == ops.len(),
        ops.len() > 0 ==> outcomes(s, ops)[0] == outcome(s, ops[0]),
        forall|i: int|
            0 < i < ops.len() ==> #[trigger] outcomes(s, ops)[i] == outcomes(
                apply(s, ops[0]),
                ops.drop_first(),
            )[i - 1],
    decreases ops.len(),
{
    if ops.len() > 0 {
        lemma_outcomes_shape(apply(s, ops[0]), ops.drop_first());
    }
}

/// Read-through correctness: right after a valid record is written, a fetch
/// of its identifier returns exactly that record, whatever the cache held.
pub proof fn read_after_write(s: ServiceModel, m: MovieModel)
    requires
        s.is_coherent(),
        m.is_valid(),
    ensures
        fetch_result(upsert_step(s, m), m.id) == Some(m),
{
}

/// Upsert overwrite: of two valid writes under one identifier the second
/// wins whole, as if the first had never happened.
pub proof fn second_write_wins(s: ServiceModel, a: MovieModel, b: MovieModel)
    requires
        s.is_coherent(),
        a.is_valid(),
        b.is_valid(),
        a.id == b.id,
    ensures
        fetch_result(upsert_step(upsert_step(s, a), b), a.id) == Some(b),
        upsert_step(upsert_step(s, a), b) == upsert_step(s, b),
{
    assert(upsert_step(upsert_step(s, a), b).store =~= upsert_step(s, b).store);
    assert(upsert_step(upsert_step(s, a), b).cache =~= upsert_step(s, b).cache);
}

/// Two coherent states over the same store give the same outcomes for any
/// sequence of operations.
pub proof fn lemma_outcomes_ignore_cache(s1: ServiceModel, s2: ServiceModel, ops: Seq<Operation>)
    requires
        s1.is_coherent(),
        s2.is_coherent(),
        s1.store == s2.store,
    ensures
        outcomes(s1, ops) == outcomes(s2, ops),
    decreases ops.len(),
{
    if ops.len() > 0 {
        lemma_step_coherent(s1, ops[0]);
        lemma_step_coherent(s2, ops[0]);
        lemma_outcomes_ignore_cache(apply(s1, ops[0]), apply(s2, ops[0]), ops.drop_first());
    }
}

/// Cache transparency: emptying the cache of a coherent state changes the
/// outcome of no later sequence of operations.
pub proof fn cache_transparency(s: ServiceModel, ops: Seq<Operation>)
    requires
        s.is_coherent(),
    ensures
        outcomes(s, ops) == outcomes(
            ServiceModel { store: s.store, cache: Map::empty() },
            ops,
        ),
{
    let cleared = ServiceModel { store: s.store, cache: Map::empty() };
    assert(cleared.cache.submap_of(cleared.store));
    lemma_outcomes_ignore_cache(s, cleared, ops);
}

/// Miss behaviour: an identifier absent from the store and never written by
/// `ops` is reported missing by every fetch among `ops`.
pub proof fn never_written_is_missing(s: ServiceModel, ops: Seq<Operation>, k: Seq<char>)
    requires
        s.is_coherent(),
        !s.store.contains_key(k),
        forall|i: int|
            0 <= i < ops.len() && #[trigger] ops[i] is CreateOrReplace ==> ops[i]->CreateOrReplace_0.id
                != k,
    ensures
        forall|i: int|
            0 <= i < ops.len() && #[trigger] ops[i] == Operation::Fetch(k) ==> outcomes(s, ops)[i]
                == Outcome::Fetched(None),
    decreases ops.len(),
{
    if ops.len() > 0 {
        let t = apply(s, ops[0]);
        let rest = ops.drop_first();
        lemma_step_coherent(s, ops[0]);
        assert forall|i: int|
            0 <= i < rest.len() && #[trigger] rest[i] is CreateOrReplace implies rest[i]->CreateOrReplace_0.id
                != k by {
            assert(rest[i] == ops[i + 1]);
        }
        never_written_is_missing(t, rest, k);
        lemma_outcomes_shape(s, ops);
        assert forall|i: int|
            0 <= i < ops.len() && #[trigger] ops[i] == Operation::Fetch(k) implies outcomes(s, ops)[i]
                == Outcome::Fetched(None) by {
            if i > 0 {
                assert(rest[i - 1] == ops[i]);
            }
        }
    }
}

/// Writes of records with distinct identifiers leave each one stored.
pub proof fn lemma_upsert_all(s: ServiceModel, ms: Seq<MovieModel>)
    requires
        s.is_coherent(),
        forall|i: int| 0 <= i < ms.len() ==> (#[trigger] ms[i]).is_valid(),
        forall|i: int, j: int| 0 <= i < j < ms.len() ==> ms[i].id != ms[j].id,
    ensures
        upsert_all(s, ms).is_coherent(),
        forall|i: int|
            0 <= i < ms.len() ==> stored(upsert_all(s, ms), #[trigger] ms[i].id) == Some(ms[i]),
    decreases ms.len(),
{
    if ms.len() > 0 {
        let p = ms.drop_last();
        assert forall|i: int| 0 <= i < p.len() implies (#[trigger] p[i]).is_valid() by {
            assert(p[i] == ms[i]);
        }
        assert forall|i: int, j: int| 0 <= i < j < p.len() implies p[i].id != p[j].id by {
            assert(p[i] == ms[i] && p[j] == ms[j]);
        }
        lemma_upsert_all(s, p);
        assert forall|i: int|
            0 <= i < ms.len() implies stored(upsert_all(s, ms), #[trigger] ms[i].id) == Some(ms[i]) by {
            if i < ms.len() - 1 {
                assert(p[i] == ms[i]);
                assert(stored(upsert_all(s, p), p[i].id) == Some(p[i]));
            }
        }
    }
}

/// Fetches alone return, in order, what the store holds for each identifier.
pub proof fn lemma_fetches_read_store(s: ServiceModel, ids: Seq<Seq<char>>)
    requires
        s.is_coherent(),
    ensures
        forall|j: int|
            0 <= j < ids.len() ==> #[trigger] outcomes(s, fetch_ops(ids))[j] == Outcome::Fetched(
                stored(s, ids[j]),
            ),
    decreases ids.len(),
{
    if ids.len() > 0 {
        let ops = fetch_ops(ids);
        let rest = ids.drop_first();
        assert(ops.drop_first() =~= fetch_ops(rest));
        lemma_step_coherent(s, ops[0]);
        let t = apply(s, ops[0]);
        assert(t.store == s.store);
        lemma_fetches_read_store(t, rest);
        lemma_outcomes_shape(s, ops);
        assert forall|j: int| 0 <= j < ids.len() implies #[trigger] outcomes(s, ops)[j]
            == Outcome::Fetched(stored(s, ids[j])) by {
            if j > 0 {
                assert(rest[j - 1] == ids[j]);
                assert(outcomes(s, ops)[j] == outcomes(t, fetch_ops(rest))[j - 1]);
            }
        }
    }
}

/// Writers on distinct keys: after valid writes of records with distinct
/// identifiers, in whatever order they were serialised, any sequence of
/// fetches of those identifiers returns each identifier's own record.
pub proof fn distinct_writers_read_back(s: ServiceModel, ms: Seq<MovieModel>, ids: Seq<Seq<char>>)
    requires
        s.is_coherent(),
        forall|i: int| 0 <= i < ms.len() ==> (#[trigger] ms[i]).is_valid(),
        forall|i: int, j: int| 0 <= i < j < ms.len() ==> ms[i].id != ms[j].id,
    ensures
        forall|i: int, j: int|
            0 <= i < ms.len() && 0 <= j < ids.len() && ids[j] == ms[i].id ==> #[trigger] outcomes(
                upsert_all(s, ms),
                fetch_ops(ids),
            )[j] == Outcome::Fetched(Some(#[trigger] ms[i])),
{
    lemma_upsert_all(s, ms);
    lemma_fetches_read_store(upsert_all(s, ms), ids);
    assert forall|i: int, j: int|
        0 <= i < ms.len() && 0 <= j < ids.len() && ids[j] == ms[i].id implies #[trigger] outcomes(
            upsert_all(s, ms),
            fetch_ops(ids),
        )[j] == Outcome::Fetched(Some(#[trigger] ms[i])) by {
        assert(stored(upsert_all(s, ms), ms[i].id) == Some(ms[i]));
    }
}

} // verus!
