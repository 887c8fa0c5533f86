//! Mathematical model of batched ingestion.
//!
//! A run of the ingestion loop is modelled by the sequence of per-line parse
//! outcomes: `Some(record)` for a line the parser accepted, `None` for a line
//! it rejected.  The records that survive are `successes` of that sequence,
//! and the batches the loop hands to the engine are `chunk` of the survivors:
//! consecutive groups of `batch_size` records, with one final shorter group
//! holding whatever is left.

use vstd::prelude::*;

verus! {

/// The records produced by the accepted lines, in line order.
pub open spec fn successes<T>(outcomes: Seq<Option<T>>) -> Seq<T>
    decreases outcomes.len(),
{
    if outcomes.len() == 0 {
        Seq::empty()
    } else {
        successes(outcomes.drop_last()) + match outcomes.last() {
            Some(t) => seq![t],
            None => Seq::<T>::empty(),
        }
    }
}

/// The batches formed from the record sequence `s`: groups of exactly `b`
/// records in order, with a final group of `1..=b` records holding the rest.
/// An empty `s` yields no batch at all.
pub open spec fn chunk<T>(s: Seq<T>, b: nat) -> Seq<Seq<T>>
    recommends
        b >= 1,
    decreases s.len(),
{
    if b == 0 || s.len() == 0 {
        Seq::empty()
    } else if s.len() <= b {
        seq![s]
    } else {
        seq![s.take(b as int)] + chunk(s.skip(b as int), b)
    }
}

/// Appending a `Some` outcome appends its record to the survivors.
pub proof fn lemma_successes_push_some<T>(outcomes: Seq<Option<T>>, t: T)
    ensures
        successes(outcomes.push(Some(t))) == successes(outcomes).push(t),
{
    let o2 = outcomes.push(Some(t));
    assert(o2.drop_last() == outcomes);
    assert(successes(outcomes) + seq![t] == successes(outcomes).push(t));
}

/// Appending a `None` outcome leaves the survivors unchanged.
pub proof fn lemma_successes_push_none<T>(outcomes: Seq<Option<T>>)
    ensures
        successes(outcomes.push(None)) == successes(outcomes),
{
    let o2 = outcomes.push(None::<T>);
    assert(o2.drop_last() == outcomes);
    assert(successes(outcomes) + Seq::<T>::empty() == successes(outcomes));
}

/// There are never more survivors than lines.
pub proof fn lemma_successes_len<T>(outcomes: Seq<Option<T>>)
    ensures
        successes(outcomes).len() <= outcomes.len(),
    decreases outcomes.len(),
{
    if outcomes.len() > 0 {
        lemma_successes_len(outcomes.drop_last());
    }
}

/// Concatenating the batches of `s` gives back `s` itself: batching loses no
/// record, duplicates none, and keeps them in order.
pub proof fn lemma_chunk_flatten<T>(s: Seq<T>, b: nat)
    requires
        b >= 1,
    ensures
        chunk(s, b).flatten() == s,
    decreases s.len(),
{
    if s.len() == 0 {
        assert(chunk(s, b).flatten() =~= s);
    } else if s.len() <= b {
        seq![s].lemma_flatten_singleton();
        assert(chunk(s, b).flatten() =~= s);
    } else {
        let head = seq![s.take(b as int)];
        let tail = chunk(s.skip(b as int), b);
        lemma_chunk_flatten(s.skip(b as int), b);
        vstd::seq_lib::lemma_flatten_concat(head, tail);
        head.lemma_flatten_singleton();
        assert(chunk(s, b).flatten() =~= s);
    }
}

/// Every batch of `s` holds between 1 and `b` records, and every batch except
/// possibly the last holds exactly `b`.
pub proof fn lemma_chunk_shape<T>(s: Seq<T>, b: nat)
    requires
        b >= 1,
    ensures
        forall|i: int|
            0 <= i < chunk(s, b).len() ==> 1 <= (#[trigger] chunk(s, b)[i]).len() <= b,
        forall|i: int|
            0 <= i < chunk(s, b).len() - 1 ==> (#[trigger] chunk(s, b)[i]).len() == b,
    decreases s.len(),
{
    if s.len() > b {
        lemma_chunk_shape(s.skip(b as int), b);
        assert forall|i: int|
            0 <= i < chunk(s, b).len() implies 1 <= (#[trigger] chunk(s, b)[i]).len() <= b by {
            if i >= 1 {
                assert(chunk(s, b)[i] == chunk(s.skip(b as int), b)[i - 1]);
            }
        }
        assert forall|i: int|
            0 <= i < chunk(s, b).len() - 1 implies (#[trigger] chunk(s, b)[i]).len() == b by {
            if i >= 1 {
                assert(chunk(s, b)[i] == chunk(s.skip(b as int), b)[i - 1]);
            }
        }
    }
}

/// A sequence assembled from full batches followed by a short remainder is
/// batched exactly as those batches followed by the remainder.  This ties the
/// loop's accumulated state to the model once the input is exhausted.
pub proof fn lemma_chunk_complete<T>(full: Seq<Seq<T>>, rest: Seq<T>, b: nat)
    requires
        b >= 1,
        forall|i: int| 0 <= i < full.len() ==> (#[trigger] full[i]).len() == b,
        rest.len() < b,
    ensures
        chunk(full.flatten() + rest, b) == full + if rest.len() == 0 {
            Seq::<Seq<T>>::empty()
        } else {
            seq![rest]
        },
    decreases full.len(),
{
    let s = full.flatten() + rest;
    if full.len() == 0 {
        assert(s =~= rest);
        if rest.len() == 0 {
            assert(chunk(s, b) =~= full);
        } else {
            assert(chunk(s, b) =~= full + seq![rest]);
        }
    } else {
        let f0 = full.first();
        let fr = full.drop_first();
        assert(full[0].len() == b);
        assert(full.flatten() == f0 + fr.flatten());
        assert forall|i: int| 0 <= i < fr.len() implies (#[trigger] fr[i]).len() == b by {
            assert(fr[i] == full[i + 1]);
        }
        lemma_chunk_complete(fr, rest, b);
        if fr.len() == 0 && rest.len() == 0 {
            assert(s =~= f0);
            assert(chunk(s, b) =~= seq![f0]);
            assert(chunk(s, b) =~= full);
        } else {
            if fr.len() > 0 {
                assert(fr[0].len() == b);
                assert(fr.flatten() == fr.first() + fr.drop_first().flatten());
                assert(fr.flatten().len() >= b);
            }
            assert(s.len() > b);
            assert(s.take(b as int) =~= f0);
            assert(s.skip(b as int) =~= fr.flatten() + rest);
            assert(chunk(s, b) == seq![f0] + chunk(fr.flatten() + rest, b));
            assert(seq![f0] + fr =~= full);
            if rest.len() == 0 {
                assert(chunk(s, b) =~= full);
            } else {
                assert(chunk(s, b) =~= full + seq![rest]);
            }
        }
    }
}

/// The records dispatched over a whole run are exactly the records the parser
/// accepted, in line order: batching only removes the rejected lines.
pub proof fn lemma_concat_restores_order<T>(outcomes: Seq<Option<T>>, b: nat)
    requires
        b >= 1,
    ensures
        chunk(successes(outcomes), b).flatten() == successes(outcomes),
{
    lemma_chunk_flatten(successes(outcomes), b);
}

/// The number of dispatched records equals the number of lines the parser
/// accepted.
pub proof fn lemma_record_count<T>(outcomes: Seq<Option<T>>, b: nat)
    requires
        b >= 1,
    ensures
        chunk(successes(outcomes), b).flatten().len() == successes(outcomes).len(),
{
    lemma_concat_restores_order(outcomes, b);
}

/// Every dispatched batch of a run holds at most `b` records, none is empty,
/// and only the last may hold fewer than `b`.
pub proof fn lemma_batch_sizes<T>(outcomes: Seq<Option<T>>, b: nat)
    requires
        b >= 1,
    ensures
        forall|i: int|
            0 <= i < chunk(successes(outcomes), b).len() ==> 1 <= (#[trigger] chunk(
                successes(outcomes),
                b,
            )[i]).len() <= b,
        forall|i: int|
            0 <= i < chunk(successes(outcomes), b).len() - 1 ==> (#[trigger] chunk(
                successes(outcomes),
                b,
            )[i]).len() == b,
{
    lemma_chunk_shape(successes(outcomes), b);
}

/// A run is a function of the per-line parse outcomes and the batch size
/// alone: repeating a run over an unchanged file with an unchanged, deterministic
/// parser yields the identical batch sequence.
pub proof fn lemma_deterministic<T>(o1: Seq<Option<T>>, o2: Seq<Option<T>>, b: nat)
    requires
        b >= 1,
        o1 == o2,
    ensures
        chunk(successes(o1), b) == chunk(successes(o2), b),
{
}

/// Boundary cases: no record yields no batch; exactly `b` records yield one
/// full batch and nothing after it; `b + 1` records yield one full batch
/// followed by one batch holding the single leftover record.
pub proof fn lemma_chunk_boundary<T>(s: Seq<T>, b: nat)
    requires
        b >= 1,
    ensures
        s.len() == 0 ==> chunk(s, b) == Seq::<Seq<T>>::empty(),
        s.len() == b ==> chunk(s, b) == seq![s],
        s.len() == b + 1 ==> chunk(s, b) == seq![s.take(b as int), s.skip(b as int)]
            && s.take(b as int).len() == b && s.skip(b as int).len() == 1,
{
    if s.len() == 0 {
        assert(chunk(s, b) =~= Seq::<Seq<T>>::empty());
    } else if s.len() == b {
        assert(chunk(s, b) =~= seq![s]);
    } else if s.len() == b + 1 {
        let r = s.skip(b as int);
        assert(chunk(r, b) =~= seq![r]);
        assert(chunk(s, b) =~= seq![s.take(b as int), r]);
    }
}

} // verus!
