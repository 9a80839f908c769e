//! Laws of recording, clearing and flushing, stated over the slot model.
use crate::events::{concat, empty_slots, flushed, min, VMLogEntry};
use vstd::prelude::*;

verus! {

proof fn lemma_concat_add(a: Seq<Seq<VMLogEntry>>, b: Seq<Seq<VMLogEntry>>)
    ensures
        concat(a + b) == concat(a) + concat(b),
    decreases b.len(),
{
    if b.len() == 0 {
        assert(a + b =~= a);
        assert(concat(a) + concat(b) =~= concat(a));
    } else {
        lemma_concat_add(a, b.drop_last());
        assert((a + b).drop_last() =~= a + b.drop_last());
        assert(concat(a + b) =~= concat(a) + concat(b));
    }
}

proof fn lemma_concat_single(x: Seq<VMLogEntry>)
    ensures
        concat(seq![x]) == x,
{
    assert(seq![x].drop_last() =~= Seq::<Seq<VMLogEntry>>::empty());
    assert(concat(Seq::<Seq<VMLogEntry>>::empty()) + x =~= x);
}

proof fn lemma_concat_empty_slots(n: nat)
    ensures
        concat(empty_slots(n)) == Seq::<VMLogEntry>::empty(),
    decreases n,
{
    if n > 0 {
        lemma_concat_empty_slots((n - 1) as nat);
        assert(empty_slots(n).drop_last() =~= empty_slots((n - 1) as nat));
        assert(concat(empty_slots(n)) =~= Seq::<VMLogEntry>::empty());
    }
}

/// The flushed range splits at any slot `i` it covers: the events of the
/// slots before `i`, then slot `i`'s own, then those of the slots after it.
pub proof fn lemma_flushed_split(s: Seq<Seq<VMLogEntry>>, i: int, n: int)
    requires
        0 <= i < min(n, s.len() as int),
    ensures
        flushed(s, n) == concat(s.take(i)) + s[i] + concat(
            s.subrange(i + 1, min(n, s.len() as int)),
        ),
{
    let m = min(n, s.len() as int);
    let pre = s.take(i);
    let post = s.subrange(i + 1, m);
    assert(s.take(m) =~= (pre + seq![s[i]]) + post);
    lemma_concat_add(pre + seq![s[i]], post);
    lemma_concat_add(pre, seq![s[i]]);
    lemma_concat_single(s[i]);
}

/// A freshly installed store of `n` slots dispatches nothing, however many
/// slots are flushed.
pub proof fn law_fresh_store_flushes_nothing(n: nat, k: nat)
    ensures
        flushed(empty_slots(n), k as int) == Seq::<VMLogEntry>::empty(),
{
    let m = min(k as int, n as int);
    if m == 0 {
        assert(empty_slots(n).take(m) =~= Seq::<Seq<VMLogEntry>>::empty());
    } else {
        assert(empty_slots(n).take(m) =~= empty_slots(m as nat));
        lemma_concat_empty_slots(m as nat);
    }
}

/// Events appended to slot `i` come out of a flush that covers `i` in the
/// order they were appended, right after what the slot already held and
/// between the events of the slots before and after it.
pub proof fn law_appends_flush_in_order(
    s: Seq<Seq<VMLogEntry>>,
    i: int,
    n: int,
    e1: VMLogEntry,
    e2: VMLogEntry,
    e3: VMLogEntry,
)
    requires
        0 <= i < min(n, s.len() as int),
    ensures
        flushed(s.update(i, s[i].push(e1).push(e2).push(e3)), n) == concat(s.take(i)) + s[i]
            + seq![e1, e2, e3] + concat(s.subrange(i + 1, min(n, s.len() as int))),
{
    let t = s.update(i, s[i].push(e1).push(e2).push(e3));
    lemma_flushed_split(t, i, n);
    assert(t.take(i) =~= s.take(i));
    assert(t.subrange(i + 1, min(n, s.len() as int)) =~= s.subrange(
        i + 1,
        min(n, s.len() as int),
    ));
    assert(s[i].push(e1).push(e2).push(e3) =~= s[i] + seq![e1, e2, e3]);
}

/// A cleared slot contributes nothing to a flush: only the slots before and
/// after it are dispatched.
pub proof fn law_cleared_slot_flushes_nothing(s: Seq<Seq<VMLogEntry>>, i: int, n: int)
    requires
        0 <= i < min(n, s.len() as int),
    ensures
        flushed(s.update(i, Seq::empty()), n) == concat(s.take(i)) + concat(
            s.subrange(i + 1, min(n, s.len() as int)),
        ),
{
    let t = s.update(i, Seq::empty());
    lemma_flushed_split(t, i, n);
    assert(t.take(i) =~= s.take(i));
    assert(t.subrange(i + 1, min(n, s.len() as int)) =~= s.subrange(
        i + 1,
        min(n, s.len() as int),
    ));
    assert(concat(s.take(i)) + Seq::<VMLogEntry>::empty() =~= concat(s.take(i)));
}

/// Appends to two distinct slots `i < j` give the same store in either
/// order, and a flush covering both dispatches slot `i`'s events, each slot
/// in its own append order, before slot `j`'s.
pub proof fn law_distinct_slots_flush_in_index_order(
    s: Seq<Seq<VMLogEntry>>,
    i: int,
    j: int,
    n: int,
    a: Seq<VMLogEntry>,
    b: Seq<VMLogEntry>,
)
    requires
        0 <= i < j < min(n, s.len() as int),
    ensures
        s.update(i, s[i] + a).update(j, s[j] + b) == s.update(j, s[j] + b).update(i, s[i] + a),
        flushed(s.update(i, s[i] + a).update(j, s[j] + b), n) == concat(s.take(i)) + (s[i] + a)
            + concat(s.subrange(i + 1, j)) + (s[j] + b) + concat(
            s.subrange(j + 1, min(n, s.len() as int)),
        ),
{
    let m = min(n, s.len() as int);
    let t = s.update(i, s[i] + a).update(j, s[j] + b);
    assert(t =~= s.update(j, s[j] + b).update(i, s[i] + a));
    lemma_flushed_split(t, j, n);
    lemma_flushed_split(t, i, j);
    assert(t.take(i) =~= s.take(i));
    assert(t.subrange(i + 1, j) =~= s.subrange(i + 1, j));
    assert(t.subrange(j + 1, m) =~= s.subrange(j + 1, m));
    assert(flushed(t, j) == concat(t.take(j)));
    assert(flushed(t, n) =~= concat(s.take(i)) + (s[i] + a) + concat(s.subrange(i + 1, j)) + (s[j]
        + b) + concat(s.subrange(j + 1, m)));
}

} // verus!
