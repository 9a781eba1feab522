//! The mathematics of removing by swapping, stated on sequences.
use vstd::prelude::*;

verus! {

/// The sequence left after the element at `i` is overwritten by the last
/// element and the sequence is shortened by one.
pub open spec fn swap_removed<T>(s: Seq<T>, i: int) -> Seq<T>
    recommends
        0 <= i < s.len(),
{
    s.update(i, s.last()).drop_last()
}

/// The sequence in which the elements at `i` and `j` have traded places.
pub open spec fn swapped<T>(s: Seq<T>, i: int, j: int) -> Seq<T>
    recommends
        0 <= i < s.len(),
        0 <= j < s.len(),
{
    s.update(i, s[j]).update(j, s[i])
}

/// A whole pass of a cursor that starts at `pos` and removes each visited
/// element for which `doomed` holds. After a removal the same position is
/// visited again; otherwise the pass moves on by one.
pub open spec fn sweep<T>(s: Seq<T>, pos: int, doomed: spec_fn(T) -> bool) -> Seq<T>
    decreases s.len() - pos,
{
    if pos < 0 || pos >= s.len() {
        s
    } else if doomed(s[pos]) {
        sweep(swap_removed(s, pos), pos, doomed)
    } else {
        sweep(s, pos + 1, doomed)
    }
}

/// Removing an element that is not the last one puts the former last element
/// in its place and leaves every other surviving position as it was.
pub proof fn lemma_swap_removed_fills_hole<T>(s: Seq<T>, i: int)
    requires
        0 <= i < s.len() - 1,
    ensures
        swap_removed(s, i).len() == s.len() - 1,
        swap_removed(s, i)[i] == s.last(),
        forall|j: int| 0 <= j < s.len() - 1 && j != i ==> swap_removed(s, i)[j] == s[j],
{
}

/// Removing the last element moves nothing: what is left is the sequence
/// without its last element, in its old order.
pub proof fn lemma_swap_removed_last_keeps_order<T>(s: Seq<T>)
    requires
        s.len() > 0,
    ensures
        swap_removed(s, s.len() - 1) == s.subrange(0, s.len() - 1),
{
    assert(swap_removed(s, s.len() - 1) =~= s.subrange(0, s.len() - 1));
}

/// Elements in front of the removed position never move.
pub proof fn lemma_swap_removed_keeps_front<T>(s: Seq<T>, i: int)
    requires
        0 <= i < s.len(),
    ensures
        swap_removed(s, i).subrange(0, i) == s.subrange(0, i),
{
    assert(swap_removed(s, i).subrange(0, i) =~= s.subrange(0, i));
}

/// A removal takes away exactly one occurrence of the removed element and
/// nothing else, whatever it does to the order.
pub proof fn lemma_swap_removed_multiset<T>(s: Seq<T>, i: int)
    requires
        0 <= i < s.len(),
    ensures
        swap_removed(s, i).to_multiset() == s.to_multiset().remove(s[i]),
{
    let front = s.drop_last();
    assert(s =~= front.push(s.last()));
    vstd::seq_lib::to_multiset_build(front, s.last());
    if i == s.len() - 1 {
        assert(swap_removed(s, i) =~= front);
        assert(front.to_multiset().insert(s.last()).remove(s.last()) =~= front.to_multiset());
    } else {
        assert(swap_removed(s, i) =~= front.remove(i).insert(i, s.last()));
        vstd::seq_lib::to_multiset_remove(front, i);
        vstd::seq_lib::to_multiset_insert(front.remove(i), i, s.last());
        vstd::seq_lib::to_multiset_contains(front, s[i]);
        assert(front.contains(s[i])) by {
            assert(front[i] == s[i]);
        }
        assert(front.to_multiset().remove(s[i]).insert(s.last()) =~= front.to_multiset().insert(
            s.last(),
        ).remove(s[i]));
    }
}

/// Trading two elements changes the order and nothing else.
pub proof fn lemma_swapped_multiset<T>(s: Seq<T>, i: int, j: int)
    requires
        0 <= i < s.len(),
        0 <= j < s.len(),
    ensures
        swapped(s, i, j).len() == s.len(),
        swapped(s, i, j).to_multiset() == s.to_multiset(),
{
    if i == j {
        assert(swapped(s, i, j) =~= s);
    } else {
        let a = s[i];
        let b = s[j];
        let one = s.update(i, b);
        assert(one =~= s.remove(i).insert(i, b));
        vstd::seq_lib::to_multiset_remove(s, i);
        vstd::seq_lib::to_multiset_insert(s.remove(i), i, b);
        assert(swapped(s, i, j) =~= one.remove(j).insert(j, a));
        vstd::seq_lib::to_multiset_remove(one, j);
        vstd::seq_lib::to_multiset_insert(one.remove(j), j, a);
        vstd::seq_lib::to_multiset_contains(s, a);
        assert(s.contains(a));
        assert(s.to_multiset().remove(a).insert(b).remove(b).insert(a) =~= s.to_multiset());
    }
}

/// Setting an element aside instead of dropping it loses nothing: the kept
/// elements and the ones set aside hold together what they held before.
pub proof fn lemma_setting_aside_keeps_everything<T>(kept: Seq<T>, aside: Seq<T>, i: int)
    requires
        0 <= i < kept.len(),
    ensures
        (swap_removed(kept, i) + (seq![kept[i]] + aside)).len() == (kept + aside).len(),
        (swap_removed(kept, i) + (seq![kept[i]] + aside)).to_multiset() == (kept
            + aside).to_multiset(),
{
    let rest = swap_removed(kept, i);
    lemma_swap_removed_multiset(kept, i);
    vstd::seq_lib::lemma_multiset_commutative(rest, seq![kept[i]] + aside);
    vstd::seq_lib::lemma_multiset_commutative(seq![kept[i]], aside);
    vstd::seq_lib::lemma_multiset_commutative(kept, aside);
    vstd::seq_lib::to_multiset_contains(kept, kept[i]);
    assert(kept.contains(kept[i]));
    assert(seq![kept[i]] =~= Seq::<T>::empty().push(kept[i]));
    vstd::seq_lib::to_multiset_build(Seq::<T>::empty(), kept[i]);
    assert(Seq::<T>::empty().to_multiset() =~= vstd::multiset::Multiset::<T>::empty()) by {
        vstd::seq_lib::to_multiset_len(Seq::<T>::empty());
    }
    assert(kept.to_multiset().remove(kept[i]).add(
        vstd::multiset::Multiset::<T>::empty().insert(kept[i]).add(aside.to_multiset()),
    ) =~= kept.to_multiset().add(aside.to_multiset()));
}

/// A pass that removes nothing leaves the sequence exactly as it was, in
/// content and in order.
pub proof fn lemma_sweep_without_removals<T>(s: Seq<T>, pos: int, doomed: spec_fn(T) -> bool)
    requires
        forall|k: int| pos <= k < s.len() && 0 <= k ==> !doomed(#[trigger] s[k]),
    ensures
        sweep(s, pos, doomed) == s,
    decreases s.len() - pos,
{
    if 0 <= pos < s.len() {
        lemma_sweep_without_removals(s, pos + 1, doomed);
    }
}

/// A pass that removes every element it visits leaves nothing behind from
/// the position where it started: started at the front, it empties the
/// sequence.
pub proof fn lemma_sweep_removing_everything<T>(s: Seq<T>, pos: int, doomed: spec_fn(T) -> bool)
    requires
        0 <= pos <= s.len(),
        forall|k: int| pos <= k < s.len() ==> doomed(#[trigger] s[k]),
    ensures
        sweep(s, pos, doomed) == s.subrange(0, pos),
    decreases s.len() - pos,
{
    if pos < s.len() {
        let rest = swap_removed(s, pos);
        lemma_sweep_removing_everything(rest, pos, doomed);
        assert(rest.subrange(0, pos) =~= s.subrange(0, pos));
    } else {
        assert(s.subrange(0, pos) =~= s);
    }
}

/// Whatever a pass removes, no element that it should have removed survives
/// it, provided none stood in front of the position where it started.
pub proof fn lemma_sweep_survivors<T>(s: Seq<T>, pos: int, doomed: spec_fn(T) -> bool)
    requires
        0 <= pos <= s.len(),
        forall|k: int| 0 <= k < pos ==> !doomed(#[trigger] s[k]),
    ensures
        forall|k: int|
            0 <= k < sweep(s, pos, doomed).len() ==> !doomed(#[trigger] sweep(s, pos, doomed)[k]),
    decreases s.len() - pos,
{
    if pos < s.len() {
        if doomed(s[pos]) {
            let rest = swap_removed(s, pos);
            assert forall|k: int| 0 <= k < pos implies !doomed(#[trigger] rest[k]) by {
                assert(rest[k] == s[k]);
            }
            lemma_sweep_survivors(rest, pos, doomed);
            assert(sweep(s, pos, doomed) == sweep(rest, pos, doomed));
        } else {
            lemma_sweep_survivors(s, pos + 1, doomed);
            assert(sweep(s, pos, doomed) == sweep(s, pos + 1, doomed));
        }
    } else {
        assert(sweep(s, pos, doomed) == s);
    }
}

/// A pass keeps exactly the elements it was not asked to remove, each as
/// often as it occurred; only their order may have changed.
pub proof fn lemma_sweep_multiset<T>(s: Seq<T>, pos: int, doomed: spec_fn(T) -> bool)
    requires
        0 <= pos <= s.len(),
        forall|k: int| 0 <= k < pos ==> !doomed(#[trigger] s[k]),
    ensures
        sweep(s, pos, doomed).to_multiset() == s.to_multiset().filter(|x: T| !doomed(x)),
    decreases s.len() - pos,
{
    let keep = |x: T| !doomed(x);
    if pos < s.len() {
        if doomed(s[pos]) {
            let rest = swap_removed(s, pos);
            assert forall|k: int| 0 <= k < pos implies !doomed(#[trigger] rest[k]) by {
                assert(rest[k] == s[k]);
            }
            lemma_sweep_multiset(rest, pos, doomed);
            lemma_swap_removed_multiset(s, pos);
            assert(s.to_multiset().remove(s[pos]).filter(keep) =~= s.to_multiset().filter(keep))
                by {
                assert forall|v: T|
                    s.to_multiset().remove(s[pos]).filter(keep).count(v) == s.to_multiset().filter(
                        keep,
                    ).count(v) by {
                    vstd::multiset::axiom_filter_count(s.to_multiset().remove(s[pos]), keep, v);
                    vstd::multiset::axiom_filter_count(s.to_multiset(), keep, v);
                }
            }
        } else {
            lemma_sweep_multiset(s, pos + 1, doomed);
        }
    } else {
        assert(s.to_multiset().filter(keep) =~= s.to_multiset()) by {
            assert forall|v: T| s.to_multiset().filter(keep).count(v) == s.to_multiset().count(
                v,
            ) by {
                vstd::multiset::axiom_filter_count(s.to_multiset(), keep, v);
                vstd::seq_lib::to_multiset_contains(s, v);
                if s.contains(v) {
                    let k = choose|k: int| 0 <= k < s.len() && s[k] == v;
                    assert(!doomed(s[k]));
                }
            }
        }
    }
}

} // verus!
