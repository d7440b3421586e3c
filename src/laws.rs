use vstd::prelude::*;
use crate::value::{SonicSerdeObject, Tag, cmp_value};
use crate::mapping::{Entries, keys_sorted, upsert, has_key, one_entry_for, lemma_upsert_props};
use crate::order::{lemma_cmp_antisym, lemma_cmp_trans, lemma_cmp_refl};

verus! {

/// Every value has exactly one tag among the registry's twenty, so exactly
/// one `is_` predicate holds of it: the one whose tag has its rank.
pub proof fn lemma_one_tag(v: SonicSerdeObject)
    ensures
        0 <= v.spec_tag().rank() < 20,
        forall|t: Tag| #[trigger] t.rank() == v.spec_tag().rank() <==> t == v.spec_tag(),
{
}

/// Pushing the items of `items` in turn onto an empty sequence yields
/// `items`.
pub proof fn lemma_push_all(items: Seq<SonicSerdeObject>)
    ensures
        pushed(items) == items,
    decreases items.len(),
{
    if items.len() > 0 {
        lemma_push_all(items.subrange(0, items.len() - 1));
        assert(items.subrange(0, items.len() - 1).push(items[items.len() - 1]) =~= items);
    }
}

/// The sequence after pushing each item of `items` in turn onto an empty one.
pub open spec fn pushed(items: Seq<SonicSerdeObject>) -> Seq<SonicSerdeObject>
    decreases items.len(),
{
    if items.len() == 0 {
        Seq::empty()
    } else {
        pushed(items.subrange(0, items.len() - 1)).push(items[items.len() - 1])
    }
}

/// Inserting the same key twice, with `v1` and then `v2`, into a mapping
/// leaves exactly one entry for that key, holding `v2`.
pub proof fn lemma_insert_twice(s: Entries, k: SonicSerdeObject, v1: SonicSerdeObject, v2: SonicSerdeObject)
    requires
        keys_sorted(s),
    ensures
        keys_sorted(upsert(upsert(s, k, v1), k, v2)),
        one_entry_for(upsert(upsert(s, k, v1), k, v2), k, v2),
        upsert(upsert(s, k, v1), k, v2).len() == upsert(s, k, v1).len(),
{
    lemma_upsert_props(s, k, v1);
    lemma_upsert_props(upsert(s, k, v1), k, v2);
    assert(has_key(upsert(s, k, v1), k));
}

/// The comparison is a total order: reflexive, antisymmetric and
/// transitive, and values of different tags order by registry rank.
pub proof fn lemma_total_order(a: SonicSerdeObject, b: SonicSerdeObject, c: SonicSerdeObject)
    ensures
        cmp_value(a, a) == 0,
        cmp_value(a, b) == -cmp_value(b, a),
        cmp_value(a, b) <= 0 && cmp_value(b, c) <= 0 ==> cmp_value(a, c) <= 0,
        cmp_value(a, b) < 0 && cmp_value(b, c) < 0 ==> cmp_value(a, c) < 0,
        cmp_value(a, b) == 0 && cmp_value(b, c) == 0 ==> cmp_value(a, c) == 0,
        a.spec_tag().rank() < b.spec_tag().rank() ==> cmp_value(a, b) < 0,
{
    lemma_cmp_refl(a);
    lemma_cmp_antisym(a, b);
    lemma_cmp_trans(a, b, c);
}

/// In a sequence sorted by the total order, values are grouped by tag in
/// registry order.
pub proof fn lemma_sorted_groups_by_tag(s: Seq<SonicSerdeObject>)
    requires
        forall|i: int, j: int| 0 <= i < j < s.len() ==> cmp_value(#[trigger] s[i], #[trigger] s[j]) <= 0,
    ensures
        forall|i: int, j: int|
            0 <= i < j < s.len() ==> (#[trigger] s[i]).spec_tag().rank() <= (#[trigger] s[j]).spec_tag().rank(),
{
    assert forall|i: int, j: int| 0 <= i < j < s.len() implies (#[trigger] s[i]).spec_tag().rank()
        <= (#[trigger] s[j]).spec_tag().rank() by {
        assert(cmp_value(s[i], s[j]) <= 0);
    }
}

} // verus!
