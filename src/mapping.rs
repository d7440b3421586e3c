use vstd::prelude::*;
use crate::value::{SonicSerdeObject, cmp_value};
use crate::order::{lemma_cmp_antisym, lemma_cmp_trans};

verus! {

/// Entries of a mapping: key/value pairs.
pub type Entries = Seq<(SonicSerdeObject, SonicSerdeObject)>;

/// Keys strictly increase in the total order, so no two keys are equal.
pub open spec fn keys_sorted(s: Entries) -> bool {
    forall|i: int, j: int| 0 <= i < j < s.len() ==> cmp_value(#[trigger] s[i].0, #[trigger] s[j].0) < 0
}

/// How many leading entries have a key below `k`: where `k` belongs.
pub open spec fn lower_index(s: Entries, k: SonicSerdeObject) -> nat
    decreases s.len(),
{
    if s.len() == 0 || cmp_value(s[0].0, k) >= 0 {
        0
    } else {
        1 + lower_index(s.subrange(1, s.len() as int), k)
    }
}

/// The entries after inserting `k -> v`: an entry whose key equals `k` keeps
/// its key and takes `v`; otherwise `(k, v)` goes in at its position.
pub open spec fn upsert(s: Entries, k: SonicSerdeObject, v: SonicSerdeObject) -> Entries {
    let i = lower_index(s, k) as int;
    if i < s.len() && cmp_value(s[i].0, k) == 0 {
        s.update(i, (s[i].0, v))
    } else {
        s.insert(i, (k, v))
    }
}

pub proof fn lemma_lower_index(s: Entries, k: SonicSerdeObject)
    ensures
        lower_index(s, k) <= s.len(),
        forall|j: int| 0 <= j < lower_index(s, k) ==> cmp_value(#[trigger] s[j].0, k) < 0,
        lower_index(s, k) < s.len() ==> cmp_value(s[lower_index(s, k) as int].0, k) >= 0,
    decreases s.len(),
{
    if s.len() > 0 && cmp_value(s[0].0, k) < 0 {
        let s1 = s.subrange(1, s.len() as int);
        lemma_lower_index(s1, k);
        assert forall|j: int| 0 <= j < lower_index(s, k) implies cmp_value(#[trigger] s[j].0, k) < 0 by {
            if j > 0 {
                assert(s[j] == s1[j - 1]);
            }
        }
    }
}

/// The position that a scan finds is `lower_index`.
pub proof fn lemma_lower_index_at(s: Entries, k: SonicSerdeObject, i: int)
    requires
        0 <= i <= s.len(),
        forall|j: int| 0 <= j < i ==> cmp_value(#[trigger] s[j].0, k) < 0,
        i < s.len() ==> cmp_value(s[i].0, k) >= 0,
    ensures
        lower_index(s, k) == i,
    decreases i,
{
    if i > 0 {
        let s1 = s.subrange(1, s.len() as int);
        assert forall|j: int| 0 <= j < i - 1 implies cmp_value(#[trigger] s1[j].0, k) < 0 by {
            assert(s1[j] == s[j + 1]);
        }
        lemma_lower_index_at(s1, k, i - 1);
    }
}

/// Inserting into sorted entries keeps them sorted.
pub proof fn lemma_upsert_sorted(s: Entries, k: SonicSerdeObject, v: SonicSerdeObject)
    requires
        keys_sorted(s),
    ensures
        keys_sorted(upsert(s, k, v)),
{
    lemma_lower_index(s, k);
    let i = lower_index(s, k) as int;
    let r = upsert(s, k, v);
    if i < s.len() && cmp_value(s[i].0, k) == 0 {
        assert forall|a: int, b: int| 0 <= a < b < r.len() implies cmp_value(#[trigger] r[a].0, #[trigger] r[b].0) < 0 by {
            assert(r[a].0 == s[a].0);
            assert(r[b].0 == s[b].0);
        }
    } else {
        if i < s.len() {
            lemma_cmp_antisym(s[i].0, k);
        }
        assert forall|a: int, b: int| 0 <= a < b < r.len() implies cmp_value(#[trigger] r[a].0, #[trigger] r[b].0) < 0 by {
            if a < i && b == i {
            } else if a < i && b > i {
                assert(r[b] == s[b - 1]);
                lemma_cmp_trans(s[a].0, k, s[b - 1].0);
                if b - 1 > i {
                    lemma_cmp_trans(k, s[i].0, s[b - 1].0);
                }
            } else if a == i {
                assert(r[b] == s[b - 1]);
                if b - 1 > i {
                    lemma_cmp_trans(k, s[i].0, s[b - 1].0);
                }
            } else if a > i {
                assert(r[a] == s[a - 1]);
                assert(r[b] == s[b - 1]);
            }
        }
    }
}

/// After inserting `k -> v` into sorted entries, exactly one entry has a
/// key equal to `k`, and it holds `v`.
pub proof fn lemma_upsert_one(s: Entries, k: SonicSerdeObject, v: SonicSerdeObject)
    requires
        keys_sorted(s),
    ensures
        exists|i: int|
            0 <= i < upsert(s, k, v).len() && cmp_value(#[trigger] upsert(s, k, v)[i].0, k) == 0
                && upsert(s, k, v)[i].1 == v && forall|j: int|
                0 <= j < upsert(s, k, v).len() && j != i ==> cmp_value(
                    #[trigger] upsert(s, k, v)[j].0,
                    k,
                ) != 0,
{
    lemma_lower_index(s, k);
    lemma_upsert_sorted(s, k, v);
    let i = lower_index(s, k) as int;
    let r = upsert(s, k, v);
    if !(i < s.len() && cmp_value(s[i].0, k) == 0) {
        crate::order::lemma_cmp_refl(k);
    }
    assert(cmp_value(r[i].0, k) == 0);
    assert forall|j: int| 0 <= j < r.len() && j != i implies cmp_value(#[trigger] r[j].0, k) != 0 by {
        lemma_cmp_antisym(r[j].0, k);
        lemma_cmp_antisym(r[i].0, k);
        if j < i {
            lemma_cmp_trans(r[j].0, r[i].0, k);
        } else {
            lemma_cmp_trans(k, r[i].0, r[j].0);
        }
    }
}

/// Some entry of `s` has a key equal to `k`.
pub open spec fn has_key(s: Entries, k: SonicSerdeObject) -> bool {
    exists|j: int| 0 <= j < s.len() && cmp_value(#[trigger] s[j].0, k) == 0
}

/// Exactly one entry of `r` has a key equal to `k`, and it holds `v`.
pub open spec fn one_entry_for(r: Entries, k: SonicSerdeObject, v: SonicSerdeObject) -> bool {
    exists|i: int|
        0 <= i < r.len() && cmp_value(#[trigger] r[i].0, k) == 0 && r[i].1 == v && forall|j: int|
            0 <= j < r.len() && j != i ==> cmp_value(#[trigger] r[j].0, k) != 0
}

/// Every entry of `s` whose key differs from `k` is still an entry of `r`.
pub open spec fn keeps_others(s: Entries, r: Entries, k: SonicSerdeObject) -> bool {
    forall|j: int|
        0 <= j < s.len() && cmp_value(#[trigger] s[j].0, k) != 0 ==> exists|l: int|
            0 <= l < r.len() && r[l] == s[j]
}

/// Every key and value of the entries is well formed.
pub open spec fn entries_wf(s: Entries) -> bool {
    forall|i: int| 0 <= i < s.len() ==> (#[trigger] s[i]).0.wf() && s[i].1.wf()
}

proof fn lemma_upsert_kept(s: Entries, k: SonicSerdeObject, v: SonicSerdeObject)
    requires
        keys_sorted(s),
    ensures
        keeps_others(s, upsert(s, k, v), k),
        upsert(s, k, v).len() == s.len() + if has_key(s, k) { 0int } else { 1int },
{
    lemma_lower_index(s, k);
    let i = lower_index(s, k) as int;
    let r = upsert(s, k, v);
    if i < s.len() && cmp_value(s[i].0, k) == 0 {
        assert(has_key(s, k));
        assert forall|j: int| 0 <= j < s.len() && cmp_value(#[trigger] s[j].0, k) != 0 implies exists|l: int|
            0 <= l < r.len() && r[l] == s[j] by {
            assert(r[j] == s[j]);
        }
    } else {
        assert forall|j: int| 0 <= j < s.len() && cmp_value(#[trigger] s[j].0, k) != 0 implies exists|l: int|
            0 <= l < r.len() && r[l] == s[j] by {
            if j < i {
                assert(r[j] == s[j]);
            } else {
                assert(r[j + 1] == s[j]);
            }
        }
        assert forall|j: int| 0 <= j < s.len() implies cmp_value(#[trigger] s[j].0, k) != 0 by {
            if j >= i {
                lemma_cmp_antisym(s[i].0, k);
                if j > i {
                    lemma_cmp_trans(k, s[i].0, s[j].0);
                    lemma_cmp_antisym(s[j].0, k);
                }
            }
        }
    }
}

pub proof fn lemma_upsert_wf(s: Entries, k: SonicSerdeObject, v: SonicSerdeObject)
    requires
        entries_wf(s),
        k.wf(),
        v.wf(),
    ensures
        entries_wf(upsert(s, k, v)),
{
    lemma_lower_index(s, k);
    let i = lower_index(s, k) as int;
    let r = upsert(s, k, v);
    assert forall|j: int| 0 <= j < r.len() implies (#[trigger] r[j]).0.wf() && r[j].1.wf() by {
        if i < s.len() && cmp_value(s[i].0, k) == 0 {
            assert(s[j].0.wf());
        } else if j < i {
            assert(r[j] == s[j]);
        } else if j > i {
            assert(r[j] == s[j - 1]);
        }
    }
}

/// What inserting into sorted entries gives: sorted entries with exactly
/// one entry for the key, holding the new value; every other entry kept;
/// one entry more exactly when no equal key was there.
pub proof fn lemma_upsert_props(s: Entries, k: SonicSerdeObject, v: SonicSerdeObject)
    requires
        keys_sorted(s),
    ensures
        keys_sorted(upsert(s, k, v)),
        one_entry_for(upsert(s, k, v), k, v),
        keeps_others(s, upsert(s, k, v), k),
        upsert(s, k, v).len() == s.len() + if has_key(s, k) { 0int } else { 1int },
        entries_wf(s) && k.wf() && v.wf() ==> entries_wf(upsert(s, k, v)),
{
    lemma_upsert_sorted(s, k, v);
    lemma_upsert_one(s, k, v);
    lemma_upsert_kept(s, k, v);
    if entries_wf(s) && k.wf() && v.wf() {
        lemma_upsert_wf(s, k, v);
    }
}

} // verus!
