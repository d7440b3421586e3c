use vstd::prelude::*;
use crate::value::{SonicSerdeObject, cmp_value, cmp_seq, cmp_pairs, cmp_bytes};

verus! {

broadcast use vstd::std_specs::vec::group_vec_axioms;

/// The transitivity facts for three comparison results `ab`, `bc`, `ac`.
pub open spec fn chain(ab: int, bc: int, ac: int) -> bool {
    &&& (ab <= 0 && bc <= 0 ==> ac <= 0)
    &&& (ab < 0 && bc <= 0 ==> ac < 0)
    &&& (ab <= 0 && bc < 0 ==> ac < 0)
    &&& (ab == 0 && bc == 0 ==> ac == 0)
}

proof fn lemma_bytes_refl(s: Seq<u8>)
    ensures
        cmp_bytes(s, s) == 0,
    decreases s.len(),
{
    if s.len() > 0 {
        lemma_bytes_refl(s.subrange(1, s.len() as int));
    }
}

proof fn lemma_bytes_antisym(s: Seq<u8>, t: Seq<u8>)
    ensures
        cmp_bytes(s, t) == -cmp_bytes(t, s),
    decreases s.len(),
{
    if s.len() > 0 && t.len() > 0 {
        lemma_bytes_antisym(s.subrange(1, s.len() as int), t.subrange(1, t.len() as int));
    }
}

proof fn lemma_bytes_trans(s: Seq<u8>, t: Seq<u8>, u: Seq<u8>)
    ensures
        chain(cmp_bytes(s, t), cmp_bytes(t, u), cmp_bytes(s, u)),
    decreases s.len(),
{
    if s.len() > 0 && t.len() > 0 && u.len() > 0 {
        lemma_bytes_trans(
            s.subrange(1, s.len() as int),
            t.subrange(1, t.len() as int),
            u.subrange(1, u.len() as int),
        );
    }
}

/// Every value equals itself.
pub proof fn lemma_cmp_refl(a: SonicSerdeObject)
    ensures
        cmp_value(a, a) == 0,
    decreases a,
{
    match a {
        SonicSerdeObject::Vec(x) => lemma_seq_refl(x@),
        SonicSerdeObject::Mapping(x) => lemma_pairs_refl(x@),
        SonicSerdeObject::Option(x) => {
            if let Option::Some(v) = *x {
                lemma_cmp_refl(v);
            }
        },
        _ => {
            if a.is_byte_like() {
                lemma_bytes_refl(a.leaf_bytes());
            }
        },
    }
}

proof fn lemma_seq_refl(s: Seq<SonicSerdeObject>)
    ensures
        cmp_seq(s, s) == 0,
    decreases s,
{
    if s.len() > 0 {
        lemma_cmp_refl(s[0]);
        lemma_seq_refl(s.subrange(1, s.len() as int));
    }
}

proof fn lemma_pairs_refl(s: Seq<(SonicSerdeObject, SonicSerdeObject)>)
    ensures
        cmp_pairs(s, s) == 0,
    decreases s,
{
    if s.len() > 0 {
        lemma_cmp_refl(s[0].0);
        lemma_cmp_refl(s[0].1);
        lemma_pairs_refl(s.subrange(1, s.len() as int));
    }
}

/// Swapping the operands negates the comparison.
pub proof fn lemma_cmp_antisym(a: SonicSerdeObject, b: SonicSerdeObject)
    ensures
        cmp_value(a, b) == -cmp_value(b, a),
    decreases a,
{
    if a.spec_tag().rank() == b.spec_tag().rank() {
        match a {
            SonicSerdeObject::Vec(x) => {
                if let SonicSerdeObject::Vec(y) = b {
                    lemma_seq_antisym(x@, y@);
                }
            },
            SonicSerdeObject::Mapping(x) => {
                if let SonicSerdeObject::Mapping(y) = b {
                    lemma_pairs_antisym(x@, y@);
                }
            },
            SonicSerdeObject::Option(x) => {
                if let SonicSerdeObject::Option(y) = b {
                    if let Option::Some(xv) = *x {
                        if let Option::Some(yv) = *y {
                            lemma_cmp_antisym(xv, yv);
                        }
                    }
                }
            },
            _ => {
                if a.is_byte_like() {
                    lemma_bytes_antisym(a.leaf_bytes(), b.leaf_bytes());
                }
            },
        }
    }
}

proof fn lemma_seq_antisym(s: Seq<SonicSerdeObject>, t: Seq<SonicSerdeObject>)
    ensures
        cmp_seq(s, t) == -cmp_seq(t, s),
    decreases s,
{
    if s.len() > 0 && t.len() > 0 {
        lemma_cmp_antisym(s[0], t[0]);
        lemma_seq_antisym(s.subrange(1, s.len() as int), t.subrange(1, t.len() as int));
    }
}

proof fn lemma_pairs_antisym(
    s: Seq<(SonicSerdeObject, SonicSerdeObject)>,
    t: Seq<(SonicSerdeObject, SonicSerdeObject)>,
)
    ensures
        cmp_pairs(s, t) == -cmp_pairs(t, s),
    decreases s,
{
    if s.len() > 0 && t.len() > 0 {
        lemma_cmp_antisym(s[0].0, t[0].0);
        lemma_cmp_antisym(s[0].1, t[0].1);
        lemma_pairs_antisym(s.subrange(1, s.len() as int), t.subrange(1, t.len() as int));
    }
}

/// Comparison is transitive, in its strict, non-strict and equal forms.
pub proof fn lemma_cmp_trans(a: SonicSerdeObject, b: SonicSerdeObject, c: SonicSerdeObject)
    ensures
        chain(cmp_value(a, b), cmp_value(b, c), cmp_value(a, c)),
    decreases a,
{
    if a.spec_tag().rank() == b.spec_tag().rank() && b.spec_tag().rank() == c.spec_tag().rank() {
        match a {
            SonicSerdeObject::Vec(x) => {
                if let SonicSerdeObject::Vec(y) = b {
                    if let SonicSerdeObject::Vec(z) = c {
                        lemma_seq_trans(x@, y@, z@);
                    }
                }
            },
            SonicSerdeObject::Mapping(x) => {
                if let SonicSerdeObject::Mapping(y) = b {
                    if let SonicSerdeObject::Mapping(z) = c {
                        lemma_pairs_trans(x@, y@, z@);
                    }
                }
            },
            SonicSerdeObject::Option(x) => {
                if let SonicSerdeObject::Option(y) = b {
                    if let SonicSerdeObject::Option(z) = c {
                        if let Option::Some(xv) = *x {
                            if let Option::Some(yv) = *y {
                                if let Option::Some(zv) = *z {
                                    lemma_cmp_trans(xv, yv, zv);
                                }
                            }
                        }
                    }
                }
            },
            _ => {
                if a.is_byte_like() {
                    lemma_bytes_trans(a.leaf_bytes(), b.leaf_bytes(), c.leaf_bytes());
                }
            },
        }
    }
}

proof fn lemma_seq_trans(
    s: Seq<SonicSerdeObject>,
    t: Seq<SonicSerdeObject>,
    u: Seq<SonicSerdeObject>,
)
    ensures
        chain(cmp_seq(s, t), cmp_seq(t, u), cmp_seq(s, u)),
    decreases s,
{
    if s.len() > 0 && t.len() > 0 && u.len() > 0 {
        lemma_cmp_trans(s[0], t[0], u[0]);
        lemma_seq_trans(
            s.subrange(1, s.len() as int),
            t.subrange(1, t.len() as int),
            u.subrange(1, u.len() as int),
        );
    }
}

proof fn lemma_pairs_trans(
    s: Seq<(SonicSerdeObject, SonicSerdeObject)>,
    t: Seq<(SonicSerdeObject, SonicSerdeObject)>,
    u: Seq<(SonicSerdeObject, SonicSerdeObject)>,
)
    ensures
        chain(cmp_pairs(s, t), cmp_pairs(t, u), cmp_pairs(s, u)),
    decreases s,
{
    if s.len() > 0 && t.len() > 0 && u.len() > 0 {
        lemma_cmp_trans(s[0].0, t[0].0, u[0].0);
        lemma_cmp_trans(s[0].1, t[0].1, u[0].1);
        lemma_pairs_trans(
            s.subrange(1, s.len() as int),
            t.subrange(1, t.len() as int),
            u.subrange(1, u.len() as int),
        );
    }
}

} // verus!
