//! The column order of a form: its field names, ordered by where each name
//! first appears in the submitted JSON text.
use crate::json::strings_view;
use crate::text::find_first;
use crate::text::first_occurrence;
use crate::text::is_first_occurrence;
use crate::text::lemma_first_occurrence;
use crate::text::occurs_in;
use vstd::prelude::*;
use vstd::utf8::encode_utf8;

verus! {

/// The byte offset at which `key` first appears in the UTF-8 encoding of
/// `text`, as `str::find` reports it.
pub open spec fn first_offset(text: Seq<char>, key: Seq<char>) -> int {
    first_occurrence(encode_utf8(text), encode_utf8(key))
}

/// `key` appears somewhere in `text`.
pub open spec fn appears_in(text: Seq<char>, key: Seq<char>) -> bool {
    occurs_in(encode_utf8(text), encode_utf8(key))
}

/// Key `a` of `keys` goes before key `b`: it first appears earlier in `text`,
/// or at the same place and earlier in `keys` (the order is stable).
pub open spec fn goes_before(text: Seq<char>, keys: Seq<Seq<char>>, a: int, b: int) -> bool {
    let pa = first_offset(text, keys[a]);
    let pb = first_offset(text, keys[b]);
    pa < pb || (pa == pb && a < b)
}

/// `order` lists `keys` rearranged by `perm` (`order[i]` is `keys[perm[i]]`),
/// `perm` reaches every key, and it runs through the keys in the
/// `goes_before` order (so it reaches each key once).
pub open spec fn is_order_by(
    text: Seq<char>,
    keys: Seq<Seq<char>>,
    order: Seq<Seq<char>>,
    perm: Seq<int>,
) -> bool {
    &&& perm.len() == keys.len()
    &&& order.len() == keys.len()
    &&& forall|i: int|
        #![trigger perm[i]]
        0 <= i < perm.len() ==> 0 <= perm[i] < keys.len() && order[i] == keys[perm[i]]
    &&& forall|k: int| 0 <= k < keys.len() ==> #[trigger] reaches(perm, k)
    &&& forall|i: int, j: int|
        #![trigger perm[i], perm[j]]
        0 <= i < j < perm.len() ==> goes_before(text, keys, perm[i], perm[j])
}

/// Some position of `perm` holds `k`.
pub open spec fn reaches(perm: Seq<int>, k: int) -> bool {
    exists|i: int| 0 <= i < perm.len() && perm[i] == k
}

spec fn idx_reaches(idx: Seq<usize>, k: int) -> bool {
    exists|a: int| 0 <= a < idx.len() && idx[a] == k
}

/// `order` is `keys` sorted stably by the place where each first appears in `text`.
pub open spec fn is_field_order(
    text: Seq<char>,
    keys: Seq<Seq<char>>,
    order: Seq<Seq<char>>,
) -> bool {
    exists|perm: Seq<int>| is_order_by(text, keys, order, perm)
}

/// Every key of `keys` appears somewhere in `text`.
pub open spec fn all_occur(text: Seq<char>, keys: Seq<Seq<char>>) -> bool {
    forall|k: int| 0 <= k < keys.len() ==> appears_in(text, #[trigger] keys[k])
}

/// The column order names the same fields as the submission: as many, every
/// submitted name, and nothing else.
pub proof fn lemma_field_order_same_names(
    text: Seq<char>,
    keys: Seq<Seq<char>>,
    order: Seq<Seq<char>>,
)
    requires
        is_field_order(text, keys, order),
    ensures
        order.len() == keys.len(),
        forall|k: int| 0 <= k < keys.len() ==> order.contains(#[trigger] keys[k]),
        forall|i: int| 0 <= i < order.len() ==> keys.contains(#[trigger] order[i]),
{
    let p = choose|p: Seq<int>| is_order_by(text, keys, order, p);
    assert forall|k: int| 0 <= k < keys.len() implies order.contains(#[trigger] keys[k]) by {
        assert(reaches(p, k));
        let i = choose|i: int| 0 <= i < p.len() && p[i] == k;
        assert(order[i] == keys[k]);
    };
    assert forall|i: int| 0 <= i < order.len() implies keys.contains(#[trigger] order[i]) by {
        assert(order[i] == keys[p[i]]);
    };
}

/// The column order is determined: the field names and the text allow one
/// order only.
pub proof fn lemma_field_order_unique(
    text: Seq<char>,
    keys: Seq<Seq<char>>,
    order1: Seq<Seq<char>>,
    order2: Seq<Seq<char>>,
)
    requires
        is_field_order(text, keys, order1),
        is_field_order(text, keys, order2),
    ensures
        order1 == order2,
{
    let p1 = choose|p: Seq<int>| is_order_by(text, keys, order1, p);
    let p2 = choose|p: Seq<int>| is_order_by(text, keys, order2, p);
    lemma_perm_unique(text, keys, order1, order2, p1, p2, 0);
    assert forall|m: int| 0 <= m < order1.len() implies order1[m] == order2[m] by {
        assert(p1[m] == p2[m]);
    };
    assert(order1 =~= order2);
}

/// Two arrangements of `keys` in the `goes_before` order agree from position `i` on.
proof fn lemma_perm_unique(
    text: Seq<char>,
    keys: Seq<Seq<char>>,
    order1: Seq<Seq<char>>,
    order2: Seq<Seq<char>>,
    p1: Seq<int>,
    p2: Seq<int>,
    i: int,
)
    requires
        is_order_by(text, keys, order1, p1),
        is_order_by(text, keys, order2, p2),
        0 <= i <= p1.len(),
        forall|m: int| 0 <= m < i ==> p1[m] == p2[m],
    ensures
        forall|m: int| 0 <= m < p1.len() ==> p1[m] == p2[m],
    decreases p1.len() - i,
{
    if i < p1.len() {
        let a = p1[i];
        let b = p2[i];
        if a != b {
            assert(reaches(p1, b));
            assert(reaches(p2, a));
            let i1 = choose|x: int| 0 <= x < p1.len() && p1[x] == b;
            let i2 = choose|x: int| 0 <= x < p2.len() && p2[x] == a;
            if i1 < i {
                assert(p2[i1] == b);
                assert(goes_before(text, keys, p2[i1], p2[i]));
            }
            if i2 < i {
                assert(p1[i2] == a);
                assert(goes_before(text, keys, p1[i2], p1[i]));
            }
            assert(goes_before(text, keys, p1[i], p1[i1]));
            assert(goes_before(text, keys, p2[i], p2[i2]));
            assert(false);
        }
        lemma_perm_unique(text, keys, order1, order2, p1, p2, i + 1);
    }
}

proof fn lemma_first_unique(text: Seq<u8>, pat: Seq<u8>, i: int)
    requires
        is_first_occurrence(text, pat, i),
    ensures
        first_occurrence(text, pat) == i,
{
    lemma_first_occurrence(text, pat, i);
    let f = first_occurrence(text, pat);
    if f < i {
        assert(!crate::text::occurs_at(text, pat, f));
    }
}

/// Orders the field names `keys` by the byte offset at which each first
/// appears in `text` (as `str::find` finds it), keeping the order of `keys`
/// among names that first appear at the same offset.  `None` when some name
/// does not appear in `text` at all.
pub fn order_fields(text: &str, keys: &Vec<String>) -> (r: Option<Vec<String>>)
    ensures
        r is Some <==> all_occur(text@, strings_view(keys@)),
        r matches Some(order) ==> is_field_order(
            text@,
            strings_view(keys@),
            strings_view(order@),
        ),
{
    let ghost ks = strings_view(keys@);
    let tb = text.as_bytes();
    let n = keys.len();
    let mut pos: Vec<usize> = Vec::new();
    for k in 0..n
        invariant
            n == keys@.len(),
            ks == strings_view(keys@),
            tb@ == encode_utf8(text@),
            pos@.len() == k,
            forall|m: int| 0 <= m < k ==> appears_in(text@, #[trigger] ks[m]),
            forall|m: int| 0 <= m < k ==> #[trigger] pos@[m] == first_offset(text@, ks[m]),
    {
        let kb = keys[k].as_str().as_bytes();
        match find_first(tb, kb) {
            Some(p) => {
                proof {
                    lemma_first_unique(encode_utf8(text@), encode_utf8(ks[k as int]), p as int);
                }
                pos.push(p);
            },
            None => {
                assert(!appears_in(text@, ks[k as int]));
                return None;
            },
        }
    }
    // Sort the positions 0..n of `keys` by insertion, stably.
    let mut idx: Vec<usize> = Vec::new();
    for k in 0..n
        invariant
            idx@.len() == k,
            forall|m: int| 0 <= m < k ==> #[trigger] idx@[m] == m,
    {
        idx.push(k);
    }
    assert forall|k: int| 0 <= k < n implies #[trigger] idx_reaches(idx@, k) by {
        assert(idx@[k] == k);
    };
    for i in 0..n
        invariant
            n == keys@.len(),
            ks == strings_view(keys@),
            pos@.len() == n,
            forall|m: int| 0 <= m < n ==> #[trigger] pos@[m] == first_offset(text@, ks[m]),
            idx@.len() == n,
            forall|a: int| #![trigger idx@[a]] 0 <= a < n ==> idx@[a] < n,
            forall|a: int, b: int|
                #![trigger idx@[a], idx@[b]]
                0 <= a < b < n ==> idx@[a] != idx@[b],
            forall|k: int| 0 <= k < n ==> #[trigger] idx_reaches(idx@, k),
            forall|a: int, b: int|
                #![trigger idx@[a], idx@[b]]
                0 <= a < b < i ==> goes_before(text@, ks, idx@[a] as int, idx@[b] as int),
    {
        let mut j = i;
        while j > 0
            invariant
                n == keys@.len(),
                ks == strings_view(keys@),
                pos@.len() == n,
                forall|m: int|
                    0 <= m < n ==> #[trigger] pos@[m] == first_offset(text@, ks[m]),
                i < n,
                j <= i,
                idx@.len() == n,
                forall|a: int| #![trigger idx@[a]] 0 <= a < n ==> idx@[a] < n,
                forall|a: int, b: int|
                    #![trigger idx@[a], idx@[b]]
                    0 <= a < b < n ==> idx@[a] != idx@[b],
                forall|k: int| 0 <= k < n ==> #[trigger] idx_reaches(idx@, k),
                forall|a: int, b: int|
                    #![trigger idx@[a], idx@[b]]
                    0 <= a < b < j ==> goes_before(text@, ks, idx@[a] as int, idx@[b] as int),
                forall|a: int, b: int|
                    #![trigger idx@[a], idx@[b]]
                    j <= a < b <= i ==> goes_before(text@, ks, idx@[a] as int, idx@[b] as int),
                forall|a: int, b: int|
                    #![trigger idx@[a], idx@[b]]
                    0 <= a < j < b <= i ==> goes_before(
                        text@,
                        ks,
                        idx@[a] as int,
                        idx@[b] as int,
                    ),
            ensures
                idx@.len() == n,
                forall|a: int| #![trigger idx@[a]] 0 <= a < n ==> idx@[a] < n,
                forall|a: int, b: int|
                    #![trigger idx@[a], idx@[b]]
                    0 <= a < b < n ==> idx@[a] != idx@[b],
                forall|k: int| 0 <= k < n ==> #[trigger] idx_reaches(idx@, k),
                forall|a: int, b: int|
                    #![trigger idx@[a], idx@[b]]
                    0 <= a < b <= i ==> goes_before(text@, ks, idx@[a] as int, idx@[b] as int),
            decreases j,
        {
            let x = idx[j];
            let y = idx[j - 1];
            let px = pos[x];
            let py = pos[y];
            if py < px || (py == px && y < x) {
                assert(goes_before(text@, ks, y as int, x as int));
                assert forall|a: int, b: int|
                    0 <= a < b <= i implies #[trigger] goes_before(
                        text@,
                        ks,
                        idx@[a] as int,
                        idx@[b] as int,
                    ) by {
                    if b == j && a < j - 1 {
                        assert(goes_before(text@, ks, idx@[a] as int, y as int));
                    }
                };
                break;
            }
            let ghost old_idx = idx@;
            idx.set(j - 1, x);
            idx.set(j, y);
            assert(goes_before(text@, ks, x as int, y as int));
            assert forall|k: int| 0 <= k < n implies #[trigger] idx_reaches(idx@, k) by {
                assert(idx_reaches(old_idx, k));
                let a = choose|a: int| 0 <= a < n && old_idx[a] == k;
                if a == j - 1 {
                    assert(idx@[j as int] == k);
                } else if a == j {
                    assert(idx@[j - 1] == k);
                } else {
                    assert(idx@[a] == k);
                }
            };
            assert forall|a: int, b: int|
                0 <= a < b < n implies #[trigger] idx@[a] != #[trigger] idx@[b] by {
                if a != j - 1 && a != j && b != j - 1 && b != j {
                    assert(old_idx[a] != old_idx[b]);
                } else if a == j - 1 && b == j {
                } else if a == j - 1 {
                    assert(old_idx[j as int] != old_idx[b]);
                } else if a == j {
                    assert(old_idx[j - 1] != old_idx[b]);
                } else if b == j - 1 {
                    assert(old_idx[a] != old_idx[j as int]);
                } else {
                    assert(old_idx[a] != old_idx[j - 1]);
                }
            };
            assert forall|a: int, b: int|
                j - 1 <= a < b <= i implies #[trigger] goes_before(
                    text@,
                    ks,
                    idx@[a] as int,
                    idx@[b] as int,
                ) by {
                if a == j - 1 && b > j {
                    assert(goes_before(text@, ks, old_idx[j as int] as int, old_idx[b] as int));
                } else if a == j && b > j {
                    assert(goes_before(text@, ks, old_idx[j - 1] as int, old_idx[b] as int));
                }
            };
            assert forall|a: int, b: int|
                0 <= a < j - 1 < b <= i implies #[trigger] goes_before(
                    text@,
                    ks,
                    idx@[a] as int,
                    idx@[b] as int,
                ) by {
                if b == j {
                    assert(goes_before(text@, ks, old_idx[a] as int, old_idx[j - 1] as int));
                } else {
                    assert(goes_before(text@, ks, old_idx[a] as int, old_idx[b] as int));
                }
            };
            j = j - 1;
        }
    }
    let mut order: Vec<String> = Vec::new();
    for m in 0..n
        invariant
            n == keys@.len(),
            ks == strings_view(keys@),
            idx@.len() == n,
            forall|a: int| #![trigger idx@[a]] 0 <= a < n ==> idx@[a] < n,
            order@.len() == m,
            forall|a: int| 0 <= a < m ==> #[trigger] order@[a]@ == ks[idx@[a] as int],
    {
        let s = keys[idx[m]].clone();
        order.push(s);
    }
    let ghost perm = idx@.map_values(|v: usize| v as int);
    assert forall|k: int| 0 <= k < n implies #[trigger] reaches(perm, k) by {
        assert(idx_reaches(idx@, k));
        let a = choose|a: int| 0 <= a < n && idx@[a] == k;
        assert(perm[a] == k);
    };
    assert(is_order_by(text@, ks, strings_view(order@), perm));
    Some(order)
}

} // verus!
