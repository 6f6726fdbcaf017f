//! Conversion of the ordered key/value property list into the unique-key
//! props mapping, with last-write-wins on duplicate keys.

use vstd::prelude::*;

use crate::data::{dict_view, Dict};
use crate::settings::lookup_last;

verus! {

/// Whether some pair of `d` carries the key `k`.
pub open spec fn has_key(d: Seq<(Seq<char>, Seq<char>)>, k: Seq<char>) -> bool {
    exists|i: int| 0 <= i < d.len() && d[i].0 == k
}

/// The index of the first pair of `d` whose key is `k`.
pub open spec fn first_index_of_key(d: Seq<(Seq<char>, Seq<char>)>, k: Seq<char>) -> int
    decreases d.len(),
{
    if d.len() == 0 {
        0
    } else if d.first().0 == k {
        0
    } else {
        1 + first_index_of_key(d.drop_first(), k)
    }
}

/// Every key of `d` occurs in exactly one pair.
pub open spec fn unique_keys(d: Seq<(Seq<char>, Seq<char>)>) -> bool {
    forall|i: int, j: int| 0 <= i < j < d.len() ==> d[i].0 != d[j].0
}

/// Inserts `(k, v)` into a unique-key pair list: overwrites the value of the
/// pair already carrying `k`, or appends a new pair.
pub open spec fn upsert(
    acc: Seq<(Seq<char>, Seq<char>)>,
    k: Seq<char>,
    v: Seq<char>,
) -> Seq<(Seq<char>, Seq<char>)> {
    if has_key(acc, k) {
        acc.update(first_index_of_key(acc, k), (k, v))
    } else {
        acc.push((k, v))
    }
}

/// The props mapping an ordered property list converts to: each key kept
/// once, at its first position of occurrence, carrying the value of its last
/// occurrence.
pub open spec fn dedup_props(d: Seq<(Seq<char>, Seq<char>)>) -> Seq<(Seq<char>, Seq<char>)>
    decreases d.len(),
{
    if d.len() == 0 {
        Seq::empty()
    } else {
        upsert(dedup_props(d.drop_last()), d.last().0, d.last().1)
    }
}

proof fn lemma_first_index_of_key(d: Seq<(Seq<char>, Seq<char>)>, k: Seq<char>)
    requires
        has_key(d, k),
    ensures
        0 <= first_index_of_key(d, k) < d.len(),
        d[first_index_of_key(d, k)].0 == k,
        forall|i: int| 0 <= i < first_index_of_key(d, k) ==> d[i].0 != k,
    decreases d.len(),
{
    if d.len() == 0 {
    } else if d.first().0 == k {
    } else {
        assert(has_key(d.drop_first(), k)) by {
            let w = choose|i: int| 0 <= i < d.len() && d[i].0 == k;
            assert(d.drop_first()[w - 1].0 == k);
        }
        lemma_first_index_of_key(d.drop_first(), k);
        let f = first_index_of_key(d, k);
        assert(d[f] == d.drop_first()[f - 1]);
        assert(forall|i: int| 1 <= i < f ==> d[i] == d.drop_first()[i - 1]);
    }
}

/// Last-write-wins: the converted props mapping carries exactly the keys of
/// the input list, each once, and each key's value is the one its last
/// occurrence in the input carried.
pub proof fn lemma_props_last_write_wins(d: Seq<(Seq<char>, Seq<char>)>)
    ensures
        unique_keys(dedup_props(d)),
        forall|k: Seq<char>| has_key(dedup_props(d), k) <==> has_key(d, k),
        forall|i: int|
            0 <= i < dedup_props(d).len() ==> lookup_last(d, dedup_props(d)[i].0) == Some(
                dedup_props(d)[i].1,
            ),
    decreases d.len(),
{
    if d.len() == 0 {
    } else {
        let prev = dedup_props(d.drop_last());
        let k = d.last().0;
        let v = d.last().1;
        let cur = dedup_props(d);
        lemma_props_last_write_wins(d.drop_last());
        if has_key(prev, k) {
            lemma_first_index_of_key(prev, k);
            let f = first_index_of_key(prev, k);
            assert(cur == prev.update(f, (k, v)));
            assert(forall|i: int| 0 <= i < cur.len() ==> cur[i].0 == prev[i].0);
            assert forall|k2: Seq<char>| has_key(cur, k2) implies has_key(d, k2) by {
                let w = choose|i: int| 0 <= i < cur.len() && cur[i].0 == k2;
                assert(prev[w].0 == k2);
                assert(has_key(prev, k2));
                assert(has_key(d.drop_last(), k2));
                let w2 = choose|i: int|
                    0 <= i < d.drop_last().len() && d.drop_last()[i].0 == k2;
                assert(d.drop_last()[w2] == d[w2]);
                assert(d[w2].0 == k2);
            }
            assert forall|k2: Seq<char>| has_key(d, k2) implies has_key(cur, k2) by {
                if k2 == k {
                    assert(cur[f].0 == k2);
                } else {
                    let w = choose|i: int| 0 <= i < d.len() && d[i].0 == k2;
                    assert(w < d.len() - 1);
                    assert(d.drop_last()[w] == d[w]);
                    assert(has_key(d.drop_last(), k2));
                    assert(has_key(prev, k2));
                    let w2 = choose|i: int| 0 <= i < prev.len() && prev[i].0 == k2;
                    assert(cur[w2].0 == k2);
                }
            }
            assert forall|i: int| 0 <= i < cur.len() implies lookup_last(d, cur[i].0) == Some(
                cur[i].1,
            ) by {
                if i == f {
                    assert(lookup_last(d, k) == Some(v));
                } else {
                    assert(cur[i] == prev[i]);
                    assert(cur[i].0 != k);
                    assert(lookup_last(d, cur[i].0) == lookup_last(d.drop_last(), cur[i].0));
                }
            }
        } else {
            assert(cur == prev.push((k, v)));
            assert forall|k2: Seq<char>| has_key(cur, k2) implies has_key(d, k2) by {
                let w = choose|i: int| 0 <= i < cur.len() && cur[i].0 == k2;
                if w == prev.len() {
                    assert(d.last().0 == k2);
                } else {
                    assert(prev[w].0 == k2);
                    assert(has_key(prev, k2));
                    assert(has_key(d.drop_last(), k2));
                    let w2 = choose|i: int|
                        0 <= i < d.drop_last().len() && d.drop_last()[i].0 == k2;
                    assert(d.drop_last()[w2] == d[w2]);
                    assert(d[w2].0 == k2);
                }
            }
            assert forall|k2: Seq<char>| has_key(d, k2) implies has_key(cur, k2) by {
                if k2 == k {
                    assert(cur[prev.len() as int].0 == k2);
                } else {
                    let w = choose|i: int| 0 <= i < d.len() && d[i].0 == k2;
                    assert(w < d.len() - 1);
                    assert(d.drop_last()[w] == d[w]);
                    assert(has_key(d.drop_last(), k2));
                    assert(has_key(prev, k2));
                    let w2 = choose|i: int| 0 <= i < prev.len() && prev[i].0 == k2;
                    assert(cur[w2].0 == k2);
                }
            }
            assert(unique_keys(cur)) by {
                assert forall|i: int, j: int| 0 <= i < j < cur.len() implies cur[i].0
                    != cur[j].0 by {
                    if j == prev.len() {
                        assert(cur[i] == prev[i]);
                        assert(!has_key(prev, k));
                        assert(cur[i].0 != k);
                    }
                }
            }
            assert forall|i: int| 0 <= i < cur.len() implies lookup_last(d, cur[i].0) == Some(
                cur[i].1,
            ) by {
                if i == prev.len() {
                    assert(lookup_last(d, k) == Some(v));
                } else {
                    assert(cur[i] == prev[i]);
                    assert(!has_key(prev, k));
                    assert(cur[i].0 != k);
                    assert(lookup_last(d, cur[i].0) == lookup_last(d.drop_last(), cur[i].0));
                }
            }
        }
    }
}

/// Converts the ordered property list into the unique-key props mapping,
/// later occurrences of a key overwriting earlier ones.
pub fn convert_props(props: Dict) -> (r: Dict)
    ensures
        dict_view(r@) == dedup_props(dict_view(props@)),
{
    let ghost pv = dict_view(props@);
    let mut out: Dict = Vec::new();
    let mut i: usize = 0;
    while i < props.len()
        invariant
            i <= props.len(),
            pv == dict_view(props@),
            pv.len() == props@.len(),
            forall|j: int| 0 <= j < pv.len() ==> pv[j] == (props@[j].0@, props@[j].1@),
            forall|j: int| 0 <= j < out@.len() ==> dict_view(out@)[j] == (
                out@[j].0@,
                out@[j].1@,
            ),
            dict_view(out@) == dedup_props(pv.subrange(0, i as int)),
        decreases props.len() - i,
    {
        proof {
            assert(pv.subrange(0, i + 1).drop_last() =~= pv.subrange(0, i as int));
            assert(pv.subrange(0, i + 1).last() == pv[i as int]);
        }
        let ghost acc = dict_view(out@);
        let ghost k = pv[i as int].0;
        let key = props[i].0.clone();
        let val = props[i].1.clone();
        let mut found: bool = false;
        let mut j: usize = 0;
        while j < out.len() && !found
            invariant
                j <= out.len(),
                acc == dict_view(out@),
                acc.len() == out@.len(),
                forall|m: int| 0 <= m < out@.len() ==> acc[m] == (out@[m].0@, out@[m].1@),
                key@ == k,
                !found ==> forall|m: int| 0 <= m < j ==> acc[m].0 != k,
                found ==> j < out.len() && has_key(acc, k) && j == first_index_of_key(acc, k),
                found ==> out@[j as int].0@ == k,
            decreases out.len() - j + if found {
                0int
            } else {
                1int
            },
        {
            if out[j].0 == key {
                found = true;
                proof {
                    assert(acc[j as int].0 == k);
                    lemma_first_index_from_witness(acc, k, j as int);
                }
            } else {
                j += 1;
            }
        }
        if found {
            let ghost old_out = out@;
            out[j].1 = val;
            proof {
                assert(dict_view(out@) =~= acc.update(j as int, (k, pv[i as int].1)));
                assert(dict_view(out@) == upsert(acc, k, pv[i as int].1));
            }
        } else {
            proof {
                assert(!has_key(acc, k));
            }
            out.push((key, val));
            proof {
                assert(dict_view(out@) =~= acc.push((k, pv[i as int].1)));
            }
        }
        i += 1;
    }
    proof {
        assert(pv.subrange(0, props@.len() as int) =~= pv);
    }
    out
}

proof fn lemma_first_index_from_witness(d: Seq<(Seq<char>, Seq<char>)>, k: Seq<char>, w: int)
    requires
        0 <= w < d.len(),
        d[w].0 == k,
        forall|m: int| 0 <= m < w ==> d[m].0 != k,
    ensures
        has_key(d, k),
        first_index_of_key(d, k) == w,
    decreases d.len(),
{
    if d.first().0 == k {
        assert(w == 0);
    } else {
        assert(d.drop_first()[w - 1].0 == k);
        assert(forall|m: int| 0 <= m < w - 1 ==> d.drop_first()[m] == d[m + 1]);
        lemma_first_index_from_witness(d.drop_first(), k, w - 1);
    }
}

} // verus!
