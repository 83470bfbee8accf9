use vstd::prelude::*;
use crate::config::ResolvedConfig;

verus! {

/// Lexicographic order of character sequences by code point (the order of
/// `String` comparison).
pub open spec fn lex_less(a: Seq<char>, b: Seq<char>) -> bool
    decreases a.len(),
{
    if a.len() == 0 {
        b.len() > 0
    } else if b.len() == 0 {
        false
    } else if a[0] != b[0] {
        a[0] < b[0]
    } else {
        lex_less(a.drop_first(), b.drop_first())
    }
}

proof fn lemma_lex_total(a: Seq<char>, b: Seq<char>)
    requires
        a != b,
        !lex_less(a, b),
    ensures
        lex_less(b, a),
    decreases a.len(),
{
    if a.len() > 0 && b.len() > 0 && a[0] == b[0] {
        if a.drop_first() == b.drop_first() {
            assert(a =~= seq![a[0]] + a.drop_first());
            assert(b =~= seq![b[0]] + b.drop_first());
        }
        lemma_lex_total(a.drop_first(), b.drop_first());
    } else if a.len() > 0 && b.len() > 0 {
        assert(a[0] != b[0]);
    } else if a.len() == 0 && b.len() == 0 {
        assert(a =~= b);
    }
}

proof fn lemma_count_absent(cs: Seq<ResolvedConfig>, c: Seq<char>, keys: Seq<Seq<char>>)
    requires
        forall|q: int| 0 <= q < cs.len() ==> keys.contains(#[trigger] cs[q].category@),
        !keys.contains(c),
    ensures
        category_count(cs, c) == 0,
    decreases cs.len(),
{
    if cs.len() > 0 {
        assert(keys.contains(cs[cs.len() - 1].category@));
        assert forall|q: int| 0 <= q < cs.drop_last().len() implies keys.contains(
            #[trigger] cs.drop_last()[q].category@,
        ) by {
            assert(cs.drop_last()[q] == cs[q]);
        }
        lemma_count_absent(cs.drop_last(), c, keys);
    }
}

fn lex_less_exec(a: &str, b: &str) -> (r: bool)
    ensures
        r == lex_less(a@, b@),
{
    let na = a.unicode_len();
    let nb = b.unicode_len();
    let mut i: usize = 0;
    assert(a@.skip(0) =~= a@);
    assert(b@.skip(0) =~= b@);
    while i < na && i < nb
        invariant
            na == a@.len(),
            nb == b@.len(),
            i <= na,
            i <= nb,
            lex_less(a@, b@) == lex_less(a@.skip(i as int), b@.skip(i as int)),
        decreases na - i,
    {
        let ca = a.get_char(i);
        let cb = b.get_char(i);
        assert(a@.skip(i as int)[0] == ca);
        assert(b@.skip(i as int)[0] == cb);
        if ca != cb {
            return ca < cb;
        }
        assert(a@.skip(i as int).drop_first() =~= a@.skip(i + 1));
        assert(b@.skip(i as int).drop_first() =~= b@.skip(i + 1));
        i = i + 1;
    }
    i < nb
}

/// How many entries of `cs` carry the category `c`.
pub open spec fn category_count(cs: Seq<ResolvedConfig>, c: Seq<char>) -> nat
    decreases cs.len(),
{
    if cs.len() == 0 {
        0
    } else {
        category_count(cs.drop_last(), c) + if cs.last().category@ == c {
            1nat
        } else {
            0nat
        }
    }
}

/// A category and the number of entries in it.
pub struct CategoryCount {
    pub name: String,
    pub count: usize,
}

/// Whether `keys`/`counts` list the categories of `cs` once each, in
/// increasing order, with their numbers of entries.
pub open spec fn is_tally(keys: Seq<Seq<char>>, counts: Seq<int>, cs: Seq<ResolvedConfig>) -> bool {
    &&& keys.len() == counts.len()
    &&& forall|k: int| 0 <= k < keys.len() - 1 ==> lex_less(#[trigger] keys[k], keys[k + 1])
    &&& forall|k: int, l: int| 0 <= k < l < keys.len() ==> keys[k] != keys[l]
    &&& forall|k: int|
        0 <= k < keys.len() ==> #[trigger] counts[k] == category_count(cs, keys[k]) && counts[k] > 0
    &&& forall|q: int| 0 <= q < cs.len() ==> keys.contains(#[trigger] cs[q].category@)
}

/// The categories of the entries, each once, in increasing order, with the
/// number of entries in each.
pub fn count_categories(configs: &Vec<ResolvedConfig>) -> (r: Vec<CategoryCount>)
    ensures
        is_tally(
            r@.map_values(|c: CategoryCount| c.name@),
            r@.map_values(|c: CategoryCount| c.count as int),
            configs@,
        ),
{
    let mut keys: Vec<String> = Vec::new();
    let mut counts: Vec<usize> = Vec::new();
    let mut i: usize = 0;
    while i < configs.len()
        invariant
            i <= configs@.len(),
            keys@.len() == counts@.len(),
            forall|k: int| 0 <= k < counts@.len() ==> #[trigger] counts@[k] <= i,
            is_tally(
                keys@.map_values(|s: String| s@),
                counts@.map_values(|n: usize| n as int),
                configs@.subrange(0, i as int),
            ),
        decreases configs@.len() - i,
    {
        let ghost pre = configs@.subrange(0, i as int);
        let ghost post = configs@.subrange(0, i + 1);
        assert(post.drop_last() =~= pre);
        let cat = &configs[i].category;
        let ghost kv = keys@.map_values(|s: String| s@);
        let ghost cv = counts@.map_values(|n: usize| n as int);
        proof {
            assert forall|c: Seq<char>| category_count(post, c) == category_count(pre, c) + (if c
                == cat@ {
                1nat
            } else {
                0nat
            }) by {
                assert(post.last() == configs@[i as int]);
            }
        }
        // Look for the category among the keys.
        let mut j: usize = 0;
        let mut found = false;
        while j < keys.len() && !found
            invariant
                j <= keys@.len(),
                keys@.len() == counts@.len(),
                found ==> j < keys@.len() && keys@[j as int]@ == cat@,
                !found ==> forall|q: int| 0 <= q < j ==> keys@[q]@ != cat@,
            decreases keys@.len() - j + (if found { 0int } else { 1 }),
        {
            if keys[j].eq(cat) {
                found = true;
            } else {
                j = j + 1;
            }
        }
        if found {
            counts[j] = counts[j] + 1;
            proof {
                let kv2 = keys@.map_values(|s: String| s@);
                let cv2 = counts@.map_values(|n: usize| n as int);
                assert(kv2 =~= kv);
                assert(cv2 =~= cv.update(j as int, cv[j as int] + 1));
                assert forall|q: int| 0 <= q < post.len() implies kv2.contains(
                    #[trigger] post[q].category@,
                ) by {
                    if q < i {
                        assert(post[q] == pre[q]);
                    } else {
                        assert(kv2[j as int] == cat@);
                    }
                }
                assert forall|k: int| 0 <= k < kv2.len() implies #[trigger] cv2[k]
                    == category_count(post, kv2[k]) && cv2[k] > 0 by {
                    if k != j {
                        assert(kv[k] != kv[j as int]);
                    }
                }
                assert(is_tally(kv2, cv2, post));
            }
        } else {
            let mut p: usize = 0;
            while p < keys.len() && !lex_less_exec(cat.as_str(), keys[p].as_str())
                invariant
                    p <= keys@.len(),
                    forall|q: int| 0 <= q < p ==> !lex_less(cat@, (#[trigger] keys@[q])@),
                decreases keys@.len() - p,
            {
                p = p + 1;
            }
            proof {
                lemma_count_absent(pre, cat@, kv);
            }
            keys.insert(p, cat.clone());
            counts.insert(p, 1);
            proof {
                let kv2 = keys@.map_values(|s: String| s@);
                let cv2 = counts@.map_values(|n: usize| n as int);
                assert(kv2 =~= kv.insert(p as int, cat@));
                assert(cv2 =~= cv.insert(p as int, 1));
                assert forall|k: int| 0 <= k < kv2.len() - 1 implies lex_less(
                    #[trigger] kv2[k],
                    kv2[k + 1],
                ) by {
                    if k == p - 1 {
                        assert(kv[k] != cat@);
                        lemma_lex_total(cat@, kv[k]);
                    } else if k < p - 1 {
                        assert(lex_less(kv[k], kv[k + 1]));
                    } else if k > p {
                        assert(lex_less(kv[k - 1], kv[k]));
                    }
                }
                assert forall|k: int, l: int| 0 <= k < l < kv2.len() implies kv2[k] != kv2[l] by {
                    if k < p && l > p {
                        assert(kv[k] != kv[l - 1]);
                    } else if k > p {
                        assert(kv[k - 1] != kv[l - 1]);
                    } else if l < p {
                        assert(kv[k] != kv[l]);
                    } else if k == p {
                        assert(kv[l - 1] != cat@);
                    } else {
                        assert(kv[k] != cat@);
                    }
                }
                assert forall|q: int| 0 <= q < post.len() implies kv2.contains(
                    #[trigger] post[q].category@,
                ) by {
                    if q < i {
                        assert(post[q] == pre[q]);
                        let w = choose|w: int| 0 <= w < kv.len() && kv[w] == pre[q].category@;
                        if w < p {
                            assert(kv2[w] == kv[w]);
                        } else {
                            assert(kv2[w + 1] == kv[w]);
                        }
                    } else {
                        assert(kv2[p as int] == cat@);
                    }
                }
                assert forall|k: int| 0 <= k < kv2.len() implies #[trigger] cv2[k]
                    == category_count(post, kv2[k]) && cv2[k] > 0 by {
                    if k < p {
                        assert(kv[k] != cat@);
                    } else if k > p {
                        assert(kv[k - 1] != cat@);
                    }
                }
                assert(is_tally(kv2, cv2, post));
            }
        }
        i = i + 1;
    }
    let mut out: Vec<CategoryCount> = Vec::new();
    let mut k: usize = 0;
    while k < keys.len()
        invariant
            k <= keys@.len(),
            keys@.len() == counts@.len(),
            out@.len() == k,
            forall|q: int|
                0 <= q < k ==> (#[trigger] out@[q]).name@ == keys@[q]@ && out@[q].count
                    == counts@[q],
        decreases keys@.len() - k,
    {
        out.push(CategoryCount { name: keys[k].clone(), count: counts[k] });
        k = k + 1;
    }
    assert(configs@.subrange(0, i as int) =~= configs@);
    assert(out@.map_values(|c: CategoryCount| c.name@) =~= keys@.map_values(|s: String| s@));
    assert(out@.map_values(|c: CategoryCount| c.count as int) =~= counts@.map_values(
        |n: usize| n as int,
    ));
    out
}

} // verus!
