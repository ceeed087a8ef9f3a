use vstd::prelude::*;

verus! {

/// The abstract contents of a list of owned strings.
pub open spec fn views(s: Seq<String>) -> Seq<Seq<char>> {
    s.map_values(|x: String| x@)
}

/// Lexicographic order on character sequences, starting at position `i`,
/// with characters ordered by code point (the order of `str`'s `<`).
pub open spec fn precedes_from(a: Seq<char>, b: Seq<char>, i: int) -> bool
    decreases a.len() - i,
{
    if i >= a.len() {
        i < b.len()
    } else if i >= b.len() {
        false
    } else if a[i] != b[i] {
        (a[i] as int) < (b[i] as int)
    } else {
        precedes_from(a, b, i + 1)
    }
}

/// `a` sorts strictly before `b`.
pub open spec fn text_precedes(a: Seq<char>, b: Seq<char>) -> bool {
    precedes_from(a, b, 0)
}

/// Every element sorts strictly before every later element.
pub open spec fn strictly_increasing(s: Seq<Seq<char>>) -> bool {
    forall|i: int, j: int| 0 <= i < j < s.len() ==> text_precedes(#[trigger] s[i], #[trigger] s[j])
}

proof fn lemma_precedes_from_irreflexive(a: Seq<char>, i: int)
    requires
        0 <= i,
    ensures
        !precedes_from(a, a, i),
    decreases a.len() - i,
{
    if i < a.len() {
        lemma_precedes_from_irreflexive(a, i + 1);
    }
}

proof fn lemma_precedes_from_transitive(a: Seq<char>, b: Seq<char>, c: Seq<char>, i: int)
    requires
        0 <= i,
        precedes_from(a, b, i),
        precedes_from(b, c, i),
    ensures
        precedes_from(a, c, i),
    decreases a.len() - i,
{
    if i < a.len() && i < b.len() && i < c.len() && a[i] == b[i] && b[i] == c[i] {
        lemma_precedes_from_transitive(a, b, c, i + 1);
    }
}

proof fn lemma_precedes_from_total(a: Seq<char>, b: Seq<char>, i: int)
    requires
        0 <= i <= a.len(),
        i <= b.len(),
        forall|j: int| 0 <= j < i ==> a[j] == b[j],
        !precedes_from(a, b, i),
        !precedes_from(b, a, i),
    ensures
        a == b,
    decreases a.len() - i,
{
    if i < a.len() && i < b.len() {
        if a[i] == b[i] {
            lemma_precedes_from_total(a, b, i + 1);
        } else {
            assert((a[i] as int) != (b[i] as int));
        }
    } else {
        assert(a =~= b);
    }
}

/// The text order is a strict total order: irreflexive, transitive, and
/// any two different texts are ordered one way or the other.
pub proof fn lemma_text_order(a: Seq<char>, b: Seq<char>, c: Seq<char>)
    ensures
        !text_precedes(a, a),
        text_precedes(a, b) && text_precedes(b, c) ==> text_precedes(a, c),
        a != b ==> text_precedes(a, b) || text_precedes(b, a),
        text_precedes(a, b) ==> !text_precedes(b, a),
{
    lemma_precedes_from_irreflexive(a, 0);
    if text_precedes(a, b) && text_precedes(b, c) {
        lemma_precedes_from_transitive(a, b, c, 0);
    }
    if a != b && !text_precedes(a, b) && !text_precedes(b, a) {
        lemma_precedes_from_total(a, b, 0);
    }
    if text_precedes(a, b) && text_precedes(b, a) {
        lemma_precedes_from_transitive(a, b, a, 0);
    }
}

/// Whether `a` sorts strictly before `b`.
pub fn precedes(a: &str, b: &str) -> (r: bool)
    ensures
        r == text_precedes(a@, b@),
{
    let a_len = a.unicode_len();
    let b_len = b.unicode_len();
    let mut i: usize = 0;
    while i < a_len && i < b_len
        invariant
            a_len == a@.len(),
            b_len == b@.len(),
            i <= a_len,
            i <= b_len,
            precedes_from(a@, b@, 0) == precedes_from(a@, b@, i as int),
        decreases a_len - i,
    {
        let ca = a.get_char(i);
        let cb = b.get_char(i);
        if ca != cb {
            return (ca as u32) < (cb as u32);
        }
        i = i + 1;
    }
    i < b_len && i >= a_len
}

/// Whether two texts are equal.
pub fn same_text(a: &str, b: &str) -> (r: bool)
    ensures
        r == (a@ == b@),
{
    let a_len = a.unicode_len();
    let b_len = b.unicode_len();
    if a_len != b_len {
        return false;
    }
    let mut i: usize = 0;
    while i < a_len
        invariant
            a_len == a@.len(),
            b_len == b@.len(),
            a_len == b_len,
            i <= a_len,
            forall|j: int| 0 <= j < i ==> a@[j] == b@[j],
        decreases a_len - i,
    {
        if a.get_char(i) != b.get_char(i) {
            return false;
        }
        i = i + 1;
    }
    assert(a@ =~= b@);
    true
}

/// Whether `text` occurs among `list`.
pub fn list_contains(list: &Vec<String>, text: &str) -> (r: bool)
    ensures
        r == views(list@).contains(text@),
{
    let mut i: usize = 0;
    while i < list.len()
        invariant
            i <= list.len(),
            forall|j: int| 0 <= j < i ==> list@[j]@ != text@,
        decreases list.len() - i,
    {
        if same_text(list[i].as_str(), text) {
            assert(views(list@)[i as int] == text@);
            return true;
        }
        i = i + 1;
    }
    proof {
        if views(list@).contains(text@) {
            let k = choose|k: int| 0 <= k < views(list@).len() && views(list@)[k] == text@;
            assert(list@[k]@ == text@);
        }
    }
    false
}

/// Adds `text` to a strictly increasing list of texts, keeping it strictly
/// increasing and leaving it unchanged when `text` is already present.
pub fn insert_sorted(list: &mut Vec<String>, text: String)
    requires
        strictly_increasing(views(old(list)@)),
    ensures
        strictly_increasing(views(final(list)@)),
        forall|x: Seq<char>|
            views(final(list)@).contains(x) <==> (views(old(list)@).contains(x) || x == text@),
{
    let mut p: usize = 0;
    while p < list.len() && precedes(list[p].as_str(), text.as_str())
        invariant
            p <= list.len(),
            forall|k: int| 0 <= k < p ==> text_precedes(#[trigger] list@[k]@, text@),
        decreases list.len() - p,
    {
        p = p + 1;
    }
    let ghost before = views(list@);
    if p < list.len() && same_text(list[p].as_str(), text.as_str()) {
        proof {
            assert(before[p as int] == text@);
            assert forall|x: Seq<char>| before.contains(x) || x == text@ implies before.contains(x) by {
                if x == text@ {
                    assert(before[p as int] == x);
                }
            }
        }
        return;
    }
    proof {
        if p < list.len() {
            lemma_text_order(list@[p as int]@, text@, text@);
        }
    }
    list.insert(p, text);
    proof {
        let after = views(list@);
        assert(after.len() == before.len() + 1);
        assert forall|k: int| 0 <= k < after.len() implies #[trigger] after[k] == (if k < p {
            before[k]
        } else if k == p {
            text@
        } else {
            before[k - 1]
        }) by {}
        assert forall|i: int, j: int| 0 <= i < j < after.len() implies text_precedes(
            #[trigger] after[i],
            #[trigger] after[j],
        ) by {
            if j < p {
                assert(text_precedes(before[i], before[j]));
            } else if j == p {
                assert(text_precedes(list@[i]@, text@));
            } else if i < p {
                assert(text_precedes(before[i], text@));
                lemma_text_order(before[p as int], text@, text@);
                if j - 1 > p {
                    assert(text_precedes(before[p as int], before[j - 1]));
                    lemma_text_order(text@, before[p as int], before[j - 1]);
                }
                lemma_text_order(before[i], text@, before[j - 1]);
            } else if i == p {
                lemma_text_order(before[p as int], text@, text@);
                if j - 1 > p {
                    assert(text_precedes(before[p as int], before[j - 1]));
                    lemma_text_order(text@, before[p as int], before[j - 1]);
                }
            } else {
                assert(text_precedes(before[i - 1], before[j - 1]));
            }
        }
        assert forall|x: Seq<char>| after.contains(x) <==> (before.contains(x) || x == text@) by {
            if after.contains(x) {
                let k = choose|k: int| 0 <= k < after.len() && after[k] == x;
                if k < p {
                    assert(before[k] == x);
                } else if k > p {
                    assert(before[k - 1] == x);
                }
            }
            if before.contains(x) {
                let k = choose|k: int| 0 <= k < before.len() && before[k] == x;
                if k < p {
                    assert(after[k] == x);
                } else {
                    assert(after[k + 1] == x);
                }
            }
            if x == text@ {
                assert(after[p as int] == x);
            }
        }
    }
}

/// Keeps the texts of a strictly increasing `list` that are (when `keep_present`)
/// or are not (otherwise) in `other`, in their original order.
pub fn sorted_filter_by_membership(
    list: &Vec<String>,
    other: &Vec<String>,
    keep_present: bool,
) -> (kept: Vec<String>)
    requires
        strictly_increasing(views(list@)),
    ensures
        strictly_increasing(views(kept@)),
        forall|x: Seq<char>|
            views(kept@).contains(x) <==> (views(list@).contains(x) && views(other@).contains(x)
                == keep_present),
{
    let mut kept: Vec<String> = Vec::new();
    let mut i: usize = 0;
    while i < list.len()
        invariant
            i <= list@.len(),
            strictly_increasing(views(list@)),
            strictly_increasing(views(kept@)),
            forall|k: int, j: int|
                0 <= k < kept@.len() && i <= j < list@.len() ==> text_precedes(
                    #[trigger] views(kept@)[k],
                    #[trigger] views(list@)[j],
                ),
            forall|x: Seq<char>|
                views(kept@).contains(x) <==> (views(list@).take(i as int).contains(x) && views(
                    other@,
                ).contains(x) == keep_present),
        decreases list@.len() - i,
    {
        let ghost prev = views(kept@);
        let ghost list_view = views(list@);
        let keep = list_contains(other, list[i].as_str()) == keep_present;
        if keep {
            kept.push(list[i].clone());
        }
        proof {
            let now = views(kept@);
            let item = list_view[i as int];
            if keep {
                assert(now =~= prev.push(item));
            } else {
                assert(now =~= prev);
            }
            assert(list_view.take(i + 1) =~= list_view.take(i as int).push(item));
            assert forall|k: int, j: int|
                0 <= k < now.len() && i + 1 <= j < list_view.len() implies text_precedes(
                #[trigger] now[k],
                #[trigger] list_view[j],
            ) by {
                if k < prev.len() {
                    assert(text_precedes(prev[k], list_view[j]));
                } else {
                    assert(text_precedes(list_view[i as int], list_view[j]));
                }
            }
            assert forall|a: int, b: int| 0 <= a < b < now.len() implies text_precedes(
                #[trigger] now[a],
                #[trigger] now[b],
            ) by {
                if b < prev.len() {
                    assert(text_precedes(prev[a], prev[b]));
                } else {
                    assert(text_precedes(prev[a], list_view[i as int]));
                }
            }
            assert forall|x: Seq<char>| #[trigger] now.contains(x) <==> (prev.contains(x) || (keep
                && x == item)) by {
                if now.contains(x) {
                    let k = choose|k: int| 0 <= k < now.len() && now[k] == x;
                    if k < prev.len() {
                        assert(prev[k] == x);
                    }
                }
                if prev.contains(x) {
                    let k = choose|k: int| 0 <= k < prev.len() && prev[k] == x;
                    assert(now[k] == x);
                }
                if keep && x == item {
                    assert(now[prev.len() as int] == x);
                }
            }
            assert forall|x: Seq<char>| #[trigger] list_view.take(i + 1).contains(x) <==> (
            list_view.take(i as int).contains(x) || x == item) by {
                let t0 = list_view.take(i as int);
                let t1 = list_view.take(i + 1);
                if t1.contains(x) {
                    let k = choose|k: int| 0 <= k < t1.len() && t1[k] == x;
                    if k < i {
                        assert(t0[k] == x);
                    }
                }
                if t0.contains(x) {
                    let k = choose|k: int| 0 <= k < t0.len() && t0[k] == x;
                    assert(t1[k] == x);
                }
                if x == item {
                    assert(t1[i as int] == x);
                }
            }
        }
        i = i + 1;
    }
    proof {
        assert(views(list@).take(list@.len() as int) =~= views(list@));
    }
    kept
}

/// A strictly increasing list holds each text once, so it has as many
/// elements as the set of texts it holds.
pub proof fn lemma_increasing_len(s: Seq<Seq<char>>, set: Set<Seq<char>>)
    requires
        strictly_increasing(s),
        forall|x: Seq<char>| s.contains(x) <==> set.contains(x),
    ensures
        s.to_set() == set,
        s.len() == set.len(),
        s.no_duplicates(),
{
    assert forall|i: int, j: int| 0 <= i < s.len() && 0 <= j < s.len() && i != j implies s[i]
        != s[j] by {
        if i < j {
            assert(text_precedes(s[i], s[j]));
            lemma_text_order(s[i], s[j], s[j]);
        } else {
            assert(text_precedes(s[j], s[i]));
            lemma_text_order(s[j], s[i], s[i]);
        }
    }
    assert(s.to_set() =~= set);
    s.unique_seq_to_set();
}

/// Two strictly increasing lists that hold the same texts are identical.
pub proof fn lemma_increasing_unique(s: Seq<Seq<char>>, t: Seq<Seq<char>>)
    requires
        strictly_increasing(s),
        strictly_increasing(t),
        forall|x: Seq<char>| s.contains(x) <==> t.contains(x),
    ensures
        s == t,
    decreases s.len(),
{
    if s.len() > 0 && t.len() > 0 {
        let a = s[0];
        let b = t[0];
        assert(t.contains(a));
        assert(s.contains(b));
        let ka = choose|k: int| 0 <= k < t.len() && t[k] == a;
        let kb = choose|k: int| 0 <= k < s.len() && s[k] == b;
        if ka > 0 {
            assert(text_precedes(t[0], t[ka]));
        }
        if kb > 0 {
            assert(text_precedes(s[0], s[kb]));
        }
        if a != b {
            lemma_text_order(a, b, a);
            assert(false);
        }
        let s1 = s.drop_first();
        let t1 = t.drop_first();
        assert forall|x: Seq<char>| s1.contains(x) <==> t1.contains(x) by {
            if s1.contains(x) {
                let k = choose|k: int| 0 <= k < s1.len() && s1[k] == x;
                assert(text_precedes(s[0], s[k + 1]));
                lemma_text_order(x, x, x);
                assert(t.contains(x));
                let m = choose|m: int| 0 <= m < t.len() && t[m] == x;
                assert(m != 0);
                assert(t1[m - 1] == x);
            }
            if t1.contains(x) {
                let k = choose|k: int| 0 <= k < t1.len() && t1[k] == x;
                assert(text_precedes(t[0], t[k + 1]));
                lemma_text_order(x, x, x);
                assert(s.contains(x));
                let m = choose|m: int| 0 <= m < s.len() && s[m] == x;
                assert(m != 0);
                assert(s1[m - 1] == x);
            }
        }
        lemma_increasing_unique(s1, t1);
        assert(s =~= t1.insert(0, a));
        assert(t =~= t1.insert(0, a));
    } else if s.len() > 0 {
        assert(t.contains(s[0]));
    } else if t.len() > 0 {
        assert(s.contains(t[0]));
    } else {
        assert(s =~= t);
    }
}

} // verus!
