//! Lists of names (packages, labels, time zones): looking a name up and
//! adding names without repeating one.

use crate::text::{comes_first, str_eq, str_texts, text_lt, texts, to_chars};
use vstd::prelude::*;

verus! {

/// The index of the first element of `list` that equals `value`.
pub open spec fn index_of(list: Seq<Seq<char>>, value: Seq<char>) -> Option<int>
    decreases list.len(),
{
    if list.len() == 0 {
        None
    } else {
        match index_of(list.drop_last(), value) {
            Some(i) => Some(i),
            None => if list.last() == value {
                Some(list.len() - 1)
            } else {
                None
            },
        }
    }
}

/// What `index_of` returns is the least index that holds `value`, and `None`
/// exactly where no index does.
pub proof fn lemma_index_of(list: Seq<Seq<char>>, value: Seq<char>)
    ensures
        match index_of(list, value) {
            Some(i) => 0 <= i < list.len() && list[i] == value && forall|j: int|
                0 <= j < i ==> list[j] != value,
            None => !list.contains(value),
        },
    decreases list.len(),
{
    if list.len() > 0 {
        let front = list.drop_last();
        lemma_index_of(front, value);
        match index_of(front, value) {
            Some(i) => {
                assert forall|j: int| 0 <= j < i implies list[j] != value by {
                    assert(front[j] == list[j]);
                }
            },
            None => {
                if list.last() == value {
                    assert forall|j: int| 0 <= j < list.len() - 1 implies list[j] != value by {
                        assert(front[j] == list[j]);
                    }
                } else {
                    assert forall|j: int| 0 <= j < list.len() implies list[j] != value by {
                        if j < list.len() - 1 {
                            assert(front[j] == list[j]);
                        }
                    }
                }
            },
        }
    }
}

/// `target` followed by those of `values` that it does not hold yet, each once.
pub open spec fn extend_unique(target: Seq<Seq<char>>, values: Seq<Seq<char>>) -> Seq<Seq<char>>
    decreases values.len(),
{
    if values.len() == 0 {
        target
    } else {
        let t = extend_unique(target, values.drop_last());
        if t.contains(values.last()) {
            t
        } else {
            t.push(values.last())
        }
    }
}

/// `list` without repeated elements: of equal elements the first stays.
pub open spec fn dedup(list: Seq<Seq<char>>) -> Seq<Seq<char>> {
    extend_unique(Seq::empty(), list)
}

/// Extending keeps `target` in front, holds every value, holds nothing
/// else, and repeats nothing that `target` did not repeat.
pub proof fn lemma_extend_unique(target: Seq<Seq<char>>, values: Seq<Seq<char>>)
    ensures
        target.is_prefix_of(extend_unique(target, values)),
        forall|x: Seq<char>| #[trigger]
            extend_unique(target, values).contains(x) <==> target.contains(x) || values.contains(x),
        target.no_duplicates() ==> extend_unique(target, values).no_duplicates(),
    decreases values.len(),
{
    let out = extend_unique(target, values);
    if !(values.len() == 0) {
        let front = values.drop_last();
        let t = extend_unique(target, front);
        lemma_extend_unique(target, front);
        let last = values.last();
        assert forall|x: Seq<char>| #[trigger] out.contains(x) <==> target.contains(x)
            || values.contains(x) by {
            if out.contains(x) {
                let i = choose|i: int| 0 <= i < out.len() && out[i] == x;
                if i < t.len() {
                    if front.contains(x) {
                        let j = choose|j: int| 0 <= j < front.len() && front[j] == x;
                    }
                }
            }
            if target.contains(x) {
                let i = choose|i: int| 0 <= i < t.len() && t[i] == x;
                assert(out[i] == x);
            }
            if values.contains(x) {
                let j = choose|j: int| 0 <= j < values.len() && values[j] == x;
                if j < front.len() {
                    assert(front[j] == x);
                    assert(t.contains(x));
                    let i = choose|i: int| 0 <= i < t.len() && t[i] == x;
                    assert(out[i] == x);
                } else {
                    if !t.contains(last) {
                        assert(out[out.len() - 1] == x);
                    }
                }
            }
        }
    }
}

/// Whether `list` holds `value`.
pub fn holds(list: &[String], value: &str) -> (r: bool)
    ensures
        r == texts(list@).contains(value@),
{
    let r = find_index(list, value);
    proof {
        lemma_index_of(texts(list@), value@);
    }
    r.is_some()
}

/// The index of the first element of `list` that equals `value`.
pub fn find_index(list: &[String], value: &str) -> (r: Option<usize>)
    ensures
        match r {
            Some(i) => index_of(texts(list@), value@) == Some(i as int),
            None => index_of(texts(list@), value@) is None,
        },
{
    let mut i: usize = 0;
    while i < list.len()
        invariant
            i <= list.len(),
            index_of(texts(list@).take(i as int), value@) is None,
        decreases list.len() - i,
    {
        proof {
            let next = texts(list@).take(i + 1);
            assert(next.drop_last() =~= texts(list@).take(i as int));
        }
        if str_eq(list[i].as_str(), value) {
            proof {
                lemma_index_prefix(texts(list@), value@, i + 1);
            }
            return Some(i);
        }
        i += 1;
    }
    assert(texts(list@).take(list.len() as int) =~= texts(list@));
    None
}

/// An index found in a prefix of `list` is the index found in `list`.
pub proof fn lemma_index_prefix(list: Seq<Seq<char>>, value: Seq<char>, n: int)
    requires
        0 <= n <= list.len(),
        index_of(list.take(n), value) is Some,
    ensures
        index_of(list, value) == index_of(list.take(n), value),
    decreases list.len() - n,
{
    if n < list.len() {
        let next = list.take(n + 1);
        assert(next.drop_last() =~= list.take(n));
        lemma_index_prefix(list, value, n + 1);
    } else {
        assert(list.take(n) =~= list);
    }
}

/// Adds to `target` those of `values` that it does not hold yet.
pub fn extend_unique_owned(target: &mut Vec<String>, values: Vec<String>)
    ensures
        texts(final(target)@) == extend_unique(texts(old(target)@), texts(values@)),
{
    let mut i: usize = 0;
    while i < values.len()
        invariant
            i <= values.len(),
            texts(target@) == extend_unique(texts(old(target)@), texts(values@).take(i as int)),
        decreases values.len() - i,
    {
        proof {
            let next = texts(values@).take(i + 1);
            assert(next.drop_last() =~= texts(values@).take(i as int));
        }
        if !holds(target.as_slice(), values[i].as_str()) {
            target.push(values[i].clone());
        }
        i += 1;
    }
    assert(texts(values@).take(values.len() as int) =~= texts(values@));
}

/// Adds to `target` those of `values` that it does not hold yet.
pub fn extend_unique_strs(target: &mut Vec<String>, values: &[&str])
    ensures
        texts(final(target)@) == extend_unique(texts(old(target)@), str_texts(values@)),
{
    let owned = crate::command::strings(values);
    assert(texts(owned@) =~= str_texts(values@));
    extend_unique_owned(target, owned);
}

/// `packages` without repeated names: of equal names the first stays.
pub fn dedup_packages(packages: Vec<String>) -> (out: Vec<String>)
    ensures
        texts(out@) == dedup(texts(packages@)),
        texts(out@).no_duplicates(),
        forall|x: Seq<char>| #[trigger] texts(out@).contains(x) <==> texts(packages@).contains(x),
{
    let mut out: Vec<String> = Vec::new();
    assert(texts(out@) =~= Seq::<Seq<char>>::empty());
    extend_unique_owned(&mut out, packages);
    proof {
        lemma_extend_unique(Seq::empty(), texts(packages@));
    }
    out
}

/// Where `x` goes in the ordered list `sorted`: before the first element
/// that does not come before it in the order of the dictionary.
pub open spec fn place_of(sorted: Seq<Seq<char>>, x: Seq<char>) -> int
    decreases sorted.len(),
{
    if sorted.len() == 0 || !text_lt(sorted[0], x) {
        0
    } else {
        1 + place_of(sorted.skip(1), x)
    }
}

/// The ordered list `sorted` with `x` in its place, unless it is there.
pub open spec fn with_element(sorted: Seq<Seq<char>>, x: Seq<char>) -> Seq<Seq<char>> {
    let k = place_of(sorted, x);
    if 0 <= k < sorted.len() && sorted[k] == x {
        sorted
    } else {
        sorted.insert(k, x)
    }
}

/// The elements of `list` in the order of the dictionary, each once.
pub open spec fn sorted_set(list: Seq<Seq<char>>) -> Seq<Seq<char>>
    decreases list.len(),
{
    if list.len() == 0 {
        Seq::empty()
    } else {
        with_element(sorted_set(list.drop_last()), list.last())
    }
}

/// A place in range before which every element comes before `x`, and at
/// which, unless it is the end, an element stands that does not.
pub proof fn lemma_place_of(sorted: Seq<Seq<char>>, x: Seq<char>, k: int)
    requires
        0 <= k <= sorted.len(),
        forall|j: int| 0 <= j < k ==> text_lt(#[trigger] sorted[j], x),
        k == sorted.len() || !text_lt(sorted[k], x),
    ensures
        place_of(sorted, x) == k,
    decreases k,
{
    if k > 0 {
        let t = sorted.skip(1);
        lemma_place_of(t, x, k - 1);
    }
}

/// Puts `x` in its place in the ordered list `sorted`, unless it is there.
pub fn insert_sorted(sorted: &mut Vec<String>, x: String)
    ensures
        texts(final(sorted)@) == with_element(texts(old(sorted)@), x@),
{
    let value = to_chars(x.as_str());
    let mut k: usize = 0;
    while k < sorted.len() && comes_first(&to_chars(sorted[k].as_str()), &value)
        invariant
            k <= sorted.len(),
            value@ == x@,
            forall|j: int| 0 <= j < k ==> text_lt(#[trigger] texts(sorted@)[j], x@),
        decreases sorted.len() - k,
    {
        k += 1;
    }
    proof {
        lemma_place_of(texts(sorted@), x@, k as int);
    }
    if k < sorted.len() && str_eq(sorted[k].as_str(), x.as_str()) {
        return ;
    }
    sorted.insert(k, x);
}

/// The elements of `list` in the order of the dictionary, each once.
pub fn sort_unique(list: Vec<String>) -> (out: Vec<String>)
    ensures
        texts(out@) == sorted_set(texts(list@)),
{
    let mut out: Vec<String> = Vec::new();
    let mut i: usize = 0;
    while i < list.len()
        invariant
            i <= list.len(),
            texts(out@) == sorted_set(texts(list@).take(i as int)),
        decreases list.len() - i,
    {
        proof {
            let next = texts(list@).take(i + 1);
            assert(next.drop_last() =~= texts(list@).take(i as int));
        }
        insert_sorted(&mut out, list[i].clone());
        i += 1;
    }
    assert(texts(list@).take(list.len() as int) =~= texts(list@));
    out
}

/// Whether each element of `list` comes before the next in the order of
/// the dictionary.
pub open spec fn strictly_ordered(list: Seq<Seq<char>>) -> bool {
    forall|i: int, j: int| 0 <= i < j < list.len() ==> text_lt(
        #[trigger] list[i],
        #[trigger] list[j],
    )
}

/// Putting an element in its place keeps an ordered list ordered, keeps
/// what it held, and makes it hold the element.
pub proof fn lemma_with_element(sorted: Seq<Seq<char>>, x: Seq<char>)
    requires
        strictly_ordered(sorted),
    ensures
        strictly_ordered(with_element(sorted, x)),
        forall|y: Seq<char>| #[trigger]
            with_element(sorted, x).contains(y) <==> sorted.contains(y) || y == x,
{
    let k = place_of(sorted, x);
    lemma_place_bounds(sorted, x);
    let out = with_element(sorted, x);
    if !(k < sorted.len() && sorted[k] == x) {
        assert forall|i: int, j: int| 0 <= i < j < out.len() implies text_lt(
            #[trigger] out[i],
            #[trigger] out[j],
        ) by {
            if j > k && i == k {
                crate::text::lemma_text_lt_total(sorted[k], x);
                if j - 1 > k {
                    crate::text::lemma_text_lt_transitive(x, sorted[k], sorted[j - 1]);
                }
            }
        }
        assert forall|y: Seq<char>| #[trigger] out.contains(y) <==> sorted.contains(y) || y
            == x by {
            if out.contains(y) {
                let m = choose|m: int| 0 <= m < out.len() && out[m] == y;
            }
            if sorted.contains(y) {
                let m = choose|m: int| 0 <= m < sorted.len() && sorted[m] == y;
                if m < k {
                    assert(out[m] == y);
                } else {
                    assert(out[m + 1] == y);
                }
            }
            if y == x {
                assert(out[k] == y);
            }
        }
    }
}

/// The place of an element lies in the list or at its end; everything
/// before it comes before the element, and what stands at it does not.
pub proof fn lemma_place_bounds(sorted: Seq<Seq<char>>, x: Seq<char>)
    ensures
        0 <= place_of(sorted, x) <= sorted.len(),
        forall|j: int| 0 <= j < place_of(sorted, x) ==> text_lt(#[trigger] sorted[j], x),
        place_of(sorted, x) < sorted.len() ==> !text_lt(sorted[place_of(sorted, x)], x),
    decreases sorted.len(),
{
    if sorted.len() != 0 && text_lt(sorted[0], x) {
        let t = sorted.skip(1);
        lemma_place_bounds(t, x);
        assert forall|j: int| 0 <= j < place_of(sorted, x) implies text_lt(
            #[trigger] sorted[j],
            x,
        ) by {
            if j > 0 {
                assert(t[j - 1] == sorted[j]);
            }
        }
    }
}

/// A sorted set is in the order of the dictionary, without repetition,
/// and holds exactly the elements of the list it was made of.
pub proof fn law_sorted_set(list: Seq<Seq<char>>)
    ensures
        strictly_ordered(sorted_set(list)),
        forall|y: Seq<char>| #[trigger] sorted_set(list).contains(y) <==> list.contains(y),
    decreases list.len(),
{
    if !(list.len() == 0) {
        let front = list.drop_last();
        law_sorted_set(front);
        lemma_with_element(sorted_set(front), list.last());
        assert forall|y: Seq<char>| #[trigger] sorted_set(list).contains(y) <==> list.contains(
            y,
        ) by {
            if list.contains(y) {
                let m = choose|m: int| 0 <= m < list.len() && list[m] == y;
                if m < front.len() {
                    assert(front[m] == y);
                }
            }
        }
    }
}

} // verus!
