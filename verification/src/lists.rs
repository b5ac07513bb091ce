//! Lists of invoice identifiers, as the indexes hold them: in the order of
//! insertion, grown at the end, and thinned by leaving one identifier out.

use vstd::prelude::*;
use crate::types::texts;

verus! {

/// `list` without any occurrence of `id`, the rest in its old order.
pub open spec fn without(list: Seq<Seq<char>>, id: Seq<char>) -> Seq<Seq<char>> {
    list.filter(|x: Seq<char>| x != id)
}

/// A copy of `list`.
pub fn copy_ids(list: &Vec<String>) -> (r: Vec<String>)
    ensures
        texts(r@) == texts(list@),
{
    let mut r: Vec<String> = Vec::new();
    let mut i: usize = 0;
    while i < list.len()
        invariant
            i <= list.len(),
            r.len() == i,
            forall|j: int| 0 <= j < i ==> r[j]@ == list[j]@,
        decreases list.len() - i,
    {
        r.push(list[i].clone());
        i = i + 1;
    }
    assert(texts(r@) =~= texts(list@));
    r
}

/// `list` with `id` at its end.
pub fn with_id(list: Vec<String>, id: String) -> (r: Vec<String>)
    ensures
        texts(r@) == texts(list@).push(id@),
{
    let mut r = list;
    r.push(id);
    assert(texts(r@) =~= texts(list@).push(id@));
    r
}

/// `list` without any occurrence of `id`, the rest in its old order.
pub fn without_id(list: &Vec<String>, id: &String) -> (r: Vec<String>)
    ensures
        texts(r@) == without(texts(list@), id@),
{
    let mut r: Vec<String> = Vec::new();
    let mut i: usize = 0;
    proof {
        reveal(Seq::filter);
        assert(texts(list@).take(0) =~= Seq::<Seq<char>>::empty());
        assert(texts(r@) =~= Seq::<Seq<char>>::empty());
    }
    while i < list.len()
        invariant
            i <= list.len(),
            texts(r@) == without(texts(list@).take(i as int), id@),
        decreases list.len() - i,
    {
        let ghost before = texts(r@);
        proof {
            lemma_filter_next(texts(list@), |x: Seq<char>| x != id@, i as int);
        }
        if list[i] != *id {
            r.push(list[i].clone());
            assert(texts(r@) =~= before.push(list[i as int]@));
        }
        i = i + 1;
    }
    assert(texts(list@).take(list.len() as int) =~= texts(list@));
    r
}

/// Filtering one element more keeps what was kept, and the new element
/// after it when it passes.
pub proof fn lemma_filter_next<A>(list: Seq<A>, keep: spec_fn(A) -> bool, i: int)
    requires
        0 <= i < list.len(),
    ensures
        list.take(i + 1).filter(keep) == if keep(list[i]) {
            list.take(i).filter(keep).push(list[i])
        } else {
            list.take(i).filter(keep)
        },
{
    reveal(Seq::filter);
    assert(list.take(i + 1).drop_last() =~= list.take(i));
}

/// A filter that every element passes changes nothing.
pub proof fn lemma_filter_all<A>(list: Seq<A>, keep: spec_fn(A) -> bool)
    requires
        forall|j: int| 0 <= j < list.len() ==> keep(#[trigger] list[j]),
    ensures
        list.filter(keep) == list,
    decreases list.len(),
{
    reveal(Seq::filter);
    if list.len() > 0 {
        let init = list.drop_last();
        assert forall|j: int| 0 <= j < init.len() implies keep(#[trigger] init[j]) by {
            assert(keep(list[j]));
        }
        lemma_filter_all(init, keep);
        assert(keep(list[list.len() - 1]));
        assert(init.push(list.last()) =~= list);
    }
}

/// Taking `id` out of a list removes `id`, and keeps `x` exactly when `x`
/// is another identifier.
pub proof fn lemma_without_contains(list: Seq<Seq<char>>, id: Seq<char>, x: Seq<char>)
    ensures
        without(list, id).contains(x) <==> (x != id && list.contains(x)),
    decreases list.len(),
{
    reveal(Seq::filter);
    let w = without(list, id);
    if list.len() > 0 {
        let init = list.drop_last();
        let last = list.last();
        let wi = without(init, id);
        lemma_without_contains(init, id, x);
        assert(w == if last != id {
            wi.push(last)
        } else {
            wi
        });
        if w.contains(x) {
            let j = choose|j: int| 0 <= j < w.len() && w[j] == x;
            if j < wi.len() {
                assert(wi[j] == x);
                assert(wi.contains(x));
                let k = choose|k: int| 0 <= k < init.len() && init[k] == x;
                assert(list[k] == x);
            } else {
                assert(list[list.len() - 1] == x);
            }
        }
        if x != id && list.contains(x) {
            let k = choose|k: int| 0 <= k < list.len() && list[k] == x;
            if k < init.len() {
                assert(init[k] == x);
                assert(init.contains(x));
                let j = choose|j: int| 0 <= j < wi.len() && wi[j] == x;
                assert(w[j] == x);
            } else {
                assert(w[wi.len() as int] == x);
            }
        }
    }
}

/// Taking an identifier out of a list brings no repetition in.
pub proof fn lemma_without_distinct(list: Seq<Seq<char>>, id: Seq<char>)
    requires
        list.no_duplicates(),
    ensures
        without(list, id).no_duplicates(),
    decreases list.len(),
{
    reveal(Seq::filter);
    let w = without(list, id);
    if list.len() > 0 {
        let init = list.drop_last();
        let last = list.last();
        let wi = without(init, id);
        assert forall|a: int, b: int| 0 <= a < init.len() && 0 <= b < init.len() && a
            != b implies init[a] != init[b] by {
            assert(list[a] != list[b]);
        }
        lemma_without_distinct(init, id);
        lemma_without_contains(init, id, last);
        assert(w == if last != id {
            wi.push(last)
        } else {
            wi
        });
        if init.contains(last) {
            let k = choose|k: int| 0 <= k < init.len() && init[k] == last;
            assert(list[k] == list[list.len() - 1]);
        }
    }
}

} // verus!
