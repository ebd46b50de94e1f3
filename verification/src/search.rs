//! Searching a list in order.
use vstd::prelude::*;

verus! {

/// The first item that passes the test, if any does.
pub open spec fn first_where<A>(items: Seq<A>, test: spec_fn(A) -> bool) -> Option<A>
    decreases items.len(),
{
    if items.len() == 0 {
        None
    } else if test(items[0]) {
        Some(items[0])
    } else {
        first_where(items.drop_first(), test)
    }
}

/// Whether some item passes the test.
pub open spec fn any_where<A>(items: Seq<A>, test: spec_fn(A) -> bool) -> bool {
    exists|i: int| 0 <= i < items.len() && test(#[trigger] items[i])
}

/// An item that passes after only failures is the first that passes.
pub(crate) proof fn lemma_first_where_at<A>(items: Seq<A>, test: spec_fn(A) -> bool, at: int)
    requires
        0 <= at < items.len(),
        test(items[at]),
        forall|i: int| 0 <= i < at ==> !test(#[trigger] items[i]),
    ensures
        first_where(items, test) == Some(items[at]),
    decreases at,
{
    if at > 0 {
        let rest = items.drop_first();
        assert forall|i: int| 0 <= i < at - 1 implies !test(#[trigger] rest[i]) by {
            assert(rest[i] == items[i + 1]);
        }
        lemma_first_where_at(rest, test, at - 1);
    }
}

/// Where every item fails, there is no first that passes.
pub(crate) proof fn lemma_first_where_none<A>(items: Seq<A>, test: spec_fn(A) -> bool)
    requires
        forall|i: int| 0 <= i < items.len() ==> !test(#[trigger] items[i]),
    ensures
        first_where(items, test) is None,
    decreases items.len(),
{
    if items.len() > 0 {
        let rest = items.drop_first();
        assert forall|i: int| 0 <= i < rest.len() implies !test(#[trigger] rest[i]) by {
            assert(rest[i] == items[i + 1]);
        }
        lemma_first_where_none(rest, test);
    }
}

/// What `first_where` finds is in the list, passes, and comes after failures
/// only; it finds nothing just when every item fails.
pub proof fn first_where_is_first<A>(items: Seq<A>, test: spec_fn(A) -> bool)
    ensures
        first_where(items, test) is None <==> !any_where(items, test),
        first_where(items, test) matches Some(found) ==> exists|at: int|
            {
                &&& 0 <= at < items.len()
                &&& #[trigger] items[at] == found
                &&& test(found)
                &&& forall|i: int| 0 <= i < at ==> !test(#[trigger] items[i])
            },
    decreases items.len(),
{
    if items.len() > 0 {
        if test(items[0]) {
            assert(items[0] == first_where(items, test)->0);
        } else {
            let rest = items.drop_first();
            first_where_is_first(rest, test);
            if any_where(items, test) {
                let i = choose|i: int| 0 <= i < items.len() && test(#[trigger] items[i]);
                assert(rest[i - 1] == items[i]);
            }
            if first_where(rest, test) is Some {
                let found = first_where(rest, test)->0;
                let at = choose|at: int|
                    {
                        &&& 0 <= at < rest.len()
                        &&& #[trigger] rest[at] == found
                        &&& test(found)
                        &&& forall|i: int| 0 <= i < at ==> !test(#[trigger] rest[i])
                    };
                assert(items[at + 1] == found);
                assert forall|i: int| 0 <= i < at + 1 implies !test(#[trigger] items[i]) by {
                    if i > 0 {
                        assert(rest[i - 1] == items[i]);
                    }
                }
            }
        }
    }
}

/// Two tests that agree on every item find the same.
pub(crate) proof fn lemma_first_where_same<A>(
    items: Seq<A>,
    a: spec_fn(A) -> bool,
    b: spec_fn(A) -> bool,
)
    requires
        forall|i: int| 0 <= i < items.len() ==> a(#[trigger] items[i]) == b(items[i]),
    ensures
        first_where(items, a) == first_where(items, b),
    decreases items.len(),
{
    if items.len() > 0 {
        let rest = items.drop_first();
        assert forall|i: int| 0 <= i < rest.len() implies a(#[trigger] rest[i]) == b(rest[i]) by {
            assert(rest[i] == items[i + 1]);
        }
        lemma_first_where_same(rest, a, b);
        assert(a(items[0]) == b(items[0]));
    }
}

/// Whether `at` lists, in increasing order, just the positions below `n` that
/// pass the test.
pub open spec fn in_order(at: Seq<int>, n: nat, test: spec_fn(int) -> bool) -> bool {
    &&& forall|i: int, j: int| 0 <= i < j < at.len() ==> #[trigger] at[i] < #[trigger] at[j]
    &&& forall|k: int| #[trigger] at.contains(k) <==> 0 <= k < n && test(k)
}

/// Filtering keeps the items at the positions that pass, in their order.
pub(crate) proof fn lemma_filter_in_order<A>(
    items: Seq<A>,
    keep: spec_fn(A) -> bool,
    test: spec_fn(int) -> bool,
) -> (at: Seq<int>)
    requires
        forall|k: int| 0 <= k < items.len() ==> test(k) == keep(#[trigger] items[k]),
    ensures
        in_order(at, items.len(), test),
        items.filter(keep).len() == at.len(),
        forall|i: int| 0 <= i < at.len() ==> #[trigger] items.filter(keep)[i] == items[at[i]],
        forall|i: int| 0 <= i < at.len() ==> 0 <= #[trigger] at[i] < items.len() && test(at[i]),
    decreases items.len(),
{
    reveal(Seq::filter);
    if items.len() == 0 {
        Seq::empty()
    } else {
        let rest = items.drop_last();
        let last = items.len() - 1;
        assert forall|k: int| 0 <= k < rest.len() implies test(k) == keep(#[trigger] rest[k]) by {
            assert(rest[k] == items[k]);
        }
        let before = lemma_filter_in_order(rest, keep, test);
        assert(items.last() == items[last]);
        let at = if test(last) {
            before.push(last)
        } else {
            before
        };
        assert forall|k: int| #[trigger] at.contains(k) <==> 0 <= k < items.len() && test(k) by {
            if at.contains(k) {
                let i = choose|i: int| 0 <= i < at.len() && at[i] == k;
                if i < before.len() {
                    assert(before[i] == k);
                    assert(before.contains(k));
                }
            }
            if 0 <= k < items.len() && test(k) {
                if k < last {
                    assert(before.contains(k));
                    let i = choose|i: int| 0 <= i < before.len() && before[i] == k;
                    assert(at[i] == k);
                } else {
                    assert(at[before.len() as int] == k);
                }
            }
        }
        assert forall|i: int| 0 <= i < at.len() implies #[trigger] items.filter(keep)[i]
            == items[at[i]] by {
            if i < before.len() {
                assert(rest.filter(keep)[i] == rest[before[i]]);
            }
        }
        at
    }
}

/// The first item that is kept and passes is the first of the kept that passes.
pub(crate) proof fn lemma_first_kept_at<A>(
    items: Seq<A>,
    keep: spec_fn(A) -> bool,
    test: spec_fn(A) -> bool,
    at: int,
)
    requires
        0 <= at < items.len(),
        keep(items[at]),
        test(items[at]),
        forall|i: int| 0 <= i < at ==> !(keep(#[trigger] items[i]) && test(items[i])),
    ensures
        first_where(items.filter(keep), test) == Some(items[at]),
{
    let places = lemma_filter_in_order(items, keep, |k: int| keep(items[k]));
    let kept = items.filter(keep);
    assert(places.contains(at));
    let i = choose|i: int| 0 <= i < places.len() && places[i] == at;
    assert(kept[i] == items[at]);
    assert forall|j: int| 0 <= j < i implies !test(#[trigger] kept[j]) by {
        assert(kept[j] == items[places[j]]);
        assert(places[j] < places[i]);
    }
    lemma_first_where_at(kept, test, i);
}

/// Where no item is kept and passes, none of the kept passes.
pub(crate) proof fn lemma_first_kept_none<A>(
    items: Seq<A>,
    keep: spec_fn(A) -> bool,
    test: spec_fn(A) -> bool,
)
    requires
        forall|i: int| 0 <= i < items.len() ==> !(keep(#[trigger] items[i]) && test(items[i])),
    ensures
        first_where(items.filter(keep), test) is None,
{
    let places = lemma_filter_in_order(items, keep, |k: int| keep(items[k]));
    let kept = items.filter(keep);
    assert forall|j: int| 0 <= j < kept.len() implies !test(#[trigger] kept[j]) by {
        assert(kept[j] == items[places[j]]);
    }
    lemma_first_where_none(kept, test);
}

/// The position of the first item that passes `test`, which decides as
/// `passes` says.
pub(crate) fn find<T: DeepView, F: Fn(&T) -> bool>(
    items: &Vec<T>,
    test: F,
    Ghost(passes): Ghost<spec_fn(T::V) -> bool>,
) -> (r: Option<usize>)
    requires
        forall|t: &T| #[trigger] test.requires((t,)),
        forall|t: &T, b: bool| #[trigger] test.ensures((t,), b) ==> b == passes(t.deep_view()),
    ensures
        r is None <==> first_where(items.deep_view(), passes) is None,
        r matches Some(at) ==> {
            &&& at < items@.len()
            &&& first_where(items.deep_view(), passes) == Some(items@[at as int].deep_view())
        },
{
    let ghost seen = items.deep_view();
    let mut i: usize = 0;
    while i < items.len()
        invariant
            seen == items.deep_view(),
            0 <= i <= items@.len(),
            forall|t: &T| #[trigger] test.requires((t,)),
            forall|t: &T, b: bool| #[trigger] test.ensures((t,), b) ==> b == passes(t.deep_view()),
            forall|j: int| 0 <= j < i ==> !passes(#[trigger] seen[j]),
        decreases items@.len() - i,
    {
        if test(&items[i]) {
            proof {
                lemma_first_where_at(seen, passes, i as int);
            }
            return Some(i);
        }
        i += 1;
    }
    proof {
        lemma_first_where_none(seen, passes);
    }
    None
}

/// Whether some item passes `test`, which decides as `passes` says.
pub(crate) fn any<T: DeepView, F: Fn(&T) -> bool>(
    items: &Vec<T>,
    test: F,
    Ghost(passes): Ghost<spec_fn(T::V) -> bool>,
) -> (r: bool)
    requires
        forall|t: &T| #[trigger] test.requires((t,)),
        forall|t: &T, b: bool| #[trigger] test.ensures((t,), b) ==> b == passes(t.deep_view()),
    ensures
        r == any_where(items.deep_view(), passes),
{
    let found = find(items, test, Ghost(passes));
    proof {
        first_where_is_first(items.deep_view(), passes);
    }
    found.is_some()
}

/// The items that pass `test`, which decides as `passes` says, in their order.
pub(crate) fn keep<T: DeepView + Clone, F: Fn(&T) -> bool>(
    items: &Vec<T>,
    test: F,
    Ghost(passes): Ghost<spec_fn(T::V) -> bool>,
) -> (r: Vec<T>)
    requires
        forall|t: &T| #[trigger] test.requires((t,)),
        forall|t: &T, b: bool| #[trigger] test.ensures((t,), b) ==> b == passes(t.deep_view()),
        forall|a: T, b: T| #[trigger] cloned(a, b) ==> a.deep_view() == b.deep_view(),
    ensures
        r.deep_view() == items.deep_view().filter(passes),
{
    let ghost seen = items.deep_view();
    let mut kept: Vec<T> = Vec::new();
    proof {
        reveal(Seq::filter);
        assert(kept.deep_view() =~= seen.take(0).filter(passes));
    }
    let mut i: usize = 0;
    while i < items.len()
        invariant
            seen == items.deep_view(),
            0 <= i <= items@.len(),
            forall|t: &T| #[trigger] test.requires((t,)),
            forall|t: &T, b: bool| #[trigger] test.ensures((t,), b) ==> b == passes(t.deep_view()),
            forall|a: T, b: T| #[trigger] cloned(a, b) ==> a.deep_view() == b.deep_view(),
            kept.deep_view() == seen.take(i as int).filter(passes),
        decreases items@.len() - i,
    {
        let ghost before = kept.deep_view();
        if test(&items[i]) {
            let copy = items[i].clone();
            assert(cloned(items@[i as int], copy));
            kept.push(copy);
            assert(kept.deep_view() =~= before.push(seen[i as int]));
        }
        proof {
            reveal(Seq::filter);
            let upto = seen.take(i + 1);
            assert(upto.drop_last() =~= seen.take(i as int));
            assert(upto.last() == seen[i as int]);
        }
        i += 1;
    }
    assert(seen.take(i as int) =~= seen);
    kept
}

} // verus!
