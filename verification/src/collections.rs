//! Vectors by the values of their items.

use vstd::prelude::*;

verus! {

/// Appends an item.
pub fn push_back<T: DeepView>(v: &mut Vec<T>, item: T)
    ensures
        final(v).deep_view() == old(v).deep_view().push(item.deep_view()),
        final(v)@ == old(v)@.push(item),
        final(v).len() == old(v).len() + 1,
{
    let ghost before = v.deep_view();
    v.push(item);
    assert(v.deep_view() =~= before.push(item.deep_view()));
}

/// Takes the item at position `i` out.
pub fn take_at<T: DeepView>(v: &mut Vec<T>, i: usize) -> (r: T)
    requires
        i < old(v).len(),
    ensures
        r.deep_view() == old(v).deep_view()[i as int],
        final(v).deep_view() == old(v).deep_view().remove(i as int),
        final(v).len() == old(v).len() - 1,
{
    let ghost before = v@;
    let r = v.remove(i);
    proof {
        assert forall|j: int| 0 <= j < v.len() implies #[trigger] v.deep_view()[j] == old(
            v,
        ).deep_view().remove(i as int)[j] by {
            if j < i {
                assert(v@[j] == before[j]);
            } else {
                assert(v@[j] == before[j + 1]);
            }
        }
        assert(v.deep_view() =~= old(v).deep_view().remove(i as int));
    }
    r
}

/// Puts an item in at position `i`.
pub fn put_at<T: DeepView>(v: &mut Vec<T>, i: usize, item: T)
    requires
        i <= old(v).len(),
    ensures
        final(v).deep_view() == old(v).deep_view().insert(i as int, item.deep_view()),
        final(v).len() == old(v).len() + 1,
{
    let ghost before = v@;
    v.insert(i, item);
    proof {
        assert forall|j: int| 0 <= j < v.len() implies #[trigger] v.deep_view()[j] == old(
            v,
        ).deep_view().insert(i as int, item.deep_view())[j] by {
            if j < i {
                assert(v@[j] == before[j]);
            } else if j == i {
                assert(v@[j] == item);
            } else {
                assert(v@[j] == before[j - 1]);
            }
        }
        assert(v.deep_view() =~= old(v).deep_view().insert(i as int, item.deep_view()));
    }
}

/// Appends the items of another vector, in their order.
pub fn extend<T: DeepView>(v: &mut Vec<T>, items: Vec<T>)
    ensures
        final(v).deep_view() == old(v).deep_view() + items.deep_view(),
        final(v).len() == old(v).len() + items.len(),
{
    let ghost before = v@;
    let ghost added = items@;
    let mut items = items;
    v.append(&mut items);
    proof {
        assert(v@ == before + added);
        assert forall|j: int| 0 <= j < v.len() implies #[trigger] v.deep_view()[j] == (old(
            v,
        ).deep_view() + Seq::new(added.len(), |i: int| added[i].deep_view()))[j] by {
            if j < before.len() {
                assert(v@[j] == before[j]);
            } else {
                assert(v@[j] == added[j - before.len()]);
            }
        }
        assert(v.deep_view() =~= old(v).deep_view() + Seq::new(
            added.len(),
            |i: int| added[i].deep_view(),
        ));
    }
}

/// An optional item as a list.
pub open spec fn opt_seq<A>(o: Option<A>) -> Seq<A> {
    match o {
        Some(a) => seq![a],
        None => Seq::empty(),
    }
}

/// Appends an item where there is one.
pub fn push_some<T: DeepView>(v: &mut Vec<T>, item: Option<T>)
    ensures
        final(v).deep_view() == old(v).deep_view() + opt_seq(item.deep_view()),
{
    let ghost before = v.deep_view();
    match item {
        Some(a) => {
            push_back(v, a);
            assert(v.deep_view() =~= before + seq![a.deep_view()]);
        },
        None => {
            assert(v.deep_view() =~= before + Seq::empty());
        },
    }
}

/// Taking an item out and putting another in at its place replaces it.
pub proof fn lemma_remove_insert<A>(s: Seq<A>, i: int, a: A)
    requires
        0 <= i < s.len(),
    ensures
        s.remove(i).insert(i, a) == s.update(i, a),
{
    assert(s.remove(i).insert(i, a) =~= s.update(i, a));
}

} // verus!
