//! Lookup by id over a sequence of entities: the specification-level
//! first-match index, its characterisation, and the executable scans.

use vstd::prelude::*;

use crate::traits::Identifiable;

verus! {

/// Index of the first element of `s` whose id is `id`, or -1 if none.
pub open spec fn spec_first_idx<T: Identifiable>(s: Seq<T>, id: u32) -> int
    decreases s.len(),
{
    if s.len() == 0 {
        -1
    } else if s[0].spec_id() == id {
        0
    } else {
        let rest = spec_first_idx(s.subrange(1, s.len() as int), id);
        if rest < 0 {
            -1
        } else {
            1 + rest
        }
    }
}

/// `spec_first_idx` is in bounds, lands on the id, and nothing before
/// it carries the id; -1 means no element does.
pub proof fn lemma_first_idx<T: Identifiable>(s: Seq<T>, id: u32)
    ensures
        ({
            let i = spec_first_idx(s, id);
            &&& -1 <= i < s.len()
            &&& i >= 0 ==> s[i].spec_id() == id && (forall|j: int|
                0 <= j < i ==> s[j].spec_id() != id)
            &&& i < 0 ==> (forall|j: int| 0 <= j < s.len() ==> s[j].spec_id() != id)
        }),
    decreases s.len(),
{
    if s.len() == 0 {
    } else if s[0].spec_id() == id {
    } else {
        let sub = s.subrange(1, s.len() as int);
        lemma_first_idx(sub, id);
        let rest = spec_first_idx(sub, id);
        if rest >= 0 {
            assert(s[rest + 1] == sub[rest]);
            assert forall|j: int| 0 <= j < rest + 1 implies s[j].spec_id() != id by {
                if j > 0 {
                    assert(s[j] == sub[j - 1]);
                }
            }
        } else {
            assert forall|j: int| 0 <= j < s.len() implies s[j].spec_id() != id by {
                if j > 0 {
                    assert(s[j] == sub[j - 1]);
                }
            }
        }
    }
}

/// The first-match characterisation pins `spec_first_idx` down.
pub proof fn lemma_first_idx_at<T: Identifiable>(s: Seq<T>, id: u32, i: int)
    requires
        0 <= i < s.len(),
        s[i].spec_id() == id,
        forall|j: int| 0 <= j < i ==> s[j].spec_id() != id,
    ensures
        spec_first_idx(s, id) == i,
{
    lemma_first_idx(s, id);
}

/// Linear scan for the first element with the given id.
pub fn find_index<T: Identifiable>(items: &Vec<T>, id: u32) -> (r: Option<usize>)
    ensures
        ({
            let i = spec_first_idx(items@, id);
            match r {
                Some(k) => {
                    &&& k == i
                    &&& k < items@.len()
                    &&& items@[k as int].spec_id() == id
                },
                None => i < 0,
            }
        }),
{
    let mut k: usize = 0;
    while k < items.len()
        invariant
            k <= items@.len(),
            forall|j: int| 0 <= j < k ==> items@[j].spec_id() != id,
        decreases items@.len() - k,
    {
        if items[k].id() == id {
            proof {
                lemma_first_idx_at(items@, id, k as int);
            }
            return Some(k);
        }
        k += 1;
    }
    proof {
        lemma_first_idx(items@, id);
    }
    None
}

/// Whether `id_getter`, called on `t`, can report an id other than
/// `id`. A scan that passed `t` over has witnessed exactly this.
pub open spec fn may_miss<T, F: Fn(&T) -> u32>(t: T, id: u32, id_getter: F) -> bool {
    exists|y: u32| call_ensures(id_getter, (&t,), y) && y != id
}

/// Scans for the first element on which `id_getter` returns `id` and
/// hands back a mutable reference to it.
pub fn find_by_id_mut<T, F: Fn(&T) -> u32>(items: &mut Vec<T>, id: u32, id_getter: F) -> (r:
    Option<&mut T>)
    requires
        forall|t: &T| call_requires(id_getter, (t,)),
    ensures
        r.is_none() ==> {
            &&& *final(items) == *old(items)
            &&& forall|j: int|
                #![trigger old(items)@[j]]
                0 <= j < old(items)@.len() ==> may_miss(old(items)@[j], id, id_getter)
        },
        r.is_some() ==> exists|i: int|
            {
                &&& 0 <= i < old(items)@.len()
                &&& *r.unwrap() == old(items)@[i]
                &&& call_ensures(id_getter, (&old(items)@[i],), id)
                &&& final(items)@ == old(items)@.update(i, *final(r.unwrap()))
                &&& forall|j: int|
                    #![trigger old(items)@[j]]
                    0 <= j < i ==> may_miss(old(items)@[j], id, id_getter)
            },
{
    let mut k: usize = 0;
    let ghost mut seen: Seq<u32> = Seq::empty();
    while k < items.len()
        invariant
            k <= items@.len(),
            *items == *old(items),
            forall|t: &T| call_requires(id_getter, (t,)),
            seen.len() == k,
            forall|j: int|
                0 <= j < k ==> call_ensures(id_getter, (&items@[j],), #[trigger] seen[j])
                    && seen[j] != id,
        decreases items@.len() - k,
    {
        let got = id_getter(&items[k]);
        if got == id {
            proof {
                assert forall|j: int| #![trigger old(items)@[j]] 0 <= j < k implies
                    may_miss(old(items)@[j], id, id_getter) by {
                    let y0 = seen[j];
                    assert(call_ensures(id_getter, (&old(items)@[j],), y0) && y0 != id);
                }
            }
            let item = &mut items[k];
            return Some(item);
        }
        proof {
            seen = seen.push(got);
        }
        k += 1;
    }
    proof {
        assert forall|j: int| #![trigger old(items)@[j]] 0 <= j < old(items)@.len() implies
            may_miss(old(items)@[j], id, id_getter) by {
            let y0 = seen[j];
            assert(call_ensures(id_getter, (&old(items)@[j],), y0) && y0 != id);
        }
    }
    None
}

} // verus!
