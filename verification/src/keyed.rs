//! Lists of records found again by their id: records are replaced in place, added, and
//! removed by id, in the order the list keeps.
use vstd::prelude::*;

verus! {

/// A record that a list finds again by its id.
pub trait Keyed {
    /// The record's id.
    spec fn key_of(&self) -> u128;

    /// The record's id.
    fn key(&self) -> (k: u128)
        ensures
            k == self.key_of(),
    ;
}

/// Puts an updated record in the place of the first record with its id, keeping the list's
/// order; a list without that id is left as it is.
pub fn replace_keyed<T: Keyed>(list: &mut Vec<T>, updated: T)
    ensures
        (forall|j: int| 0 <= j < old(list)@.len() ==> old(list)@[j].key_of() != updated.key_of())
            ==> final(list)@ == old(list)@,
        forall|i: int|
            0 <= i < old(list)@.len() && old(list)@[i].key_of() == updated.key_of() && (forall|
                j: int,
            | 0 <= j < i ==> old(list)@[j].key_of() != updated.key_of()) ==> final(list)@ == old(
                list,
            )@.update(i, updated),
{
    let k = updated.key();
    let mut i: usize = 0;
    while i < list.len()
        invariant
            0 <= i <= list@.len(),
            list@ == old(list)@,
            k == updated.key_of(),
            forall|j: int| 0 <= j < i ==> list@[j].key_of() != k,
        decreases list@.len() - i,
    {
        if list[i].key() == k {
            list[i] = updated;
            return;
        }
        i = i + 1;
    }
}

/// The list without the records of an id, in order.
pub fn remove_keyed<T: Keyed>(list: Vec<T>, key: u128) -> (r: Vec<T>)
    ensures
        r@ == list@.filter(|x: T| x.key_of() != key),
{
    let ghost all = list@;
    let ghost keep = |x: T| x.key_of() != key;
    let mut r: Vec<T> = Vec::new();
    assert(all.take(0).filter(keep) =~= Seq::<T>::empty()) by {
        reveal(Seq::filter);
    }
    for x in it: list.into_iter()
        invariant
            it.seq() == all,
            keep == (|x: T| x.key_of() != key),
            r@ == all.take(it.index()).filter(keep),
    {
        let ghost i = it.index();
        let ghost s = all.take(i + 1);
        assert(s.drop_last() =~= all.take(i));
        assert(s.last() == x);
        assert(s.filter(keep) == if keep(x) {
            all.take(i).filter(keep).push(x)
        } else {
            all.take(i).filter(keep)
        }) by {
            reveal(Seq::filter);
        }
        if x.key() != key {
            r.push(x);
        }
    }
    assert(all.take(all.len() as int) =~= all);
    r
}

/// Puts a saved record in the place of the first record with its id, or appends it when the
/// list has none.
pub fn upsert_keyed<T: Keyed>(list: &mut Vec<T>, saved: T)
    ensures
        (forall|j: int| 0 <= j < old(list)@.len() ==> old(list)@[j].key_of() != saved.key_of())
            ==> final(list)@ == old(list)@.push(saved),
        forall|i: int|
            0 <= i < old(list)@.len() && old(list)@[i].key_of() == saved.key_of() && (forall|
                j: int,
            | 0 <= j < i ==> old(list)@[j].key_of() != saved.key_of()) ==> final(list)@ == old(
                list,
            )@.update(i, saved),
{
    let k = saved.key();
    let mut i: usize = 0;
    while i < list.len()
        invariant
            0 <= i <= list@.len(),
            list@ == old(list)@,
            k == saved.key_of(),
            forall|j: int| 0 <= j < i ==> list@[j].key_of() != k,
        decreases list@.len() - i,
    {
        if list[i].key() == k {
            list[i] = saved;
            return;
        }
        i = i + 1;
    }
    list.push(saved);
}

} // verus!
