//! The JSON data model that the contracts of this crate speak of.

use vstd::prelude::*;

verus! {

/// A JSON document as a mathematical value.
///
/// An object keeps its members in the order in which they were inserted; a
/// number stands as the text that is written for it.
pub enum Json {
    Null,
    Bool(bool),
    Number(Seq<char>),
    Text(Seq<char>),
    List(Seq<Json>),
    Object(Seq<(Seq<char>, Json)>),
}

/// The members of an object: keys with their values, in order.
pub type Members = Seq<(Seq<char>, Json)>;

/// Whether some member of `members` has the key `key`.
pub open spec fn has_key(members: Members, key: Seq<char>) -> bool {
    exists|i: int| 0 <= i < members.len() && (#[trigger] members[i]).0 == key
}

/// No key occurs twice among `members`.
pub open spec fn keys_unique(members: Members) -> bool {
    forall|i: int, j: int|
        0 <= i < j < members.len() ==> (#[trigger] members[i]).0 != (#[trigger] members[j]).0
}

/// Exactly one member of `members` has the key `key`, and its value is
/// `value`.
pub open spec fn holds_once(members: Members, key: Seq<char>, value: Json) -> bool {
    exists|i: int|
        0 <= i < members.len() && #[trigger] members[i] == (key, value) && forall|j: int|
            0 <= j < members.len() && (#[trigger] members[j]).0 == key ==> j == i
}

/// `members` after `key` was set to `value`: a member with that key keeps its
/// place and takes the new value; without one, the pair is appended.
pub open spec fn upsert(members: Members, key: Seq<char>, value: Json) -> Members {
    if has_key(members, key) {
        Seq::new(
            members.len(),
            |i: int| if members[i].0 == key { (key, value) } else { members[i] },
        )
    } else {
        members.push((key, value))
    }
}

/// `base` after every member of `over` was set on it, first to last.
pub open spec fn overlay(base: Members, over: Members) -> Members
    decreases over.len(),
{
    if over.len() == 0 {
        base
    } else {
        upsert(overlay(base, over.drop_last()), over.last().0, over.last().1)
    }
}

/// Setting one more member after an overlay is the overlay with that member
/// at its end.
pub proof fn lemma_overlay_push(base: Members, over: Members, key: Seq<char>, value: Json)
    ensures
        overlay(base, over.push((key, value))) == upsert(overlay(base, over), key, value),
{
    let longer = over.push((key, value));
    assert(longer.drop_last() =~= over);
    assert(longer.last() == (key, value));
}

/// Members whose keys are new, and differ from each other, are appended as
/// they stand.
pub proof fn lemma_overlay_fresh(base: Members, over: Members)
    requires
        keys_unique(over),
        forall|i: int, j: int|
            0 <= i < base.len() && 0 <= j < over.len() ==> (#[trigger] base[i]).0 != (
            #[trigger] over[j]).0,
    ensures
        overlay(base, over) == base + over,
    decreases over.len(),
{
    if over.len() == 0 {
        assert(base + over =~= base);
    } else {
        let front = over.drop_last();
        let last = over.last();
        assert forall|i: int, j: int| 0 <= i < j < front.len() implies (#[trigger] front[i]).0 != (
        #[trigger] front[j]).0 by {
            assert(front[i] == over[i] && front[j] == over[j]);
        }
        assert forall|i: int, j: int|
            0 <= i < base.len() && 0 <= j < front.len() implies (#[trigger] base[i]).0 != (
        #[trigger] front[j]).0 by {
            assert(front[j] == over[j]);
        }
        lemma_overlay_fresh(base, front);
        let so_far = base + front;
        assert forall|i: int| 0 <= i < so_far.len() implies (#[trigger] so_far[i]).0 != last.0 by {
            assert(over[over.len() - 1] == last);
            if i >= base.len() {
                assert(so_far[i] == over[i - base.len()]);
            }
        }
        assert(so_far.push(last) =~= base + over);
    }
}

} // verus!
