//! Properties that relate several operations of the library.
use vstd::prelude::*;
use crate::client::{list_path, trim_trailing_slashes};
use crate::json::{json_quoted, bool_json, update_json};
use crate::store::{lists, merged, ItemModel};

verus! {

/// `k` path separators.
pub open spec fn slashes(k: nat) -> Seq<char> {
    Seq::new(k, |i: int| '/')
}

/// A base address reads the same with any number of trailing separators:
/// the mapper keeps the address without them, and so builds the same list path.
pub proof fn law_trailing_separators(base: Seq<char>, k: nat)
    requires
        base.len() == 0 || base.last() != '/',
    ensures
        trim_trailing_slashes(base + slashes(k)) == base,
        list_path(trim_trailing_slashes(base + slashes(k))) == list_path(trim_trailing_slashes(base)),
    decreases k,
{
    if k == 0 {
        assert(base + slashes(0) =~= base);
    } else {
        let s = base + slashes(k);
        assert(s.last() == '/');
        assert(s.drop_last() =~= base + slashes((k - 1) as nat));
        law_trailing_separators(base, (k - 1) as nat);
    }
    law_trailing_separators_base(base);
}

proof fn law_trailing_separators_base(base: Seq<char>)
    requires
        base.len() == 0 || base.last() != '/',
    ensures
        trim_trailing_slashes(base) == base,
{
}

/// An update payload leaves its absent fields out of the JSON object
/// entirely, rather than writing them as null.
pub proof fn law_update_omits_absent_fields(title: Seq<char>, completed: bool)
    ensures
        update_json(Some(title), None) == "{"@ + "\"title\":"@ + json_quoted(title) + "}"@,
        update_json(None, Some(completed)) == "{"@ + "\"completed\":"@ + bool_json(completed)
            + "}"@,
        update_json(None, None) == "{"@ + "}"@,
{
    assert(update_json(Some(title), None) =~= "{"@ + "\"title\":"@ + json_quoted(title) + "}"@);
    assert(update_json(None, Some(completed)) =~= "{"@ + "\"completed\":"@ + bool_json(completed)
        + "}"@);
    assert(update_json(None, None) =~= "{"@ + "}"@);
}

/// A full item lifecycle on an empty store: the created item is found as
/// created; a title update keeps the flag; a flag update keeps the new
/// title; a delete finds the item, after which it is not found, a second
/// delete finds nothing, and a list of the store is empty.
pub proof fn law_lifecycle(id: u128, title: Seq<char>, new_title: Seq<char>)
    ensures
        ({
            let s0 = Map::<u128, ItemModel>::empty();
            let created = (id, title, false);
            let s1 = s0.insert(id, created);
            let u1 = merged(s1[id], Some(new_title), None);
            let s2 = s1.insert(id, u1);
            let u2 = merged(s2[id], None, Some(true));
            let s3 = s2.insert(id, u2);
            let s4 = s3.remove(id);
            &&& s1.contains_key(id) && s1[id] == created
            &&& u1 == (id, new_title, false)
            &&& s2.contains_key(id) && s2[id] == u1
            &&& u2 == (id, new_title, true)
            &&& s3.contains_key(id) && s3[id] == u2
            &&& !s4.contains_key(id)
            &&& s4.remove(id) == s4
            &&& forall|s: Seq<ItemModel>| lists(s, s4) ==> s.len() == 0
        }),
{
    let s0 = Map::<u128, ItemModel>::empty();
    let created = (id, title, false);
    let s1 = s0.insert(id, created);
    let u1 = merged(s1[id], Some(new_title), None);
    let s2 = s1.insert(id, u1);
    let u2 = merged(s2[id], None, Some(true));
    let s3 = s2.insert(id, u2);
    let s4 = s3.remove(id);
    assert(s4 =~= Map::<u128, ItemModel>::empty());
    assert(s4.remove(id) =~= s4);
    assert(s4.dom() =~= Set::<u128>::empty());
}

} // verus!
