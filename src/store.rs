//! The item store of the demo server: items keyed by identifier.
use vstd::prelude::*;
use std::collections::HashMap;
use vstd::std_specs::iter::IteratorSpec;
use crate::ident::TodoId;
use crate::types::{opt_text, todo_model, Todo};

verus! {

broadcast use vstd::std_specs::hash::group_hash_axioms;

/// What the store reads of an item: identifier value, title, completed flag.
pub type ItemModel = (u128, Seq<char>, bool);

/// Every item is stored under its own identifier.
pub open spec fn keyed(m: Map<u128, ItemModel>) -> bool {
    forall|k: u128| #[trigger] m.contains_key(k) ==> m[k].0 == k
}

/// `m` with the fields that an update names replaced.
pub open spec fn merged(m: ItemModel, title: Option<Seq<char>>, completed: Option<bool>) -> ItemModel {
    (
        m.0,
        match title {
            Some(t) => t,
            None => m.1,
        },
        match completed {
            Some(c) => c,
            None => m.2,
        },
    )
}

/// Whether `s` lists the items of `m`, each once, in some order.
pub open spec fn lists(s: Seq<ItemModel>, m: Map<u128, ItemModel>) -> bool {
    &&& s.len() == m.dom().len()
    &&& forall|j: int| 0 <= j < s.len() ==> m.contains_key(#[trigger] s[j].0) && m[s[j].0] == s[j]
    &&& forall|k: u128| #[trigger] m.contains_key(k) ==> exists|j: int| 0 <= j < s.len() && s[j] == m[k]
}

/// The items of a server, keyed by identifier.
pub struct TodoStore {
    items: HashMap<u128, Todo>,
}

impl TodoStore {
    /// The items, as the store reads them.
    pub closed spec fn view(&self) -> Map<u128, ItemModel> {
        self.items@.map_values(|t: Todo| todo_model(t))
    }

    /// Every item is stored under its own identifier.
    pub open spec fn wf(&self) -> bool {
        keyed(self.view())
    }

    /// An empty store.
    pub fn new() -> (r: TodoStore)
        ensures
            r.view() == Map::<u128, ItemModel>::empty(),
            r.wf(),
    {
        let r = TodoStore { items: HashMap::new() };
        assert(r.view() =~= Map::<u128, ItemModel>::empty());
        r
    }

    fn copy_item(t: &Todo) -> (r: Todo)
        ensures
            todo_model(r) == todo_model(*t),
    {
        Todo { id: t.id, title: t.title.clone(), completed: t.completed }
    }

    /// All items, each once, in the map's order.
    pub fn list(&self) -> (r: Vec<Todo>)
        requires
            self.wf(),
        ensures
            lists(r@.map_values(|t: Todo| todo_model(t)), self.view()),
    {
        let ghost all = vstd::std_specs::hash::spec_values_iter(&self.items).remaining();
        let ghost vals = all.unref();
        assert(vals.to_set() == self.items@.values());
        assert(all.len() == self.items@.dom().len());
        let mut out: Vec<Todo> = Vec::new();
        for t in it: self.items.values()
            invariant
                it.seq() == all,
                vals == all.unref(),
                out@.len() == it.index(),
                it.index() <= all.len(),
                forall|j: int| 0 <= j < out@.len() ==> todo_model(#[trigger] out@[j]) == todo_model(vals[j]),
        {
            assert(*t == vals[out@.len() as int]);
            out.push(Self::copy_item(t));
        }
        assert(out@.len() == all.len());
        let ghost s = out@.map_values(|t: Todo| todo_model(t));
        let ghost v = self.view();
        assert(v.dom() =~= self.items@.dom());
        assert forall|j: int| 0 <= j < s.len() implies v.contains_key(#[trigger] s[j].0) && v[s[j].0] == s[j] by {
            assert(vals[j] == *all[j]);
            assert(vals.to_set().contains(vals[j]));
            let k = choose|k: u128| self.items@.contains_key(k) && self.items@[k] == vals[j];
            assert(v.contains_key(k) && v[k] == todo_model(self.items@[k]));
        }
        assert forall|k: u128| #[trigger] v.contains_key(k) implies exists|j: int| 0 <= j < s.len() && s[j] == v[k] by {
            assert(self.items@.values().contains(self.items@[k]));
            assert(vals.to_set().contains(self.items@[k]));
            let j = choose|j: int| 0 <= j < vals.len() && vals[j] == self.items@[k];
            assert(s[j] == v[k]);
        }
        out
    }

    /// The item with identifier `id`, if any.
    pub fn get(&self, id: TodoId) -> (r: Option<Todo>)
        ensures
            match r {
                Some(t) => self.view().contains_key(id.0) && self.view()[id.0] == todo_model(t),
                None => !self.view().contains_key(id.0),
            },
    {
        match self.items.get(&id.0) {
            Some(t) => Some(Self::copy_item(t)),
            None => None,
        }
    }

    /// Stores `item` under its identifier, in place of any item there.
    pub fn insert(&mut self, item: Todo)
        requires
            old(self).wf(),
        ensures
            final(self).wf(),
            final(self).view() == old(self).view().insert(item.id.0, todo_model(item)),
    {
        let ghost m = todo_model(item);
        let key = item.id.0;
        self.items.insert(key, item);
        assert(self.view() =~= old(self).view().insert(key, m));
    }

    /// Applies an update to the item with identifier `id`; the updated item,
    /// or none where there is no such item.
    pub fn update(&mut self, id: TodoId, title: Option<String>, completed: Option<bool>) -> (r:
        Option<Todo>)
        requires
            old(self).wf(),
        ensures
            final(self).wf(),
            old(self).view().contains_key(id.0) ==> {
                let n = merged(old(self).view()[id.0], opt_text(title), completed);
                &&& r matches Some(t) && todo_model(t) == n
                &&& final(self).view() == old(self).view().insert(id.0, n)
            },
            !old(self).view().contains_key(id.0) ==> r is None && final(self).view() == old(
                self,
            ).view(),
    {
        let t = match self.get(id) {
            Some(t) => t,
            None => return None,
        };
        let new_title = match title {
            Some(s) => s,
            None => t.title,
        };
        let new_completed = match completed {
            Some(c) => c,
            None => t.completed,
        };
        let item = Todo { id, title: new_title, completed: new_completed };
        let out = Self::copy_item(&item);
        self.insert(item);
        Some(out)
    }

    /// Removes the item with identifier `id`; whether there was one.
    pub fn remove(&mut self, id: TodoId) -> (r: bool)
        requires
            old(self).wf(),
        ensures
            final(self).wf(),
            r == old(self).view().contains_key(id.0),
            final(self).view() == old(self).view().remove(id.0),
    {
        let r = self.items.remove(&id.0);
        assert(self.view() =~= old(self).view().remove(id.0));
        r.is_some()
    }
}

} // verus!
