//! The list: an ordered sequence of items, addressed by index.

use crate::item::ItemValue;
use crate::item::ListItem;
use crate::model::next_of;
use crate::model::read_as;
use crate::model::rest_of;
use crate::model::Change;
use crate::model::ItemView;
use vstd::prelude::*;
use vstd::std_specs::convert::IntoSpec;
use vstd::std_specs::iter::IteratorSpecImpl;

verus! {

/// A list that owns items of different types, in insertion order.
pub struct List {
    items: Vec<ListItem>,
}

impl View for List {
    type V = Seq<ItemView>;

    /// The items, by index.
    closed spec fn view(&self) -> Seq<ItemView> {
        self.items@.map_values(|item: ListItem| item@)
    }
}

impl List {
    /// An empty list.
    pub fn new() -> (list: Self)
        ensures
            list@ == Seq::<ItemView>::empty(),
    {
        List { items: Vec::new() }
    }

    /// Appends the item that `value` converts into as the last one. The
    /// items before it keep their indices.
    pub fn insert<T: Into<ListItem>>(&mut self, value: T)
        ensures
            exists|item: ListItem|
                call_ensures(T::into, (value,), item) && final(self)@ == old(self)@.push(item@),
            T::obeys_into_spec() ==> final(self)@ == Change::Insert(value.into_spec()@).apply(
                old(self)@,
            ),
    {
        let item = value.into();
        self.items.push(item);
        assert(self@ == old(self)@.push(item@));
    }

    /// Puts the item that `value` converts into at index 0. Every item that
    /// was in the list moves one index up.
    pub fn insert_at_beginning<T: Into<ListItem>>(&mut self, value: T)
        ensures
            exists|item: ListItem|
                call_ensures(T::into, (value,), item) && final(self)@ == old(self)@.insert(
                    0,
                    item@,
                ),
            T::obeys_into_spec() ==> final(self)@ == Change::InsertAtBeginning(
                value.into_spec()@,
            ).apply(old(self)@),
    {
        let item = value.into();
        self.items.insert(0, item);
        assert(self@ == old(self)@.insert(0, item@));
    }

    /// Puts the item that `value` converts into in the place of the item at
    /// `index`, whatever the type of that item was. No other item changes. An
    /// index at or beyond the length is an error, and then nothing changes.
    pub fn replace<T: Into<ListItem>>(&mut self, index: usize, value: T) -> (r: Result<
        (),
        &'static str,
    >)
        ensures
            r is Ok <==> index < old(self)@.len(),
            r is Ok ==> exists|item: ListItem|
                call_ensures(T::into, (value,), item) && final(self)@ == old(self)@.update(
                    index as int,
                    item@,
                ),
            r matches Err(message) ==> message@ == "Index out of range"@ && final(self)@ == old(
                self,
            )@,
            T::obeys_into_spec() ==> final(self)@ == Change::Replace(
                index as int,
                value.into_spec()@,
            ).apply(old(self)@),
    {
        if index < self.items.len() {
            let item = value.into();
            self.items[index] = item;
            assert(self@ == old(self)@.update(index as int, item@));
            Ok(())
        } else {
            Err("Index out of range")
        }
    }

    /// The value at `index`, where the index is in bounds and the item there
    /// holds a value of type `T`; otherwise nothing.
    pub fn get<T: ItemValue>(&self, index: usize) -> (r: Option<&T>)
        ensures
            match r {
                Some(value) => read_as(self@, index as int, T::kind()) == Some(value.item_view()),
                None => read_as(self@, index as int, T::kind()) is None,
            },
    {
        if index < self.items.len() {
            let r = T::downcast_ref(&self.items[index]);
            proof {
                if let Some(value) = r {
                    value.lemma_item_view_kind();
                }
            }
            r
        } else {
            None
        }
    }

    /// The value at `index`, to change in place, where the index is in bounds
    /// and the item there holds a value of type `T`; otherwise nothing. What
    /// the caller writes becomes the value of that item, which keeps its
    /// place and its type.
    pub fn get_mut<T: ItemValue>(&mut self, index: usize) -> (r: Option<&mut T>)
        ensures
            match r {
                Some(value) => {
                    &&& read_as(old(self)@, index as int, T::kind()) == Some(value.item_view())
                    &&& final(self)@ == old(self)@.update(index as int, final(value).item_view())
                    &&& final(self)@[index as int].kind() == old(self)@[index as int].kind()
                },
                None => {
                    &&& read_as(old(self)@, index as int, T::kind()) is None
                    &&& final(self)@ == old(self)@
                },
            },
    {
        if index < self.items.len() {
            let r = T::downcast_mut(&mut self.items[index]);
            proof {
                if r is Some {
                    (*r->0).lemma_item_view_kind();
                    (*final(r->0)).lemma_item_view_kind();
                }
            }
            r
        } else {
            None
        }
    }

    /// The pass over the items that `iter` starts.
    pub closed spec fn spec_iter(&self) -> ListIter<'_> {
        ListIter { list: self, index: 0 }
    }

    /// A pass over the items in index order, from index 0.
    #[verifier::when_used_as_spec(spec_iter)]
    pub fn iter(&self) -> (iter: ListIter<'_>)
        ensures
            iter == self.spec_iter(),
            iter@ == self@,
    {
        ListIter { list: self, index: 0 }
    }

    /// The number of items.
    pub fn len(&self) -> (n: usize)
        ensures
            n == self@.len(),
    {
        self.items.len()
    }

    /// Removes every item.
    pub fn clear(&mut self)
        ensures
            final(self)@.len() == 0,
            final(self)@ == Change::Clear.apply(old(self)@),
    {
        self.items.clear();
    }
}

/// A forward pass over the items of a list, in index order. A `for` loop
/// over it may speak in its invariants of the items that it produces.
pub struct ListIter<'a> {
    list: &'a List,
    index: usize,
}

impl<'a> View for ListIter<'a> {
    type V = Seq<ItemView>;

    /// The items yet to come, in the order in which they come.
    open spec fn view(&self) -> Seq<ItemView> {
        self.pending().map_values(|item: &ListItem| item@)
    }
}

impl<'a> ListIter<'a> {
    #[verifier::type_invariant]
    spec fn well_formed(self) -> bool {
        self.index <= self.list.items.len()
    }

    /// The items yet to come, as the pass hands them out.
    pub closed spec fn pending(&self) -> Seq<&'a ListItem> {
        self.list.items@.skip(self.index as int).map_values(|item: ListItem| &item)
    }
}

impl<'a> Iterator for ListIter<'a> {
    type Item = &'a ListItem;

    /// The next item, while there is one; from then on, nothing.
    fn next(&mut self) -> (r: Option<&'a ListItem>)
        ensures
            match r {
                Some(item) => next_of(old(self)@) == Some(item@),
                None => next_of(old(self)@) is None,
            },
            final(self)@ == rest_of(old(self)@),
    {
        proof {
            use_type_invariant(&*self);
        }
        if self.index < self.list.len() {
            let item = &self.list.items[self.index];
            self.index += 1;
            Some(item)
        } else {
            None
        }
    }
}

impl<'a> IteratorSpecImpl for ListIter<'a> {
    open spec fn obeys_prophetic_iter_laws(&self) -> bool {
        true
    }

    open spec fn remaining(&self) -> Seq<&'a ListItem> {
        self.pending()
    }

    open spec fn will_return_none(&self) -> bool {
        true
    }

    open spec fn decrease(&self) -> Option<nat> {
        Some(self.pending().len())
    }

    open spec fn initial_value_relation(&self, init: &Self) -> bool {
        self.pending() == init.pending()
    }

    open spec fn peek(&self, index: int) -> Option<&'a ListItem> {
        if 0 <= index < self.pending().len() {
            Some(self.pending()[index])
        } else {
            None
        }
    }
}

} // verus!
