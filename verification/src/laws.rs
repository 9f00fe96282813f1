//! What holds of every list, proved of the model that the contracts of the
//! list's methods are stated in.

use crate::item::ItemValue;
use crate::model::history;
use crate::model::inserts_since_clear;
use crate::model::next_of;
use crate::model::read_as;
use crate::model::rest_after;
use crate::model::Change;
use crate::model::ItemKind;
use crate::model::ItemView;
use vstd::prelude::*;
use vstd::std_specs::convert::IntoSpec;

verus! {

/// After any changes to a new list, its length is the number of insertions
/// since it was last cleared.
pub proof fn lemma_len_counts_inserts(changes: Seq<Change>)
    ensures
        history(changes).len() == inserts_since_clear(changes),
    decreases changes.len(),
{
    if changes.len() > 0 {
        lemma_len_counts_inserts(changes.drop_last());
    }
}

/// Items that are appended one after the other to a new list stand in it in
/// the order in which they were appended.
pub proof fn lemma_inserts_keep_order(values: Seq<ItemView>)
    ensures
        history(values.map_values(|item: ItemView| Change::Insert(item))) == values,
    decreases values.len(),
{
    let changes = values.map_values(|item: ItemView| Change::Insert(item));
    if values.len() > 0 {
        lemma_inserts_keep_order(values.drop_last());
        assert(changes.drop_last() == values.drop_last().map_values(
            |item: ItemView| Change::Insert(item),
        ));
    }
}

/// A value that was appended is read back at the last index, as a value of
/// its own type.
pub proof fn lemma_insert_then_get<T: ItemValue>(items: Seq<ItemView>, value: T)
    ensures
        T::obeys_into_spec(),
        read_as(
            Change::Insert(value.into_spec()@).apply(items),
            items.len() as int,
            T::kind(),
        ) == Some(value.item_view()),
{
    value.lemma_into_item();
    value.lemma_item_view_kind();
}

/// A read as one type, at an index that holds a value of another, finds
/// nothing.
pub proof fn lemma_get_other_type(items: Seq<ItemView>, index: int, kind: ItemKind)
    requires
        0 <= index < items.len(),
        items[index].kind() != kind,
    ensures
        read_as(items, index, kind) is None,
{
}

/// A read at or beyond the length finds nothing.
pub proof fn lemma_get_out_of_bounds(items: Seq<ItemView>, index: int, kind: ItemKind)
    requires
        index >= items.len(),
    ensures
        read_as(items, index, kind) is None,
{
}

/// A replacement at an index beyond the last leaves every item as it was.
pub proof fn lemma_replace_out_of_bounds(items: Seq<ItemView>, index: int, item: ItemView)
    requires
        index >= items.len(),
    ensures
        Change::Replace(index, item).apply(items) == items,
{
}

/// A replacement at an index of the list puts the new item there, whatever
/// the type of the one before it, and changes neither the length nor any
/// other item.
pub proof fn lemma_replace_changes_one_item(items: Seq<ItemView>, index: int, item: ItemView)
    requires
        0 <= index < items.len(),
    ensures
        Change::Replace(index, item).apply(items).len() == items.len(),
        Change::Replace(index, item).apply(items)[index] == item,
        forall|i: int|
            0 <= i < items.len() && i != index ==> Change::Replace(index, item).apply(items)[i]
                == items[i],
{
}

/// A value that was put at the beginning is read back at index 0, as a value
/// of its own type, and a read at the index after any other finds what that
/// index held before.
pub proof fn lemma_insert_at_beginning_then_get<T: ItemValue>(items: Seq<ItemView>, value: T)
    ensures
        T::obeys_into_spec(),
        read_as(Change::InsertAtBeginning(value.into_spec()@).apply(items), 0, T::kind()) == Some(
            value.item_view(),
        ),
        forall|index: int, kind: ItemKind|
            0 <= index ==> #[trigger] read_as(
                Change::InsertAtBeginning(value.into_spec()@).apply(items),
                index + 1,
                kind,
            ) == read_as(items, index, kind),
{
    value.lemma_into_item();
    value.lemma_item_view_kind();
}

/// A read of a list that was cleared finds nothing, at any index and as any
/// type.
pub proof fn lemma_clear_then_get(items: Seq<ItemView>, index: int, kind: ItemKind)
    ensures
        Change::Clear.apply(items).len() == 0,
        read_as(Change::Clear.apply(items), index, kind) is None,
{
}

/// A pass over a list produces the items in index order, one for each, and
/// after the last of them nothing.
pub proof fn lemma_pass_in_order(items: Seq<ItemView>, n: nat)
    ensures
        rest_after(items, n) == items.skip(
            if n <= items.len() {
                n as int
            } else {
                items.len() as int
            },
        ),
        n < items.len() ==> next_of(rest_after(items, n)) == Some(items[n as int]),
        n >= items.len() ==> next_of(rest_after(items, n)) is None,
    decreases n,
{
    if n > 0 {
        lemma_pass_in_order(items, (n - 1) as nat);
    }
}

} // verus!
