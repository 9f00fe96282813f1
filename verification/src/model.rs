//! The mathematical model of a list: a sequence of item values.

use vstd::prelude::*;

verus! {

/// The type of the value that an item holds.
pub enum ItemKind {
    /// A signed 32-bit integer.
    Int,
    /// A text.
    Str,
    /// A double-precision number.
    Float,
}

/// What an item is: the kind of its value, and the value.
pub enum ItemView {
    /// A signed 32-bit integer.
    Int(i32),
    /// A text, as its characters.
    Str(Seq<char>),
    /// A double-precision number, as the 64 bits of its encoding.
    Float(u64),
}

impl ItemView {
    /// The type of the value held.
    pub open spec fn kind(self) -> ItemKind {
        match self {
            ItemView::Int(_) => ItemKind::Int,
            ItemView::Str(_) => ItemKind::Str,
            ItemView::Float(_) => ItemKind::Float,
        }
    }
}

/// What a typed read at `index` finds: the item there, where the index is in
/// bounds and the item holds a value of the kind asked for.
pub open spec fn read_as(items: Seq<ItemView>, index: int, kind: ItemKind) -> Option<ItemView> {
    if 0 <= index < items.len() && items[index].kind() == kind {
        Some(items[index])
    } else {
        None
    }
}

/// One change to a list.
pub enum Change {
    /// An item is appended.
    Insert(ItemView),
    /// An item is put at index 0.
    InsertAtBeginning(ItemView),
    /// The item at an index is replaced.
    Replace(int, ItemView),
    /// Every item is removed.
    Clear,
}

impl Change {
    /// The items after the change, given those before it.
    pub open spec fn apply(self, items: Seq<ItemView>) -> Seq<ItemView> {
        match self {
            Change::Insert(item) => items.push(item),
            Change::InsertAtBeginning(item) => items.insert(0, item),
            Change::Replace(index, item) => if 0 <= index < items.len() {
                items.update(index, item)
            } else {
                items
            },
            Change::Clear => Seq::empty(),
        }
    }
}

/// The items of a list that was made empty and then went through `changes`,
/// first to last.
pub open spec fn history(changes: Seq<Change>) -> Seq<ItemView>
    decreases changes.len(),
{
    if changes.len() == 0 {
        Seq::empty()
    } else {
        changes.last().apply(history(changes.drop_last()))
    }
}

/// The number of insertions, at either end, that `changes` holds after its
/// last `Clear`.
pub open spec fn inserts_since_clear(changes: Seq<Change>) -> nat
    decreases changes.len(),
{
    if changes.len() == 0 {
        0
    } else {
        match changes.last() {
            Change::Insert(_) | Change::InsertAtBeginning(_) => inserts_since_clear(
                changes.drop_last(),
            ) + 1,
            Change::Replace(_, _) => inserts_since_clear(changes.drop_last()),
            Change::Clear => 0,
        }
    }
}

/// What a pass over `items` produces first: the item at its head, or
/// nothing where none is left.
pub open spec fn next_of(items: Seq<ItemView>) -> Option<ItemView> {
    if items.len() > 0 {
        Some(items[0])
    } else {
        None
    }
}

/// What is left of a pass over `items` after it has produced once.
pub open spec fn rest_of(items: Seq<ItemView>) -> Seq<ItemView> {
    if items.len() > 0 {
        items.drop_first()
    } else {
        items
    }
}

/// What is left of a pass over `items` after it has produced `n` times.
pub open spec fn rest_after(items: Seq<ItemView>, n: nat) -> Seq<ItemView>
    decreases n,
{
    if n == 0 {
        items
    } else {
        rest_of(rest_after(items, (n - 1) as nat))
    }
}

} // verus!
