//! The items of a list: a closed set of variants, one per type of value.

use crate::decimal::decimal;
use crate::decimal::int_to_decimal;
use crate::model::ItemKind;
use crate::model::ItemView;
use vstd::prelude::*;
use vstd::std_specs::convert::FromSpecImpl;
use vstd::std_specs::convert::IntoSpec;

verus! {

/// A double-precision number, held as the 64 bits of its IEEE 754 encoding.
#[derive(Clone, Copy, Debug, PartialEq, Eq)]
pub struct FloatBits {
    pub bits: u64,
}

/// One element of a list: exactly one value, of one of three types.
pub enum ListItem {
    /// A signed 32-bit integer.
    Int(i32),
    /// A text.
    Str(String),
    /// A double-precision number.
    Float(FloatBits),
}

impl View for ListItem {
    type V = ItemView;

    open spec fn view(&self) -> ItemView {
        match self {
            ListItem::Int(value) => ItemView::Int(*value),
            ListItem::Str(value) => ItemView::Str(value@),
            ListItem::Float(value) => ItemView::Float(value.bits),
        }
    }
}

impl ListItem {
    /// The text that stands for the value: an integer in decimal notation, a
    /// text as it is. A number held as its encoding has no text here: its
    /// decimal form is for the caller to compute from the bits.
    pub fn to_text(&self) -> (r: Option<String>)
        ensures
            match self@ {
                ItemView::Int(value) => r matches Some(text) && text@ == decimal(value as int),
                ItemView::Str(value) => r matches Some(text) && text@ == value,
                ItemView::Float(_) => r is None,
            },
    {
        match self {
            ListItem::Int(value) => Some(int_to_decimal(*value)),
            ListItem::Str(value) => Some(value.clone()),
            ListItem::Float(_) => None,
        }
    }
}

impl From<i32> for ListItem {
    fn from(value: i32) -> (item: Self) {
        ListItem::Int(value)
    }
}

impl FromSpecImpl<i32> for ListItem {
    open spec fn obeys_from_spec() -> bool {
        true
    }

    open spec fn from_spec(value: i32) -> Self {
        ListItem::Int(value)
    }
}

impl From<String> for ListItem {
    fn from(value: String) -> (item: Self) {
        ListItem::Str(value)
    }
}

impl FromSpecImpl<String> for ListItem {
    open spec fn obeys_from_spec() -> bool {
        true
    }

    open spec fn from_spec(value: String) -> Self {
        ListItem::Str(value)
    }
}

impl From<FloatBits> for ListItem {
    fn from(value: FloatBits) -> (item: Self) {
        ListItem::Float(value)
    }
}

impl FromSpecImpl<FloatBits> for ListItem {
    open spec fn obeys_from_spec() -> bool {
        true
    }

    open spec fn from_spec(value: FloatBits) -> Self {
        ListItem::Float(value)
    }
}

/// A type whose values an item can hold.
pub trait ItemValue: Sized + Into<ListItem> {
    /// The kind of the items that hold a value of this type.
    spec fn kind() -> ItemKind;

    /// The item that holds `self`.
    spec fn item_view(self) -> ItemView;

    /// An item that holds a value of this type is of this type's kind.
    proof fn lemma_item_view_kind(self)
        ensures
            self.item_view().kind() == Self::kind(),
    ;

    /// Converting a value into an item gives the item that holds it.
    proof fn lemma_into_item(self)
        ensures
            Self::obeys_into_spec(),
            self.into_spec()@ == self.item_view(),
    ;

    /// The value in `item`, where it is of this type.
    fn downcast_ref(item: &ListItem) -> (r: Option<&Self>)
        ensures
            match r {
                Some(value) => value.item_view() == item@,
                None => item@.kind() != Self::kind(),
            },
    ;

    /// The value in `item`, where it is of this type, to change in place.
    fn downcast_mut(item: &mut ListItem) -> (r: Option<&mut Self>)
        ensures
            match r {
                Some(value) => {
                    &&& value.item_view() == old(item)@
                    &&& final(item)@ == final(value).item_view()
                },
                None => {
                    &&& old(item)@.kind() != Self::kind()
                    &&& *final(item) == *old(item)
                },
            },
    ;
}

impl ItemValue for i32 {
    open spec fn kind() -> ItemKind {
        ItemKind::Int
    }

    open spec fn item_view(self) -> ItemView {
        ItemView::Int(self)
    }

    proof fn lemma_item_view_kind(self) {
    }

    proof fn lemma_into_item(self) {
    }

    fn downcast_ref(item: &ListItem) -> (r: Option<&Self>) {
        match item {
            ListItem::Int(value) => Some(value),
            _ => None,
        }
    }

    fn downcast_mut(item: &mut ListItem) -> (r: Option<&mut Self>) {
        match item {
            ListItem::Int(value) => Some(value),
            _ => None,
        }
    }
}

impl ItemValue for String {
    open spec fn kind() -> ItemKind {
        ItemKind::Str
    }

    open spec fn item_view(self) -> ItemView {
        ItemView::Str(self@)
    }

    proof fn lemma_item_view_kind(self) {
    }

    proof fn lemma_into_item(self) {
    }

    fn downcast_ref(item: &ListItem) -> (r: Option<&Self>) {
        match item {
            ListItem::Str(value) => Some(value),
            _ => None,
        }
    }

    fn downcast_mut(item: &mut ListItem) -> (r: Option<&mut Self>) {
        match item {
            ListItem::Str(value) => Some(value),
            _ => None,
        }
    }
}

impl ItemValue for FloatBits {
    open spec fn kind() -> ItemKind {
        ItemKind::Float
    }

    open spec fn item_view(self) -> ItemView {
        ItemView::Float(self.bits)
    }

    proof fn lemma_item_view_kind(self) {
    }

    proof fn lemma_into_item(self) {
    }

    fn downcast_ref(item: &ListItem) -> (r: Option<&Self>) {
        match item {
            ListItem::Float(value) => Some(value),
            _ => None,
        }
    }

    fn downcast_mut(item: &mut ListItem) -> (r: Option<&mut Self>) {
        match item {
            ListItem::Float(value) => Some(value),
            _ => None,
        }
    }
}

} // verus!
