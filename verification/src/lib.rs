//! A list whose items may hold values of different types.
//!
//! A [`List`] owns a sequence of [`ListItem`]s. Each item holds one value: an
//! integer, a text, or a double-precision number, which the list keeps as
//! the bits of its encoding. A value goes in by its own type and comes out
//! by `get::<T>`, which finds it only where the item holds a value of type
//! `T`.
//!
//! The contracts speak of a list as a sequence of item values (`model`), and
//! `laws` proves what follows from them for every list.

pub mod decimal;
pub mod item;
pub mod laws;
pub mod list;
pub mod model;

pub use item::FloatBits;
pub use item::ItemValue;
pub use item::ListItem;
pub use list::List;
pub use list::ListIter;
