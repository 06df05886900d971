//! A columnar value store for entity/component-style simulations: growable
//! slot arrays addressed by generational identifiers, tagged at compile time
//! with the arena they belong to. Parallel same-arena arrays combine
//! elementwise through contextual iterators and lazy arithmetic expressions,
//! with no runtime index-compatibility checks on the hot path. Every
//! operation carries a verified contract over a sequence model of the store.

pub use component::Component;
pub use context::{Iter, Mapped, Zip};
pub use expr::{BinOp, Expr};
pub use from_iter::FromContextualIterator;
pub use ids::{Fixed, Id, IdRange, UntypedId, Valid, ValidId};
pub use index_vec::IndexVec;
pub use raw_component::RawComponent;
pub use untyped_component::UntypedComponent;

mod component;
mod context;
mod expr;
mod from_iter;
mod ids;
mod index_vec;
mod raw_component;
mod untyped_component;
