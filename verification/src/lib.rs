//! Dirty-flag value wrappers: containers that hold a value together with a
//! freshness flag recording whether the value has changed since it was last
//! observed through a freshness-consuming read.
//!
//! Two structurally identical variants are provided: [`value::TrackedVal`]
//! for values with copy semantics, whose readers receive independent copies,
//! and [`reference::TrackedRef`] for values accessed through borrowed
//! references.

pub mod reference;
pub mod value;
