//! Synthesis of trait implementations for enums whose variants each hold
//! one value: the implementation matches on the variant and forwards every
//! trait method to the value it holds.
//!
//! The engine works on a plain-value model of the syntax ([`syntax`]):
//! [`EnumData::parse`] validates an enum, [`EnumImpl::from_trait`] builds
//! the implementation of a trait for it, and [`EnumImpl::build_impl`]
//! finishes it into an [`ItemImpl`] for a renderer to print.
pub mod ast;
pub mod bounds;
pub mod error;
pub mod item;
pub mod laws;
pub mod parse;
pub mod receiver;
pub mod syntax;

pub use crate::ast::{EnumData, EnumDataV};
pub use crate::error::{BodyReason, Error, ReceiverReason, ShapeReason};
pub use crate::item::{Arm, ImplFn, ImplItem, ImplType, ItemImpl};
pub use crate::parse::{derive_trait, EnumImpl};
pub use crate::receiver::{PinPath, ReceiverKind};
pub use crate::syntax::{
    AssocBinding, Fields, FnArg, GenericParam, GenericParamKind, GenericPath, Generics, ItemEnum,
    ItemTrait, Pat, Receiver, SelfType, Signature, SuperBound, TokenText, TraitBound, TraitItem,
    TraitItemFn, TraitItemType, Variant, WherePredicate,
};
