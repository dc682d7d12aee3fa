//! The implementation the engine produces, as plain values.
use vstd::prelude::*;

use crate::receiver::ReceiverKind;
use crate::syntax::{opt_path_view, GenericPath, GenericPathV, Generics, GenericsV, Signature};

verus! {

/// `Enum::variant(x) => ..`; `ty` is the type of `x`, named in the
/// trait-qualified form of the call.
#[derive(Debug)]
pub struct Arm {
    pub variant: String,
    pub ty: String,
}

/// A forwarding method: `sig { match self { arms } }`.
///
/// Each arm calls the method of the same name on `x` with `args`: as
/// `x.method(args)` where `qualified` is `None`, as
/// `<ty as Trait>::method(x, args)` where it is `Some(Trait)`. For a pinned
/// receiver the match runs on `self.get_ref()` (shared pin) or
/// `self.get_unchecked_mut()` (mutable pin), and `x` is passed re-pinned as
/// `Pin::new_unchecked(x)`, with the wrapper spelled as `receiver` says;
/// `unsafe_block` says whether the match stands in an `unsafe` block.
pub struct ImplFn {
    pub attrs: String,
    pub sig: Signature,
    pub receiver: ReceiverKind,
    pub args: Vec<String>,
    pub qualified: Option<GenericPath>,
    pub arms: Vec<Arm>,
    pub unsafe_block: bool,
}

/// `type ident = <ty as trait_>::ident;`
pub struct ImplType {
    pub ident: String,
    pub ty: String,
    pub trait_: Option<GenericPath>,
}

/// An item of an implementation.
pub enum ImplItem {
    Type(ImplType),
    Fn(ImplFn),
    /// An item given as token text.
    Verbatim(String),
}

/// `unsafe? impl<generics> trait_ for self_ty where .. { items }`, with
/// `#[allow(unsafe_code)]` on it where `allow_unsafe_code` is set.
pub struct ItemImpl {
    pub allow_unsafe_code: bool,
    pub unsafety: bool,
    pub generics: Generics,
    pub trait_: Option<GenericPath>,
    pub self_ty: GenericPath,
    pub items: Vec<ImplItem>,
}

/// View of an [`ImplFn`].
pub struct ImplFnV {
    pub attrs: String,
    pub sig: Signature,
    pub receiver: ReceiverKind,
    pub args: Seq<String>,
    pub qualified: Option<GenericPathV>,
    pub arms: Seq<Arm>,
    pub unsafe_block: bool,
}

/// View of an [`ImplType`].
pub struct ImplTypeV {
    pub ident: String,
    pub ty: String,
    pub trait_: Option<GenericPathV>,
}

/// View of an [`ImplItem`].
pub enum ImplItemV {
    Type(ImplTypeV),
    Fn(ImplFnV),
    Verbatim(String),
}

/// View of an [`ItemImpl`].
pub struct ItemImplV {
    pub allow_unsafe_code: bool,
    pub unsafety: bool,
    pub generics: GenericsV,
    pub trait_: Option<GenericPathV>,
    pub self_ty: GenericPathV,
    pub items: Seq<ImplItemV>,
}

impl View for ImplFn {
    type V = ImplFnV;

    open spec fn view(&self) -> ImplFnV {
        ImplFnV {
            attrs: self.attrs,
            sig: self.sig,
            receiver: self.receiver,
            args: self.args@,
            qualified: opt_path_view(self.qualified),
            arms: self.arms@,
            unsafe_block: self.unsafe_block,
        }
    }
}

impl View for ImplType {
    type V = ImplTypeV;

    open spec fn view(&self) -> ImplTypeV {
        ImplTypeV { ident: self.ident, ty: self.ty, trait_: opt_path_view(self.trait_) }
    }
}

impl View for ImplItem {
    type V = ImplItemV;

    open spec fn view(&self) -> ImplItemV {
        match self {
            ImplItem::Type(t) => ImplItemV::Type(t@),
            ImplItem::Fn(f) => ImplItemV::Fn(f@),
            ImplItem::Verbatim(s) => ImplItemV::Verbatim(*s),
        }
    }
}

impl View for ItemImpl {
    type V = ItemImplV;

    open spec fn view(&self) -> ItemImplV {
        ItemImplV {
            allow_unsafe_code: self.allow_unsafe_code,
            unsafety: self.unsafety,
            generics: self.generics@,
            trait_: opt_path_view(self.trait_),
            self_ty: self.self_ty@,
            items: items_view(self.items@),
        }
    }
}

/// The views of a list of items.
pub open spec fn items_view(items: Seq<ImplItem>) -> Seq<ImplItemV> {
    items.map_values(|i: ImplItem| i@)
}

/// Whether an item is a method with a pinned receiver.
pub open spec fn is_pinned_fn(item: ImplItemV) -> bool {
    item matches ImplItemV::Fn(f) && f.receiver is Pinned
}

/// Whether some item is a method with a pinned receiver.
pub open spec fn has_pinned(items: Seq<ImplItemV>) -> bool {
    exists|i: int| 0 <= i < items.len() && is_pinned_fn(#[trigger] items[i])
}

/// Whether a method's pin projection, if it has one, stands in unsafe code:
/// an `unsafe` block, or an `unsafe fn`.
pub open spec fn is_guarded(item: ImplItemV) -> bool {
    is_pinned_fn(item) ==> item->Fn_0.unsafe_block || item->Fn_0.sig.unsafety
}

/// Whether every pin projection among `items` stands in unsafe code.
pub open spec fn all_guarded(items: Seq<ImplItemV>) -> bool {
    forall|i: int| 0 <= i < items.len() ==> is_guarded(#[trigger] items[i])
}

} // verus!
