//! The builder of forwarding implementations.
use vstd::prelude::*;

use crate::ast::{EnumData, EnumDataV};
use crate::bounds::{
    assoc_bindings, assoc_bindings_of, skips_unmentioning, skips_unmentioning_types,
    synthesize_bounds, synthesized_bounds,
};
use crate::error::{BodyReason, Error};
use crate::item::{
    all_guarded, has_pinned, is_guarded, is_pinned_fn, items_view, Arm, ImplFn, ImplFnV, ImplItem,
    ImplItemV, ImplType, ImplTypeV, ItemImpl, ItemImplV,
};
use crate::receiver::{receiver_of, ReceiverKind};
use crate::syntax::{
    names_of, opt_path_view, param_names, preds_view, FnArg, GenericParam, GenericPath,
    GenericPathV, Generics, GenericsV, ItemTrait, Pat, Signature, TraitItem, TraitItemFn,
    WherePredicate, WherePredicateV,
};

verus! {

/// View of an [`EnumImpl`].
pub struct EnumImplV {
    pub data: EnumDataV,
    pub unsafety: bool,
    pub generics: GenericsV,
    pub trait_: Option<GenericPathV>,
    pub self_ty: GenericPathV,
    pub items: Seq<ImplItemV>,
    /// Whether some item is a method with a pinned receiver.
    pub pinned: bool,
}

impl EnumImplV {
    /// The enum is valid, `pinned` tells whether a method with a pinned
    /// receiver is among the items, and every pin projection stands in
    /// unsafe code.
    pub open spec fn inv(self) -> bool {
        &&& self.data.wf()
        &&& self.pinned == has_pinned(self.items)
        &&& all_guarded(self.items)
    }
}

/// A builder of an implementation for an enum.
pub struct EnumImpl<'a> {
    data: &'a EnumData,
    unsafety: bool,
    generics: Generics,
    trait_: Option<GenericPath>,
    self_ty: GenericPath,
    items: Vec<ImplItem>,
    pinned: bool,
}

impl<'a> View for EnumImpl<'a> {
    type V = EnumImplV;

    closed spec fn view(&self) -> EnumImplV {
        EnumImplV {
            data: self.data@,
            unsafety: self.unsafety,
            generics: self.generics@,
            trait_: opt_path_view(self.trait_),
            self_ty: self.self_ty@,
            items: items_view(self.items@),
            pinned: self.pinned,
        }
    }
}

/// The enum's own type, `Enum<params..>`.
pub open spec fn self_ty_of(data: EnumDataV) -> GenericPathV {
    GenericPathV { path: data.ident, args: param_names(data.generics.params) }
}

/// The names of the parameters after the receiver, or the error of the
/// first one that is not bound by a plain identifier.
pub open spec fn arg_names(method: String, args: Seq<FnArg>) -> Result<Seq<String>, Error>
    decreases args.len(),
{
    if args.len() == 0 {
        Ok(seq![])
    } else {
        match arg_names(method, args.drop_last()) {
            Err(e) => Err(e),
            Ok(prev) => match args.last() {
                FnArg::Typed(Pat::Ident(n)) => Ok(prev.push(n)),
                FnArg::Typed(Pat::Other) => Err(
                    Error::Body { method, reason: BodyReason::NonIdentPattern },
                ),
                FnArg::Receiver(_) => Err(
                    Error::Body { method, reason: BodyReason::ReceiverNotFirst },
                ),
            },
        }
    }
}

/// One arm per variant, in declaration order.
pub open spec fn arms_of(data: EnumDataV) -> Seq<Arm> {
    Seq::new(
        data.variant_idents.len(),
        |i: int| Arm { variant: data.variant_idents[i], ty: data.field_types[i].text },
    )
}

/// The forwarding method for a trait method, or the first error in it: a
/// default body, then the receiver, then the other parameters in order.
/// A pinned receiver's projection goes in an `unsafe` block unless the
/// method is an `unsafe fn`; an `unsafe impl` does not make the bodies of
/// its methods unsafe, so it spares no block.
pub open spec fn forwarded_method(
    data: EnumDataV,
    trait_: Option<GenericPathV>,
    item: TraitItemFn,
) -> Result<ImplFnV, Error> {
    if item.has_default {
        Err(Error::Body { method: item.sig.ident, reason: BodyReason::DefaultBody })
    } else {
        match receiver_of(item.sig) {
            Err(e) => Err(e),
            Ok(receiver) => match arg_names(item.sig.ident, item.sig.inputs@.drop_first()) {
                Err(e) => Err(e),
                Ok(args) => Ok(
                    ImplFnV {
                        attrs: item.attrs,
                        sig: item.sig,
                        receiver,
                        args,
                        qualified: trait_,
                        arms: arms_of(data),
                        unsafe_block: receiver is Pinned && !item.sig.unsafety,
                    },
                ),
            },
        }
    }
}

/// The items forwarding a trait's items, in order, or the first error:
/// `type A = <First as Trait>::A;` for an associated type that is not
/// generic, a forwarding method for a method, nothing for the rest.
pub open spec fn forwarded_items(
    data: EnumDataV,
    trait_: Option<GenericPathV>,
    items: Seq<TraitItem>,
) -> Result<Seq<ImplItemV>, Error>
    decreases items.len(),
{
    if items.len() == 0 {
        Ok(seq![])
    } else {
        match forwarded_items(data, trait_, items.drop_last()) {
            Err(e) => Err(e),
            Ok(prev) => match items.last() {
                TraitItem::Type(t) => if t.generic {
                    Ok(prev)
                } else {
                    Ok(
                        prev.push(
                            ImplItemV::Type(
                                ImplTypeV { ident: t.ident, ty: data.field_types[0].text, trait_ },
                            ),
                        ),
                    )
                },
                TraitItem::Fn(f) => match forwarded_method(data, trait_, f) {
                    Err(e) => Err(e),
                    Ok(m) => Ok(prev.push(ImplItemV::Fn(m))),
                },
                TraitItem::Other => Ok(prev),
            },
        }
    }
}

/// The trait as the implementation names it: its path with its own
/// generic parameters as arguments.
pub open spec fn trait_ref_of(trait_path: String, trait_def: ItemTrait) -> GenericPathV {
    GenericPathV { path: trait_path, args: param_names(trait_def.generics.params@) }
}

/// The bounds that [`EnumImpl::from_trait`] adds to the `where` clause.
pub open spec fn bounds_for(
    data: EnumDataV,
    trait_path: String,
    supertraits_types: Seq<String>,
    trait_def: ItemTrait,
) -> Seq<WherePredicateV> {
    let trait_ = trait_ref_of(trait_path, trait_def);
    synthesized_bounds(
        data,
        trait_,
        assoc_bindings_of(trait_def, supertraits_types, data.field_types[0].text, trait_),
        skips_unmentioning(data, trait_def),
        data.field_types.len() as int,
    )
}

/// The implementation of the trait `trait_def`, named by `trait_path`, for
/// the enum, or the first error among its items. Its generics are the
/// enum's followed by the trait's, its `where` clause the enum's, then the
/// synthesized bounds, then the trait's; it is `unsafe` where the trait is.
pub open spec fn from_trait_spec(
    data: EnumDataV,
    trait_path: String,
    supertraits_types: Seq<String>,
    trait_def: ItemTrait,
) -> Result<EnumImplV, Error> {
    let trait_ = trait_ref_of(trait_path, trait_def);
    match forwarded_items(data, Some(trait_), trait_def.items@) {
        Err(e) => Err(e),
        Ok(items) => Ok(
            EnumImplV {
                data,
                unsafety: trait_def.unsafety,
                generics: GenericsV {
                    params: data.generics.params + trait_def.generics.params@,
                    where_clause: data.generics.where_clause + bounds_for(
                        data,
                        trait_path,
                        supertraits_types,
                        trait_def,
                    ) + preds_view(trait_def.generics.where_clause@),
                },
                trait_: Some(trait_),
                self_ty: self_ty_of(data),
                items,
                pinned: has_pinned(items),
            },
        ),
    }
}

/// The finished implementation: marked to allow unsafe code exactly where
/// a method with a pinned receiver is among its items.
pub open spec fn built(b: EnumImplV) -> ItemImplV {
    ItemImplV {
        allow_unsafe_code: b.pinned,
        unsafety: b.unsafety,
        generics: b.generics,
        trait_: b.trait_,
        self_ty: b.self_ty,
        items: b.items,
    }
}

/// Once the parameters up to `k` hold an error, it is the one reported.
pub proof fn lemma_arg_error_settled(method: String, args: Seq<FnArg>, k: int, m: int)
    requires
        0 <= k <= m <= args.len(),
        arg_names(method, args.subrange(0, k)) is Err,
    ensures
        arg_names(method, args.subrange(0, m)) == arg_names(method, args.subrange(0, k)),
    decreases m - k,
{
    if m > k {
        lemma_arg_error_settled(method, args, k, m - 1);
        assert(args.subrange(0, m).drop_last() =~= args.subrange(0, m - 1));
    }
}

/// Once the items up to `k` hold an error, it is the one reported.
pub proof fn lemma_item_error_settled(
    data: EnumDataV,
    trait_: Option<GenericPathV>,
    items: Seq<TraitItem>,
    k: int,
    m: int,
)
    requires
        0 <= k <= m <= items.len(),
        forwarded_items(data, trait_, items.subrange(0, k)) is Err,
    ensures
        forwarded_items(data, trait_, items.subrange(0, m)) == forwarded_items(
            data,
            trait_,
            items.subrange(0, k),
        ),
    decreases m - k,
{
    if m > k {
        lemma_item_error_settled(data, trait_, items, k, m - 1);
        assert(items.subrange(0, m).drop_last() =~= items.subrange(0, m - 1));
    }
}

/// A forwarded method's pin projection stands in unsafe code.
pub proof fn lemma_forwarded_guarded(
    data: EnumDataV,
    trait_: Option<GenericPathV>,
    items: Seq<TraitItem>,
)
    requires
        forwarded_items(data, trait_, items) is Ok,
    ensures
        all_guarded(forwarded_items(data, trait_, items)->Ok_0),
    decreases items.len(),
{
    if items.len() > 0 {
        lemma_forwarded_guarded(data, trait_, items.drop_last());
        let prev = forwarded_items(data, trait_, items.drop_last())->Ok_0;
        let all = forwarded_items(data, trait_, items)->Ok_0;
        assert forall|i: int| 0 <= i < all.len() implies is_guarded(#[trigger] all[i]) by {
            if i < prev.len() {
                assert(all[i] == prev[i]);
            }
        }
    }
}

/// Appending an item adds a pinned method exactly where the item is one.
pub proof fn lemma_has_pinned_push(items: Seq<ImplItemV>, item: ImplItemV)
    ensures
        has_pinned(items.push(item)) == (has_pinned(items) || is_pinned_fn(item)),
{
    let all = items.push(item);
    if has_pinned(items) {
        let i = choose|i: int| 0 <= i < items.len() && is_pinned_fn(#[trigger] items[i]);
        assert(all[i] == items[i]);
    }
    if is_pinned_fn(item) {
        assert(all[items.len() as int] == item);
    }
    if has_pinned(all) {
        let i = choose|i: int| 0 <= i < all.len() && is_pinned_fn(#[trigger] all[i]);
        if i < items.len() {
            assert(all[i] == items[i]);
        }
    }
}

/// Concatenation keeps what each part says of pinned methods and of pin
/// projections.
pub proof fn lemma_concat_items(a: Seq<ImplItemV>, b: Seq<ImplItemV>)
    ensures
        has_pinned(a + b) == (has_pinned(a) || has_pinned(b)),
        all_guarded(a) && all_guarded(b) ==> all_guarded(a + b),
{
    let all = a + b;
    if has_pinned(a) {
        let i = choose|i: int| 0 <= i < a.len() && is_pinned_fn(#[trigger] a[i]);
        assert(all[i] == a[i]);
    }
    if has_pinned(b) {
        let i = choose|i: int| 0 <= i < b.len() && is_pinned_fn(#[trigger] b[i]);
        assert(all[a.len() + i] == b[i]);
    }
    if has_pinned(all) {
        let i = choose|i: int| 0 <= i < all.len() && is_pinned_fn(#[trigger] all[i]);
        if i < a.len() {
            assert(all[i] == a[i]);
        } else {
            assert(all[i] == b[i - a.len()]);
        }
    }
    if all_guarded(a) && all_guarded(b) {
        assert forall|i: int| 0 <= i < all.len() implies is_guarded(#[trigger] all[i]) by {
            if i < a.len() {
                assert(all[i] == a[i]);
            } else {
                assert(all[i] == b[i - a.len()]);
            }
        }
    }
}

/// The parameters after the receiver, as [`arg_names`] says.
fn collect_args(sig: &Signature) -> (r: Result<Vec<String>, Error>)
    requires
        sig.inputs@.len() >= 1,
    ensures
        match r {
            Ok(v) => arg_names(sig.ident, sig.inputs@.drop_first()) == Ok::<Seq<String>, Error>(v@),
            Err(e) => arg_names(sig.ident, sig.inputs@.drop_first()) == Err::<Seq<String>, Error>(e),
        },
{
    let ghost rest = sig.inputs@.drop_first();
    let n = sig.inputs.len();
    let mut args: Vec<String> = Vec::new();
    let mut i: usize = 1;
    while i < n
        invariant
            n == sig.inputs@.len(),
            rest == sig.inputs@.drop_first(),
            1 <= i <= n,
            arg_names(sig.ident, rest.subrange(0, i - 1)) == Ok::<Seq<String>, Error>(args@),
        decreases n - i,
    {
        assert(rest.subrange(0, i as int).drop_last() =~= rest.subrange(0, i - 1));
        assert(rest.subrange(0, i as int).last() == sig.inputs@[i as int]);
        let reason = match &sig.inputs[i] {
            FnArg::Typed(Pat::Ident(name)) => {
                args.push(name.clone());
                i = i + 1;
                continue ;
            },
            FnArg::Typed(Pat::Other) => BodyReason::NonIdentPattern,
            FnArg::Receiver(_) => BodyReason::ReceiverNotFirst,
        };
        proof {
            lemma_arg_error_settled(sig.ident, rest, i as int, rest.len() as int);
            assert(rest.subrange(0, rest.len() as int) =~= rest);
        }
        return Err(Error::Body { method: sig.ident.clone(), reason });
    }
    assert(rest.subrange(0, n - 1) =~= rest);
    Ok(args)
}

/// The arms of a forwarding match, as [`arms_of`] says.
fn arms(data: &EnumData) -> (r: Vec<Arm>)
    requires
        data@.wf(),
    ensures
        r@ == arms_of(data@),
{
    let n = data.variant_idents.len();
    let mut r: Vec<Arm> = Vec::new();
    let mut i: usize = 0;
    while i < n
        invariant
            n == data@.variant_idents.len(),
            data@.wf(),
            i <= n,
            r@ =~= arms_of(data@).subrange(0, i as int),
        decreases n - i,
    {
        r.push(
            Arm { variant: data.variant_idents[i].clone(), ty: data.field_types[i].text.clone() },
        );
        i = i + 1;
    }
    r
}

fn copy_path(p: &Option<GenericPath>) -> (r: Option<GenericPath>)
    ensures
        opt_path_view(r) == opt_path_view(*p),
{
    match p {
        Some(p) => Some(p.duplicate()),
        None => None,
    }
}

impl<'a> EnumImpl<'a> {
    /// A builder with no trait yet: methods pushed to it forward as
    /// `x.method(args)`.
    pub fn new(data: &'a EnumData) -> (r: Self)
        requires
            data@.wf(),
        ensures
            r@ == (EnumImplV {
                data: data@,
                unsafety: false,
                generics: data@.generics,
                trait_: None,
                self_ty: self_ty_of(data@),
                items: seq![],
                pinned: false,
            }),
            r@.inv(),
    {
        let r = EnumImpl {
            data,
            unsafety: false,
            generics: data.generics.duplicate(),
            trait_: None,
            self_ty: GenericPath { path: data.ident.clone(), args: names_of(&data.generics.params) },
            items: Vec::new(),
            pinned: false,
        };
        assert(r@.items =~= seq![]);
        r
    }

    /// The forwarding method for `item`, as [`forwarded_method`] says.
    fn forward_method(&self, item: TraitItemFn) -> (r: Result<ImplFn, Error>)
        requires
            self@.data.wf(),
        ensures
            match r {
                Ok(f) => forwarded_method(self@.data, self@.trait_, item) == Ok::<ImplFnV, Error>(
                    f@,
                ),
                Err(e) => forwarded_method(self@.data, self@.trait_, item) == Err::<ImplFnV, Error>(
                    e,
                ),
            },
    {
        if item.has_default {
            return Err(Error::Body { method: item.sig.ident, reason: BodyReason::DefaultBody });
        }
        let receiver = match ReceiverKind::new(&item.sig) {
            Ok(k) => k,
            Err(e) => return Err(e),
        };
        let args = match collect_args(&item.sig) {
            Ok(a) => a,
            Err(e) => return Err(e),
        };
        let pinned = match receiver {
            ReceiverKind::Pinned { .. } => true,
            ReceiverKind::Normal => false,
        };
        let unsafe_block = pinned && !item.sig.unsafety;
        Ok(
            ImplFn {
                attrs: item.attrs,
                sig: item.sig,
                receiver,
                args,
                qualified: copy_path(&self.trait_),
                arms: arms(self.data),
                unsafe_block,
            },
        )
    }

    /// Sets the trait that later methods are forwarded through.
    pub fn set_trait(&mut self, path: GenericPath)
        ensures
            final(self)@ == (EnumImplV { trait_: Some(path@), ..old(self)@ }),
    {
        self.trait_ = Some(path);
    }

    /// Appends a generic parameter.
    pub fn push_generic_param(&mut self, param: GenericParam)
        ensures
            final(self)@ == (EnumImplV {
                generics: GenericsV {
                    params: old(self)@.generics.params.push(param),
                    ..old(self)@.generics
                },
                ..old(self)@
            }),
    {
        self.generics.params.push(param);
    }

    /// Appends a predicate to the `where` clause.
    pub fn push_where_predicate(&mut self, predicate: WherePredicate)
        ensures
            final(self)@ == (EnumImplV {
                generics: GenericsV {
                    where_clause: old(self)@.generics.where_clause.push(predicate@),
                    ..old(self)@.generics
                },
                ..old(self)@
            }),
    {
        let ghost before = self.generics.where_clause@;
        self.generics.where_clause.push(predicate);
        assert(preds_view(self.generics.where_clause@) =~= preds_view(before).push(predicate@));
    }

    /// Appends an item; one with a pinned receiver must keep its projection
    /// in unsafe code.
    pub fn push_item(&mut self, item: ImplItem)
        requires
            old(self)@.inv(),
            is_guarded(item@),
        ensures
            final(self)@ == (EnumImplV {
                items: old(self)@.items.push(item@),
                pinned: old(self)@.pinned || is_pinned_fn(item@),
                ..old(self)@
            }),
            final(self)@.inv(),
    {
        let ghost before = self.items@;
        let pinned = match &item {
            ImplItem::Fn(f) => match f.receiver {
                ReceiverKind::Pinned { .. } => true,
                ReceiverKind::Normal => false,
            },
            _ => false,
        };
        self.items.push(item);
        self.pinned = self.pinned || pinned;
        proof {
            assert(items_view(self.items@) =~= items_view(before).push(item@));
            lemma_has_pinned_push(items_view(before), item@);
            let all = items_view(self.items@);
            assert forall|i: int| 0 <= i < all.len() implies is_guarded(#[trigger] all[i]) by {
                if i < before.len() {
                    assert(all[i] == items_view(before)[i]);
                }
            }
        }
    }

    /// Appends the method forwarding `item`, as [`forwarded_method`] says;
    /// on an error nothing changes.
    pub fn push_method(&mut self, item: TraitItemFn) -> (r: Result<(), Error>)
        requires
            old(self)@.inv(),
        ensures
            final(self)@.inv(),
            match forwarded_method(old(self)@.data, old(self)@.trait_, item) {
                Ok(f) => r is Ok && final(self)@ == (EnumImplV {
                    items: old(self)@.items.push(ImplItemV::Fn(f)),
                    pinned: old(self)@.pinned || f.receiver is Pinned,
                    ..old(self)@
                }),
                Err(e) => r == Err::<(), Error>(e) && final(self)@ == old(self)@,
            },
    {
        match self.forward_method(item) {
            Ok(f) => {
                self.push_item(ImplItem::Fn(f));
                Ok(())
            },
            Err(e) => Err(e),
        }
    }

    fn append_items(&mut self, items: Vec<TraitItem>) -> (r: Result<(), Error>)
        requires
            old(self)@.inv(),
        ensures
            final(self)@.inv(),
            match forwarded_items(old(self)@.data, old(self)@.trait_, items@) {
                Ok(new) => r is Ok && final(self)@ == (EnumImplV {
                    items: old(self)@.items + new,
                    pinned: old(self)@.pinned || has_pinned(new),
                    ..old(self)@
                }),
                Err(e) => r == Err::<(), Error>(e) && final(self)@ == old(self)@,
            },
    {
        let ghost items0 = items@;
        let ghost data = self@.data;
        let ghost trait_ = self@.trait_;
        let n = items.len();
        let mut rest = items;
        let mut added: Vec<ImplItem> = Vec::new();
        let mut pinned = false;
        let mut i: usize = 0;
        assert(items_view(added@) =~= seq![]);
        assert(items0.subrange(0, 0) =~= seq![]);
        while i < n
            invariant
                n == items0.len(),
                items0 == items@,
                i <= n,
                self@ == old(self)@,
                old(self)@.inv(),
                data == self@.data,
                trait_ == self@.trait_,
                data.wf(),
                rest@ == items0.subrange(i as int, n as int),
                forwarded_items(data, trait_, items0.subrange(0, i as int)) == Ok::<
                    Seq<ImplItemV>,
                    Error,
                >(items_view(added@)),
                pinned == has_pinned(items_view(added@)),
            decreases n - i,
        {
            let item = rest.remove(0);
            assert(item == items0[i as int]);
            assert(items0.subrange(0, i + 1).drop_last() =~= items0.subrange(0, i as int));
            assert(items0.subrange(0, i + 1).last() == items0[i as int]);
            let ghost before = added@;
            match item {
                TraitItem::Type(t) => {
                    if !t.generic {
                        let ty = ImplType {
                            ident: t.ident,
                            ty: self.data.field_types[0].text.clone(),
                            trait_: copy_path(&self.trait_),
                        };
                        added.push(ImplItem::Type(ty));
                        proof {
                            lemma_has_pinned_push(items_view(before), ImplItem::Type(ty)@);
                        }
                    }
                },
                TraitItem::Fn(f) => match self.forward_method(f) {
                    Ok(m) => {
                        let p = match m.receiver {
                            ReceiverKind::Pinned { .. } => true,
                            ReceiverKind::Normal => false,
                        };
                        pinned = pinned || p;
                        let ghost it = ImplItem::Fn(m)@;
                        added.push(ImplItem::Fn(m));
                        proof {
                            lemma_has_pinned_push(items_view(before), it);
                        }
                    },
                    Err(e) => {
                        assert(forwarded_items(data, trait_, items0.subrange(0, i + 1)) == Err::<
                            Seq<ImplItemV>,
                            Error,
                        >(e));
                        proof {
                            lemma_item_error_settled(data, trait_, items0, i + 1, n as int);
                            assert(items0.subrange(0, n as int) =~= items0);
                        }
                        return Err(e);
                    },
                },
                TraitItem::Other => {},
            }
            assert(items_view(added@) =~= forwarded_items(
                data,
                trait_,
                items0.subrange(0, i + 1),
            )->Ok_0);
            i = i + 1;
        }
        assert(items0.subrange(0, n as int) =~= items0);
        let ghost old_items = items_view(self.items@);
        let ghost new_items = items_view(added@);
        self.items.append(&mut added);
        self.pinned = self.pinned || pinned;
        proof {
            lemma_forwarded_guarded(data, trait_, items0);
            assert(items_view(self.items@) =~= old_items + new_items);
            lemma_concat_items(old_items, new_items);
        }
        Ok(())
    }

    /// Appends the items forwarding the trait's items, as
    /// [`forwarded_items`] says; on an error nothing changes.
    pub fn append_items_from_trait(&mut self, trait_def: ItemTrait) -> (r: Result<(), Error>)
        requires
            old(self)@.inv(),
        ensures
            final(self)@.inv(),
            match forwarded_items(old(self)@.data, old(self)@.trait_, trait_def.items@) {
                Ok(new) => r is Ok && final(self)@ == (EnumImplV {
                    items: old(self)@.items + new,
                    pinned: old(self)@.pinned || has_pinned(new),
                    ..old(self)@
                }),
                Err(e) => r == Err::<(), Error>(e) && final(self)@ == old(self)@,
            },
    {
        self.append_items(trait_def.items)
    }

    /// The implementation of the trait `trait_def`, named by `trait_path`,
    /// for the enum, as [`from_trait_spec`] says. `supertraits_types` names
    /// the associated types of the first supertrait that all variants must
    /// agree on.
    pub fn from_trait(
        data: &'a EnumData,
        trait_path: &String,
        supertraits_types: Vec<String>,
        trait_def: ItemTrait,
    ) -> (r: Result<Self, Error>)
        requires
            data@.wf(),
        ensures
            match r {
                Ok(b) => from_trait_spec(data@, *trait_path, supertraits_types@, trait_def)
                    == Ok::<EnumImplV, Error>(b@) && b@.inv(),
                Err(e) => from_trait_spec(data@, *trait_path, supertraits_types@, trait_def)
                    == Err::<EnumImplV, Error>(e),
            },
    {
        let trait_ = GenericPath {
            path: trait_path.clone(),
            args: names_of(&trait_def.generics.params),
        };
        let bindings = assoc_bindings(
            &trait_def,
            &supertraits_types,
            &data.field_types[0].text,
            &trait_,
        );
        let skip = skips_unmentioning_types(data, &trait_def);
        let mut bounds = synthesize_bounds(data, &trait_, &bindings, skip);
        let ItemTrait { unsafety, ident: _, generics: trait_generics, supertraits: _, items } =
            trait_def;
        let Generics { params: mut trait_params, where_clause: mut trait_preds } = trait_generics;
        let mut generics = data.generics.duplicate();
        let ghost g0 = generics;
        let ghost b0 = bounds@;
        let ghost t0 = trait_preds@;
        generics.params.append(&mut trait_params);
        generics.where_clause.append(&mut bounds);
        generics.where_clause.append(&mut trait_preds);
        assert(preds_view(generics.where_clause@) =~= preds_view(g0.where_clause@) + preds_view(b0)
            + preds_view(t0));
        let mut imp = EnumImpl {
            data,
            unsafety,
            generics,
            trait_: Some(trait_),
            self_ty: GenericPath { path: data.ident.clone(), args: names_of(&data.generics.params) },
            items: Vec::new(),
            pinned: false,
        };
        assert(imp@.items =~= seq![]);
        match imp.append_items(items) {
            Ok(()) => Ok(imp),
            Err(e) => Err(e),
        }
    }

    /// The finished implementation, as [`built`] says.
    pub fn build_impl(self) -> (r: ItemImpl)
        ensures
            r@ == built(self@),
    {
        ItemImpl {
            allow_unsafe_code: self.pinned,
            unsafety: self.unsafety,
            generics: self.generics,
            trait_: self.trait_,
            self_ty: self.self_ty,
            items: self.items,
        }
    }
}

/// The implementation of the trait `trait_def`, named by `trait_path`, for
/// the enum, finished, or the first error.
pub fn derive_trait(
    data: &EnumData,
    trait_path: &String,
    supertraits_types: Vec<String>,
    trait_def: ItemTrait,
) -> (r: Result<ItemImpl, Error>)
    requires
        data@.wf(),
    ensures
        match from_trait_spec(data@, *trait_path, supertraits_types@, trait_def) {
            Ok(b) => r is Ok && r->Ok_0@ == built(b),
            Err(e) => r == Err::<ItemImpl, Error>(e),
        },
{
    match EnumImpl::from_trait(data, trait_path, supertraits_types, trait_def) {
        Ok(b) => Ok(b.build_impl()),
        Err(e) => Err(e),
    }
}

} // verus!
