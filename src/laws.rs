//! Properties that hold of the engine as a whole.
use vstd::prelude::*;

use crate::ast::{
    first_shape_error, is_declaration_of, lemma_first_error_settled, lemma_no_shape_error,
    payload_of, shape_reason, validate, variant_error, EnumDataV,
};
use crate::bounds::{
    assoc_bindings_of, lemma_bound_count, needs_bound, own_assoc_types, skips_unmentioning,
    synthesized_bounds,
};
use crate::error::{Error, ShapeReason};
use crate::item::{is_guarded, is_pinned_fn};
use crate::parse::{
    arg_names, bounds_for, built, forwarded_items, forwarded_method, from_trait_spec, trait_ref_of,
    EnumImplV,
};
use crate::receiver::receiver_of;
use crate::syntax::{
    AssocBindingV, FnArg, Fields, GenericPathV, ItemEnum, ItemTrait, Pat, TraitItem,
    WherePredicateV,
};

verus! {

/// Whether `p` is the bound `V: trait_` without associated-type bindings.
pub open spec fn is_plain_bound(p: WherePredicateV, trait_: GenericPathV) -> bool {
    p matches WherePredicateV::Bound(b) && b.trait_ == trait_ && b.bindings.len() == 0
}

/// Whether every variant holds exactly one unnamed field and has no
/// discriminant.
pub open spec fn single_field_variants(item: ItemEnum) -> bool {
    forall|i: int|
        0 <= i < item.variants@.len() ==> {
            &&& (#[trigger] item.variants@[i]).discriminant is None
            &&& item.variants@[i].fields matches Fields::Unnamed(t) && t@.len() == 1
        }
}

/// Whether the engine supports a trait item: an associated type without
/// generic parameters of its own, a method without a default body whose
/// receiver is supported and whose other parameters are plain identifiers,
/// or an item it leaves out.
pub open spec fn is_supported(item: TraitItem) -> bool {
    match item {
        TraitItem::Type(t) => !t.generic,
        TraitItem::Fn(f) => {
            &&& !f.has_default
            &&& receiver_of(f.sig) is Ok
            &&& forall|j: int|
                1 <= j < f.sig.inputs@.len() ==> (#[trigger] f.sig.inputs@[j]) matches FnArg::Typed(
                    Pat::Ident(_),
                )
        },
        TraitItem::Other => true,
    }
}

/// The number of associated types and methods among `items`.
pub open spec fn forwarded_count(items: Seq<TraitItem>) -> nat
    decreases items.len(),
{
    if items.len() == 0 {
        0
    } else {
        forwarded_count(items.drop_last()) + if items.last() is Other {
            0nat
        } else {
            1nat
        }
    }
}

proof fn lemma_args_ok(method: String, args: Seq<FnArg>)
    requires
        forall|j: int| 0 <= j < args.len() ==> (#[trigger] args[j]) matches FnArg::Typed(Pat::Ident(_)),
    ensures
        arg_names(method, args) is Ok,
    decreases args.len(),
{
    if args.len() > 0 {
        let prev = args.drop_last();
        assert forall|j: int| 0 <= j < prev.len() implies (#[trigger] prev[j]) matches FnArg::Typed(
            Pat::Ident(_),
        ) by {
            assert(prev[j] == args[j]);
        }
        lemma_args_ok(method, prev);
        assert(args.last() == args[args.len() - 1]);
    }
}

proof fn lemma_items_ok(data: EnumDataV, trait_: Option<GenericPathV>, items: Seq<TraitItem>)
    requires
        forall|k: int| 0 <= k < items.len() ==> is_supported(#[trigger] items[k]),
    ensures
        forwarded_items(data, trait_, items) is Ok,
        forwarded_items(data, trait_, items)->Ok_0.len() == forwarded_count(items),
    decreases items.len(),
{
    if items.len() > 0 {
        let prev = items.drop_last();
        assert forall|k: int| 0 <= k < prev.len() implies is_supported(#[trigger] prev[k]) by {
            assert(prev[k] == items[k]);
        }
        lemma_items_ok(data, trait_, prev);
        let last = items.last();
        assert(is_supported(items[items.len() - 1]));
        if let TraitItem::Fn(f) = last {
            let rest = f.sig.inputs@.drop_first();
            assert forall|j: int| 0 <= j < rest.len() implies (#[trigger] rest[j]) matches FnArg::Typed(
                Pat::Ident(_),
            ) by {
                assert(rest[j] == f.sig.inputs@[j + 1]);
            }
            lemma_args_ok(f.sig.ident, rest);
            assert(forwarded_method(data, trait_, f) is Ok);
        }
    }
}

/// An enum with at least two variants, each holding exactly one unnamed
/// field, passes validation; then, for every trait whose items are all
/// supported, synthesis succeeds and gives one item per associated type and
/// method of the trait.
pub proof fn synthesis_succeeds(
    item: ItemEnum,
    trait_path: String,
    supertraits_types: Seq<String>,
    trait_def: ItemTrait,
)
    requires
        item.variants@.len() >= 2,
        single_field_variants(item),
        forall|k: int| 0 <= k < trait_def.items@.len() ==> is_supported(#[trigger] trait_def.items@[k]),
    ensures
        validate(item) is Ok,
        from_trait_spec(validate(item)->Ok_0, trait_path, supertraits_types, trait_def) is Ok,
        from_trait_spec(
            validate(item)->Ok_0,
            trait_path,
            supertraits_types,
            trait_def,
        )->Ok_0.items.len() == forwarded_count(trait_def.items@),
{
    let vs = item.variants@;
    assert forall|j: int| 0 <= j < vs.len() implies (#[trigger] variant_error(vs[j], j)) is None by {
        assert(vs[j] == item.variants@[j]);
    }
    lemma_no_shape_error(vs, vs.len() as int);
    let data = validate(item)->Ok_0;
    lemma_items_ok(data, Some(trait_ref_of(trait_path, trait_def)), trait_def.items@);
}

/// Validating the declaration of an already validated enum gives back the
/// same description.
pub proof fn revalidation_succeeds(d: EnumDataV, item: ItemEnum)
    requires
        d.wf(),
        is_declaration_of(item, d),
    ensures
        validate(item) == Ok::<EnumDataV, Error>(d),
{
    let vs = item.variants@;
    assert forall|j: int| 0 <= j < vs.len() implies (#[trigger] variant_error(vs[j], j)) is None by {
        assert(vs[j] == item.variants@[j]);
    }
    lemma_no_shape_error(vs, vs.len() as int);
    assert(vs.map_values(|v: crate::syntax::Variant| v.ident) =~= d.variant_idents);
    assert forall|i: int| 0 <= i < vs.len() implies payload_of(#[trigger] vs[i]) == d.field_types[i] by {
        assert(vs[i] == item.variants@[i]);
        let t = vs[i].fields->Unnamed_0;
        assert(t@ == seq![d.field_types[i]]);
        assert(t@[0] == d.field_types[i]);
    }
    assert(vs.map_values(|v: crate::syntax::Variant| payload_of(v)) =~= d.field_types);
}

proof fn lemma_bounds_unbound(
    data: EnumDataV,
    trait_: GenericPathV,
    skip: bool,
    k: int,
)
    ensures
        forall|i: int|
            0 <= i < synthesized_bounds(data, trait_, seq![], skip, k).len() ==> is_plain_bound(
                #[trigger] synthesized_bounds(data, trait_, seq![], skip, k)[i],
                trait_,
            ),
    decreases k,
{
    if k > 0 {
        lemma_bounds_unbound(data, trait_, skip, k - 1);
        let prev = synthesized_bounds(data, trait_, seq![], skip, k - 1);
        let all = synthesized_bounds(data, trait_, seq![], skip, k);
        assert forall|i: int| 0 <= i < all.len() implies is_plain_bound(#[trigger] all[i], trait_) by {
            if i < prev.len() {
                assert(all[i] == prev[i]);
            }
        }
    }
}

/// For a trait with no associated types (and no supertrait types named),
/// every synthesized bound is the plain `V: Trait`; there is at least one
/// and at most one per variant, and exactly one per variant where no
/// variant's type has the text of the first one's and no bound is skipped.
pub proof fn bound_count(
    data: EnumDataV,
    trait_path: String,
    supertraits_types: Seq<String>,
    trait_def: ItemTrait,
)
    requires
        data.wf(),
        own_assoc_types(trait_def.items@).len() == 0,
        supertraits_types.len() == 0,
    ensures
        1 <= bounds_for(data, trait_path, supertraits_types, trait_def).len()
            <= data.field_types.len(),
        (forall|i: int| 1 <= i < data.field_types.len() ==> (#[trigger] data.field_types[i]).text@ != data.field_types[0].text@)
            && !skips_unmentioning(data, trait_def) ==> bounds_for(
            data,
            trait_path,
            supertraits_types,
            trait_def,
        ).len() == data.field_types.len(),
        forall|i: int|
            0 <= i < bounds_for(data, trait_path, supertraits_types, trait_def).len() ==> is_plain_bound(
                #[trigger] bounds_for(data, trait_path, supertraits_types, trait_def)[i],
                trait_ref_of(trait_path, trait_def),
            ),
{
    let trait_ = trait_ref_of(trait_path, trait_def);
    let fst = data.field_types[0].text;
    let bindings = assoc_bindings_of(trait_def, supertraits_types, fst, trait_);
    assert(bindings =~= Seq::<AssocBindingV>::empty());
    let skip = skips_unmentioning(data, trait_def);
    let n = data.field_types.len() as int;
    lemma_bound_count(data, trait_, bindings, skip, n);
    if (forall|i: int| 1 <= i < n ==> (#[trigger] data.field_types[i]).text@ != data.field_types[0].text@)
        && !skip {
        assert forall|i: int| 0 <= i < n implies #[trigger] needs_bound(data, skip, i) by {
            if i > 0 {
                assert(data.field_types[i].text@ != data.field_types[0].text@);
            }
        }
    }
    lemma_bounds_unbound(data, trait_, skip, n);
}

/// In a finished implementation every method with a pinned receiver keeps
/// its pin projection in unsafe code (an `unsafe` block or an `unsafe fn`),
/// and the implementation is marked to allow unsafe code.
pub proof fn pinned_methods_are_guarded(b: EnumImplV)
    requires
        b.inv(),
    ensures
        forall|i: int|
            0 <= i < built(b).items.len() && is_pinned_fn(#[trigger] built(b).items[i]) ==> {
                &&& built(b).allow_unsafe_code
                &&& built(b).items[i]->Fn_0.unsafe_block || built(b).items[i]->Fn_0.sig.unsafety
            },
{
    assert forall|i: int|
        0 <= i < built(b).items.len() && is_pinned_fn(#[trigger] built(b).items[i]) implies {
        &&& built(b).allow_unsafe_code
        &&& built(b).items[i]->Fn_0.unsafe_block || built(b).items[i]->Fn_0.sig.unsafety
    } by {
        assert(is_guarded(b.items[i]));
    }
}

/// An enum with fewer than two variants is rejected, whatever its variants.
pub proof fn too_few_variants_rejected(item: ItemEnum)
    requires
        item.variants@.len() < 2,
    ensures
        validate(item) == Err::<EnumDataV, Error>(
            Error::TooFewVariants { count: item.variants@.len() as usize },
        ),
{
}

/// An enum with exactly two variants, each holding one unnamed field, is
/// accepted.
pub proof fn two_variants_accepted(item: ItemEnum)
    requires
        item.variants@.len() == 2,
        single_field_variants(item),
    ensures
        validate(item) is Ok,
{
    let vs = item.variants@;
    assert forall|j: int| 0 <= j < vs.len() implies (#[trigger] variant_error(vs[j], j)) is None by {
        assert(vs[j] == item.variants@[j]);
    }
    lemma_no_shape_error(vs, 2);
}

/// A variant without a discriminant whose fields are not exactly one
/// unnamed field is reported by position, name and reason, whatever the
/// variants after it; the variants before it must be valid, since the first
/// error is the one reported.
pub proof fn bad_variant_identified(item: ItemEnum, i: int)
    requires
        item.variants@.len() >= 2,
        0 <= i < item.variants@.len(),
        item.variants@[i].discriminant is None,
        !(item.variants@[i].fields matches Fields::Unnamed(t) && t@.len() == 1),
        forall|j: int| 0 <= j < i ==> shape_reason(#[trigger] item.variants@[j]) is None,
    ensures
        shape_reason(item.variants@[i]) is Some,
        shape_reason(item.variants@[i]) != Some(ShapeReason::Discriminant),
        validate(item) == Err::<EnumDataV, Error>(
            Error::Shape {
                variant: i as usize,
                name: item.variants@[i].ident,
                reason: shape_reason(item.variants@[i])->Some_0,
            },
        ),
{
    let vs = item.variants@;
    assert forall|j: int| 0 <= j < i implies (#[trigger] variant_error(vs[j], j)) is None by {
        assert(shape_reason(vs[j]) is None);
    }
    lemma_no_shape_error(vs, i);
    assert(first_shape_error(vs, i + 1) == variant_error(vs[i], i));
    lemma_first_error_settled(vs, i + 1, vs.len() as int);
}

} // verus!
