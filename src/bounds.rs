//! The `where` clause that makes a forwarding implementation type-check.
//!
//! The first variant's type is the reference type and is always bounded by
//! the trait. Every other variant's type is bounded too, with each
//! associated type bound to the reference type's, so that all variants
//! agree on them; a type with the same text as the reference type needs no
//! bound of its own. Where the trait has no generic parameters and one of
//! its methods names none of the enum's type parameters, a type that names
//! none of them either is left unbounded: the compiler then checks its
//! implementation directly.
use vstd::prelude::*;

use crate::ast::{EnumData, EnumDataV};
use crate::syntax::{
    bindings_view, copy_bindings, mentions_any_type_param, mentions_type_param, preds_view,
    AssocBinding, AssocBindingV, GenericParam, GenericPath, GenericPathV, ItemTrait, SuperBound,
    TraitBound, TraitBoundV, TraitItem, WherePredicate, WherePredicateV,
};

verus! {

/// The names of the trait's own associated types, generic ones left out,
/// in declaration order.
pub open spec fn own_assoc_types(items: Seq<TraitItem>) -> Seq<String>
    decreases items.len(),
{
    if items.len() == 0 {
        seq![]
    } else {
        let prev = own_assoc_types(items.drop_last());
        match items.last() {
            TraitItem::Type(t) => if t.generic {
                prev
            } else {
                prev.push(t.ident)
            },
            _ => prev,
        }
    }
}

/// The associated-type bindings each non-reference bound carries: the
/// trait's own associated types projected through the trait, then the
/// names the caller gave for the first supertrait projected through that
/// supertrait (only where it is a trait bound).
pub open spec fn assoc_bindings_of(
    trait_def: ItemTrait,
    supertraits_types: Seq<String>,
    fst: String,
    trait_: GenericPathV,
) -> Seq<AssocBindingV> {
    let own = own_assoc_types(trait_def.items@).map_values(
        |n: String| AssocBindingV { name: n, ty: fst, through: trait_ },
    );
    let sups = trait_def.supertraits@;
    if supertraits_types.len() > 0 && sups.len() > 0 && sups[0] is Trait {
        own + supertraits_types.map_values(
            |n: String|
                AssocBindingV {
                    name: n,
                    ty: fst,
                    through: GenericPathV { path: sups[0]->Trait_0, args: seq![] },
                },
        )
    } else {
        own
    }
}

/// Whether `item` is a method whose signature names none of `params`' type
/// parameters.
pub open spec fn is_unmentioning_method(item: TraitItem, params: Seq<GenericParam>) -> bool {
    item matches TraitItem::Fn(f) && !mentions_type_param(f.sig.tokens.idents@, params)
}

/// Whether bounds on types that name none of the enum's type parameters are
/// left out.
pub open spec fn skips_unmentioning(data: EnumDataV, trait_def: ItemTrait) -> bool {
    &&& trait_def.generics.params@.len() == 0
    &&& exists|k: int|
        0 <= k < trait_def.items@.len() && is_unmentioning_method(
            #[trigger] trait_def.items@[k],
            data.generics.params,
        )
}

/// Whether the `i`-th variant's type gets a bound.
pub open spec fn needs_bound(data: EnumDataV, skip: bool, i: int) -> bool {
    ||| i == 0
    ||| {
        &&& data.field_types[i].text@ != data.field_types[0].text@
        &&& !skip || mentions_type_param(data.field_types[i].idents@, data.generics.params)
    }
}

/// The bound on the `i`-th variant's type.
pub open spec fn bound_of(
    data: EnumDataV,
    trait_: GenericPathV,
    bindings: Seq<AssocBindingV>,
    i: int,
) -> WherePredicateV {
    WherePredicateV::Bound(
        TraitBoundV {
            ty: data.field_types[i].text,
            trait_,
            bindings: if i == 0 {
                seq![]
            } else {
                bindings
            },
        },
    )
}

/// The bounds on the first `k` variants' types, in variant order.
pub open spec fn synthesized_bounds(
    data: EnumDataV,
    trait_: GenericPathV,
    bindings: Seq<AssocBindingV>,
    skip: bool,
    k: int,
) -> Seq<WherePredicateV>
    decreases k,
{
    if k <= 0 {
        seq![]
    } else {
        let prev = synthesized_bounds(data, trait_, bindings, skip, k - 1);
        if needs_bound(data, skip, k - 1) {
            prev.push(bound_of(data, trait_, bindings, k - 1))
        } else {
            prev
        }
    }
}

/// The number of bounds is at least one and at most the number of
/// variants; it is the number of variants where no variant is skipped.
pub proof fn lemma_bound_count(
    data: EnumDataV,
    trait_: GenericPathV,
    bindings: Seq<AssocBindingV>,
    skip: bool,
    k: int,
)
    requires
        1 <= k,
    ensures
        1 <= synthesized_bounds(data, trait_, bindings, skip, k).len() <= k,
        (forall|i: int| 0 <= i < k ==> #[trigger] needs_bound(data, skip, i)) ==> synthesized_bounds(
            data,
            trait_,
            bindings,
            skip,
            k,
        ).len() == k,
    decreases k,
{
    assert(synthesized_bounds(data, trait_, bindings, skip, 0) == Seq::<WherePredicateV>::empty());
    if k > 1 {
        lemma_bound_count(data, trait_, bindings, skip, k - 1);
        if forall|i: int| 0 <= i < k ==> #[trigger] needs_bound(data, skip, i) {
            assert(needs_bound(data, skip, k - 1));
            assert forall|i: int| 0 <= i < k - 1 implies #[trigger] needs_bound(data, skip, i) by {
                assert(needs_bound(data, skip, i));
            }
        }
    } else {
        assert(needs_bound(data, skip, 0));
    }
}

/// The associated-type bindings, as [`assoc_bindings_of`] says.
pub fn assoc_bindings(
    trait_def: &ItemTrait,
    supertraits_types: &Vec<String>,
    fst: &String,
    trait_: &GenericPath,
) -> (r: Vec<AssocBinding>)
    ensures
        bindings_view(r@) == assoc_bindings_of(*trait_def, supertraits_types@, *fst, trait_@),
{
    let ghost items = trait_def.items@;
    let ghost own = own_assoc_types(items);
    let ghost own_binding = |n: String| AssocBindingV { name: n, ty: *fst, through: trait_@ };
    let mut r: Vec<AssocBinding> = Vec::new();
    let mut i: usize = 0;
    while i < trait_def.items.len()
        invariant
            items == trait_def.items@,
            i <= items.len(),
            r@.len() == own_assoc_types(items.subrange(0, i as int)).len(),
            forall|m: int|
                0 <= m < r@.len() ==> (#[trigger] r@[m])@ == own_binding(
                    own_assoc_types(items.subrange(0, i as int))[m],
                ),
            own_binding == (|n: String| AssocBindingV { name: n, ty: *fst, through: trait_@ }),
        decreases items.len() - i,
    {
        assert(items.subrange(0, i + 1).drop_last() =~= items.subrange(0, i as int));
        assert(items.subrange(0, i + 1).last() == items[i as int]);
        match &trait_def.items[i] {
            TraitItem::Type(t) => {
                if !t.generic {
                    r.push(
                        AssocBinding {
                            name: t.ident.clone(),
                            ty: fst.clone(),
                            through: trait_.duplicate(),
                        },
                    );
                }
            },
            _ => {},
        }
        i = i + 1;
    }
    assert(items.subrange(0, i as int) =~= items);
    let ghost n_own = r@.len();
    if supertraits_types.len() > 0 && trait_def.supertraits.len() > 0 {
        match &trait_def.supertraits[0] {
            SuperBound::Trait(sup) => {
                let ghost sup_binding = |n: String|
                    AssocBindingV {
                        name: n,
                        ty: *fst,
                        through: GenericPathV { path: *sup, args: seq![] },
                    };
                let mut j: usize = 0;
                while j < supertraits_types.len()
                    invariant
                        j <= supertraits_types@.len(),
                        n_own == own.len(),
                        r@.len() == n_own + j,
                        forall|m: int| 0 <= m < n_own ==> (#[trigger] r@[m])@ == own_binding(own[m]),
                        forall|m: int|
                            0 <= m < j ==> (#[trigger] r@[n_own + m])@ == sup_binding(
                                supertraits_types@[m],
                            ),
                        sup_binding == (|n: String|
                            AssocBindingV {
                                name: n,
                                ty: *fst,
                                through: GenericPathV { path: *sup, args: seq![] },
                            }),
                    decreases supertraits_types@.len() - j,
                {
                    let args: Vec<String> = Vec::new();
                    assert(args@ =~= seq![]);
                    r.push(
                        AssocBinding {
                            name: supertraits_types[j].clone(),
                            ty: fst.clone(),
                            through: GenericPath { path: sup.clone(), args },
                        },
                    );
                    j = j + 1;
                }
                let ghost whole = own.map_values(own_binding) + supertraits_types@.map_values(
                    sup_binding,
                );
                assert forall|m: int| 0 <= m < r@.len() implies bindings_view(r@)[m] == whole[m] by {
                    if m >= n_own {
                        assert(r@[n_own + (m - n_own)]@ == sup_binding(
                            supertraits_types@[m - n_own],
                        ));
                    }
                }
                assert(bindings_view(r@) =~= whole);
                return r;
            },
            SuperBound::Other(_) => {},
        }
    }
    assert(bindings_view(r@) =~= own.map_values(own_binding));
    r
}

/// Whether bounds on types that name none of the enum's type parameters are
/// left out, as [`skips_unmentioning`] says.
pub fn skips_unmentioning_types(data: &EnumData, trait_def: &ItemTrait) -> (r: bool)
    ensures
        r == skips_unmentioning(data@, *trait_def),
{
    if trait_def.generics.params.len() > 0 {
        return false;
    }
    let mut k: usize = 0;
    while k < trait_def.items.len()
        invariant
            trait_def.generics.params@.len() == 0,
            k <= trait_def.items@.len(),
            forall|m: int|
                0 <= m < k ==> !is_unmentioning_method(
                    #[trigger] trait_def.items@[m],
                    data.generics.params@,
                ),
        decreases trait_def.items@.len() - k,
    {
        match &trait_def.items[k] {
            TraitItem::Fn(f) => {
                if !mentions_any_type_param(&f.sig.tokens.idents, &data.generics.params) {
                    assert(is_unmentioning_method(trait_def.items@[k as int], data.generics.params@));
                    return true;
                }
            },
            _ => {},
        }
        k = k + 1;
    }
    false
}

/// The bounds on the variants' types, as [`synthesized_bounds`] says.
pub fn synthesize_bounds(
    data: &EnumData,
    trait_: &GenericPath,
    bindings: &Vec<AssocBinding>,
    skip: bool,
) -> (r: Vec<WherePredicate>)
    requires
        data@.wf(),
    ensures
        preds_view(r@) == synthesized_bounds(
            data@,
            trait_@,
            bindings_view(bindings@),
            skip,
            data@.field_types.len() as int,
        ),
{
    let n = data.field_types.len();
    let ghost binds = bindings_view(bindings@);
    let mut r: Vec<WherePredicate> = Vec::new();
    let mut i: usize = 0;
    while i < n
        invariant
            n == data@.field_types.len(),
            data@.wf(),
            i <= n,
            binds == bindings_view(bindings@),
            preds_view(r@) =~= synthesized_bounds(data@, trait_@, binds, skip, i as int),
        decreases n - i,
    {
        let ghost before = r@;
        let needed = i == 0 || (data.field_types[i].text != data.field_types[0].text && (!skip
            || mentions_any_type_param(&data.field_types[i].idents, &data.generics.params)));
        assert(needed == needs_bound(data@, skip, i as int));
        if needed {
            let bs = if i == 0 {
                Vec::new()
            } else {
                copy_bindings(bindings)
            };
            r.push(
                WherePredicate::Bound(
                    TraitBound {
                        ty: data.field_types[i].text.clone(),
                        trait_: trait_.duplicate(),
                        bindings: bs,
                    },
                ),
            );
            assert(bindings_view(bs@) =~= if i == 0 {
                seq![]
            } else {
                binds
            });
            assert(preds_view(r@) =~= preds_view(before).push(
                bound_of(data@, trait_@, binds, i as int),
            ));
        }
        i = i + 1;
    }
    r
}

} // verus!
