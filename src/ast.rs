//! The validated description of an enum that implementations are
//! synthesized for.
use vstd::prelude::*;

use crate::error::{Error, ShapeReason};
use crate::syntax::{Fields, Generics, GenericsV, ItemEnum, TokenText, Variant};

verus! {

/// An enum whose variants each hold exactly one unnamed field, none with a
/// discriminant, at least two of them. `variant_idents[i]` is the name of
/// the `i`-th variant and `field_types[i]` the type of the value it holds.
pub struct EnumData {
    pub ident: String,
    pub generics: Generics,
    pub variant_idents: Vec<String>,
    pub field_types: Vec<TokenText>,
}

/// View of an [`EnumData`].
pub struct EnumDataV {
    pub ident: String,
    pub generics: GenericsV,
    pub variant_idents: Seq<String>,
    pub field_types: Seq<TokenText>,
}

impl View for EnumData {
    type V = EnumDataV;

    open spec fn view(&self) -> EnumDataV {
        EnumDataV {
            ident: self.ident,
            generics: self.generics@,
            variant_idents: self.variant_idents@,
            field_types: self.field_types@,
        }
    }
}

impl EnumDataV {
    /// As many variants as payload types, and at least two.
    pub open spec fn wf(self) -> bool {
        &&& self.variant_idents.len() == self.field_types.len()
        &&& self.variant_idents.len() >= 2
    }
}

/// What is wrong with a variant's shape, if anything: a discriminant first,
/// then the number of fields, then named fields.
pub open spec fn shape_reason(v: Variant) -> Option<ShapeReason> {
    if v.discriminant is Some {
        Some(ShapeReason::Discriminant)
    } else {
        match v.fields {
            Fields::Unit => Some(ShapeReason::ZeroFields),
            Fields::Unnamed(t) => if t@.len() == 0 {
                Some(ShapeReason::ZeroFields)
            } else if t@.len() >= 2 {
                Some(ShapeReason::MultipleFields)
            } else {
                None
            },
            Fields::Named(t) => if t@.len() == 0 {
                Some(ShapeReason::ZeroFields)
            } else if t@.len() >= 2 {
                Some(ShapeReason::MultipleFields)
            } else {
                Some(ShapeReason::NamedFields)
            },
        }
    }
}

/// The shape error of `v`, the `i`-th variant, if it has one.
pub open spec fn variant_error(v: Variant, i: int) -> Option<Error> {
    match shape_reason(v) {
        Some(reason) => Some(Error::Shape { variant: i as usize, name: v.ident, reason }),
        None => None,
    }
}

/// The error of the first variant among the first `k` that has one.
pub open spec fn first_shape_error(vs: Seq<Variant>, k: int) -> Option<Error>
    decreases k,
{
    if k <= 0 {
        None
    } else {
        match first_shape_error(vs, k - 1) {
            Some(e) => Some(e),
            None => variant_error(vs[k - 1], k - 1),
        }
    }
}

/// The type of the one field of a valid variant.
pub open spec fn payload_of(v: Variant) -> TokenText {
    v.fields->Unnamed_0@[0]
}

/// What validating an enum declaration gives: an error for fewer than two
/// variants, else the first variant's shape error, else the description.
pub open spec fn validate(item: ItemEnum) -> Result<EnumDataV, Error> {
    let vs = item.variants@;
    if vs.len() < 2 {
        Err(Error::TooFewVariants { count: vs.len() as usize })
    } else {
        match first_shape_error(vs, vs.len() as int) {
            Some(e) => Err(e),
            None => Ok(
                EnumDataV {
                    ident: item.ident,
                    generics: item.generics@,
                    variant_idents: vs.map_values(|v: Variant| v.ident),
                    field_types: vs.map_values(|v: Variant| payload_of(v)),
                },
            ),
        }
    }
}

/// Whether `item` declares exactly the enum that `d` describes.
pub open spec fn is_declaration_of(item: ItemEnum, d: EnumDataV) -> bool {
    &&& item.ident == d.ident
    &&& item.generics@ == d.generics
    &&& item.variants@.len() == d.variant_idents.len()
    &&& forall|i: int|
        0 <= i < item.variants@.len() ==> {
            &&& (#[trigger] item.variants@[i]).ident == d.variant_idents[i]
            &&& item.variants@[i].discriminant is None
            &&& item.variants@[i].fields matches Fields::Unnamed(t) && t@ == seq![d.field_types[i]]
        }
}

/// No error among the first `k` variants means none of them has one.
pub proof fn lemma_no_shape_error(vs: Seq<Variant>, k: int)
    requires
        0 <= k <= vs.len(),
    ensures
        first_shape_error(vs, k) is None <==> forall|j: int|
            0 <= j < k ==> (#[trigger] variant_error(vs[j], j)) is None,
    decreases k,
{
    if k > 0 {
        lemma_no_shape_error(vs, k - 1);
    }
}

/// Once a variant among the first `k` has an error, it stays the first one.
pub proof fn lemma_first_error_settled(vs: Seq<Variant>, k: int, m: int)
    requires
        0 <= k <= m,
        first_shape_error(vs, k) is Some,
    ensures
        first_shape_error(vs, m) == first_shape_error(vs, k),
    decreases m - k,
{
    if m > k {
        lemma_first_error_settled(vs, k, m - 1);
    }
}

impl EnumData {
    /// Validates an enum declaration, as [`validate`] says.
    pub fn parse(item: ItemEnum) -> (r: Result<EnumData, Error>)
        ensures
            match r {
                Ok(d) => validate(item) == Ok::<EnumDataV, Error>(d@) && d@.wf(),
                Err(e) => validate(item) == Err::<EnumDataV, Error>(e),
            },
    {
        let ghost vs0 = item.variants@;
        let n = item.variants.len();
        if n < 2 {
            return Err(Error::TooFewVariants { count: n });
        }
        let ItemEnum { ident, generics, variants } = item;
        let mut rest = variants;
        let mut variant_idents: Vec<String> = Vec::new();
        let mut field_types: Vec<TokenText> = Vec::new();
        let mut i: usize = 0;
        while i < n
            invariant
                n == vs0.len(),
                n >= 2,
                vs0 == item.variants@,
                i <= n,
                rest@ == vs0.subrange(i as int, n as int),
                first_shape_error(vs0, i as int) is None,
                variant_idents@ == vs0.subrange(0, i as int).map_values(|v: Variant| v.ident),
                field_types@ == vs0.subrange(0, i as int).map_values(|v: Variant| payload_of(v)),
            decreases n - i,
        {
            let v = rest.remove(0);
            assert(v == vs0[i as int]);
            let Variant { ident: name, fields, discriminant } = v;
            let checked: Result<TokenText, ShapeReason> = if discriminant.is_some() {
                Err(ShapeReason::Discriminant)
            } else {
                match fields {
                    Fields::Unit => Err(ShapeReason::ZeroFields),
                    Fields::Unnamed(mut t) => {
                        if t.len() == 0 {
                            Err(ShapeReason::ZeroFields)
                        } else if t.len() >= 2 {
                            Err(ShapeReason::MultipleFields)
                        } else {
                            Ok(t.remove(0))
                        }
                    },
                    Fields::Named(t) => {
                        if t.len() == 0 {
                            Err(ShapeReason::ZeroFields)
                        } else if t.len() >= 2 {
                            Err(ShapeReason::MultipleFields)
                        } else {
                            Err(ShapeReason::NamedFields)
                        }
                    },
                }
            };
            let ty = match checked {
                Ok(ty) => ty,
                Err(reason) => {
                    assert(shape_reason(vs0[i as int]) == Some(reason));
                    assert(first_shape_error(vs0, i + 1) == Some(
                        Error::Shape { variant: i, name, reason },
                    ));
                    proof {
                        lemma_first_error_settled(vs0, i + 1, n as int);
                    }


                    return Err(Error::Shape { variant: i, name, reason });
                },
            };
            variant_idents.push(name);
            field_types.push(ty);
            i = i + 1;
            assert(variant_idents@ =~= vs0.subrange(0, i as int).map_values(|v: Variant| v.ident));
            assert(field_types@ =~= vs0.subrange(0, i as int).map_values(
                |v: Variant| payload_of(v),
            ));
        }
        assert(vs0.subrange(0, n as int) =~= vs0);
        Ok(EnumData { ident, generics, variant_idents, field_types })
    }

    /// The declaration of the enum this describes.
    pub fn into_item(self) -> (r: ItemEnum)
        requires
            self@.wf(),
        ensures
            is_declaration_of(r, self@),
    {
        let ghost d = self@;
        let EnumData { ident, generics, variant_idents, field_types } = self;
        let n = variant_idents.len();
        let mut names = variant_idents;
        let mut types = field_types;
        let mut variants: Vec<Variant> = Vec::new();
        let mut i: usize = 0;
        while i < n
            invariant
                n == d.variant_idents.len(),
                d.wf(),
                i <= n,
                names@ == d.variant_idents.subrange(i as int, n as int),
                types@ == d.field_types.subrange(i as int, n as int),
                variants@.len() == i,
                forall|j: int|
                    0 <= j < i ==> {
                        &&& (#[trigger] variants@[j]).ident == d.variant_idents[j]
                        &&& variants@[j].discriminant is None
                        &&& variants@[j].fields matches Fields::Unnamed(t) && t@ == seq![
                            d.field_types[j],
                        ]
                    },
            decreases n - i,
        {
            let name = names.remove(0);
            let ty = types.remove(0);
            let mut one: Vec<TokenText> = Vec::new();
            one.push(ty);
            assert(one@ =~= seq![d.field_types[i as int]]);
            variants.push(Variant { ident: name, fields: Fields::Unnamed(one), discriminant: None });
            i = i + 1;
        }
        ItemEnum { ident, generics, variants }
    }

    /// The types of the values the variants hold, in declaration order.
    pub fn field_types(&self) -> (r: &Vec<TokenText>)
        ensures
            r@ == self.field_types@,
    {
        &self.field_types
    }

    /// The names of the variants, in declaration order.
    pub fn variant_idents(&self) -> (r: &Vec<String>)
        ensures
            r@ == self.variant_idents@,
    {
        &self.variant_idents
    }
}

} // verus!
