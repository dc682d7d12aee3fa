//! Plain-value model of the syntax the engine reads.
//!
//! The engine never looks at concrete source text: the caller's syntax layer
//! hands it identifiers and token text as strings, and the shapes it has to
//! decide on (variant fields, receivers, argument patterns) as small enums.
use vstd::prelude::*;

verus! {

/// A fragment of syntax as token text, together with every identifier that
/// occurs in it (nested groups included), in order.
pub struct TokenText {
    pub text: String,
    pub idents: Vec<String>,
}

/// The kind of a generic parameter.
#[derive(Clone, Copy, PartialEq, Eq, Debug, Structural)]
pub enum GenericParamKind {
    Lifetime,
    Type,
    Const,
}

/// A generic parameter: its name as it is used in arguments (`'a`, `T`,
/// `N`) and its whole declaration as token text (`T: Clone`).
#[derive(Debug)]
pub struct GenericParam {
    pub kind: GenericParamKind,
    pub name: String,
    pub text: String,
}

/// A path with generic arguments, such as `Enum<A, B>` or `Trait<'a, T>`.
pub struct GenericPath {
    pub path: String,
    pub args: Vec<String>,
}

/// `name = <ty as through>::name`, a binding of an associated type in a bound.
pub struct AssocBinding {
    pub name: String,
    pub ty: String,
    pub through: GenericPath,
}

/// `ty: trait_<bindings..>`.
pub struct TraitBound {
    pub ty: String,
    pub trait_: GenericPath,
    pub bindings: Vec<AssocBinding>,
}

/// One predicate of a `where` clause.
pub enum WherePredicate {
    /// A predicate taken over as token text.
    Verbatim(String),
    /// A bound that the engine synthesized.
    Bound(TraitBound),
}

/// Generic parameters and `where` clause.
pub struct Generics {
    pub params: Vec<GenericParam>,
    pub where_clause: Vec<WherePredicate>,
}

/// The fields of an enum variant.
pub enum Fields {
    /// `V`
    Unit,
    /// `V(T, ..)`
    Unnamed(Vec<TokenText>),
    /// `V { a: T, .. }`; only the field types are kept.
    Named(Vec<TokenText>),
}

/// An enum variant.
pub struct Variant {
    pub ident: String,
    pub fields: Fields,
    /// `= expr`, as token text.
    pub discriminant: Option<String>,
}

/// An enum declaration.
pub struct ItemEnum {
    pub ident: String,
    pub generics: Generics,
    pub variants: Vec<Variant>,
}

/// The shape of an explicitly written receiver type (`self: Ty`).
pub enum SelfType {
    /// A path without a qualified self; `args` are the generic arguments of
    /// its last segment (an argument that is no type is `Other`).
    Path { leading_colon: bool, segments: Vec<String>, args: Vec<SelfType> },
    /// `&T` or `&mut T`, any lifetime.
    Reference { mutable: bool, elem: Box<SelfType> },
    Other,
}

/// A `self` parameter.
pub struct Receiver {
    /// `None` for the short forms `self`, `mut self`, `&self`, `&mut self`.
    pub ty: Option<SelfType>,
}

/// The pattern of a typed parameter.
pub enum Pat {
    /// A plain binding, `x` or `mut x`.
    Ident(String),
    Other,
}

/// A function parameter.
pub enum FnArg {
    Receiver(Receiver),
    Typed(Pat),
}

/// A method signature.
pub struct Signature {
    pub ident: String,
    pub unsafety: bool,
    pub inputs: Vec<FnArg>,
    /// The whole signature as token text, with its identifiers.
    pub tokens: TokenText,
}

/// `type Name;` in a trait.
pub struct TraitItemType {
    pub ident: String,
    /// Whether it declares generic parameters of its own.
    pub generic: bool,
}

/// A method declaration in a trait.
pub struct TraitItemFn {
    /// Outer attributes, as token text.
    pub attrs: String,
    pub sig: Signature,
    /// Whether the trait provides a body.
    pub has_default: bool,
}

/// An item of a trait.
pub enum TraitItem {
    Type(TraitItemType),
    Fn(TraitItemFn),
    /// Constants, macro invocations and verbatim items.
    Other,
}

/// A bound in a trait's supertrait list.
pub enum SuperBound {
    /// A trait bound, as token text.
    Trait(String),
    /// A lifetime or any other bound, as token text.
    Other(String),
}

/// A trait declaration.
pub struct ItemTrait {
    pub unsafety: bool,
    pub ident: String,
    pub generics: Generics,
    pub supertraits: Vec<SuperBound>,
    pub items: Vec<TraitItem>,
}

/// View of a [`GenericPath`].
pub struct GenericPathV {
    pub path: String,
    pub args: Seq<String>,
}

/// View of an [`AssocBinding`].
pub struct AssocBindingV {
    pub name: String,
    pub ty: String,
    pub through: GenericPathV,
}

/// View of a [`TraitBound`].
pub struct TraitBoundV {
    pub ty: String,
    pub trait_: GenericPathV,
    pub bindings: Seq<AssocBindingV>,
}

/// View of a [`WherePredicate`].
pub enum WherePredicateV {
    Verbatim(String),
    Bound(TraitBoundV),
}

/// View of [`Generics`].
pub struct GenericsV {
    pub params: Seq<GenericParam>,
    pub where_clause: Seq<WherePredicateV>,
}

impl View for GenericPath {
    type V = GenericPathV;

    open spec fn view(&self) -> GenericPathV {
        GenericPathV { path: self.path, args: self.args@ }
    }
}

impl View for AssocBinding {
    type V = AssocBindingV;

    open spec fn view(&self) -> AssocBindingV {
        AssocBindingV { name: self.name, ty: self.ty, through: self.through@ }
    }
}

impl View for TraitBound {
    type V = TraitBoundV;

    open spec fn view(&self) -> TraitBoundV {
        TraitBoundV {
            ty: self.ty,
            trait_: self.trait_@,
            bindings: bindings_view(self.bindings@),
        }
    }
}

impl View for WherePredicate {
    type V = WherePredicateV;

    open spec fn view(&self) -> WherePredicateV {
        match self {
            WherePredicate::Verbatim(s) => WherePredicateV::Verbatim(*s),
            WherePredicate::Bound(b) => WherePredicateV::Bound(b@),
        }
    }
}

impl View for Generics {
    type V = GenericsV;

    open spec fn view(&self) -> GenericsV {
        GenericsV {
            params: self.params@,
            where_clause: preds_view(self.where_clause@),
        }
    }
}

/// The views of a list of predicates.
pub open spec fn preds_view(preds: Seq<WherePredicate>) -> Seq<WherePredicateV> {
    preds.map_values(|p: WherePredicate| p@)
}

/// The views of a list of bindings.
pub open spec fn bindings_view(bindings: Seq<AssocBinding>) -> Seq<AssocBindingV> {
    bindings.map_values(|b: AssocBinding| b@)
}

/// The view of an optional path.
pub open spec fn opt_path_view(p: Option<GenericPath>) -> Option<GenericPathV> {
    match p {
        Some(p) => Some(p@),
        None => None,
    }
}

/// The names by which a list of generic parameters is passed as arguments.
pub open spec fn param_names(params: Seq<GenericParam>) -> Seq<String> {
    params.map_values(|p: GenericParam| p.name)
}

/// Whether `name` is the name of a type parameter among `params`.
pub open spec fn is_type_param(params: Seq<GenericParam>, name: Seq<char>) -> bool {
    exists|k: int|
        0 <= k < params.len() && (#[trigger] params[k]).kind == GenericParamKind::Type
            && params[k].name@ == name
}

/// Whether one of `idents` names a type parameter among `params`.
pub open spec fn mentions_type_param(idents: Seq<String>, params: Seq<GenericParam>) -> bool {
    exists|i: int| 0 <= i < idents.len() && is_type_param(params, (#[trigger] idents[i])@)
}

/// A copy of a list of strings.
pub fn copy_strings(v: &Vec<String>) -> (r: Vec<String>)
    ensures
        r@ == v@,
{
    let mut r: Vec<String> = Vec::new();
    let mut i: usize = 0;
    while i < v.len()
        invariant
            i <= v@.len(),
            r@ == v@.subrange(0, i as int),
        decreases v@.len() - i,
    {
        r.push(v[i].clone());
        i = i + 1;
        assert(r@ =~= v@.subrange(0, i as int));
    }
    assert(r@ =~= v@);
    r
}

/// The argument names of a list of generic parameters.
pub fn names_of(params: &Vec<GenericParam>) -> (r: Vec<String>)
    ensures
        r@ == param_names(params@),
{
    let mut r: Vec<String> = Vec::new();
    let mut i: usize = 0;
    while i < params.len()
        invariant
            i <= params@.len(),
            r@ == param_names(params@.subrange(0, i as int)),
        decreases params@.len() - i,
    {
        r.push(params[i].name.clone());
        i = i + 1;
        assert(r@ =~= param_names(params@.subrange(0, i as int)));
    }
    assert(params@.subrange(0, params@.len() as int) =~= params@);
    r
}

/// Whether one of `idents` names a type parameter among `params`.
pub fn mentions_any_type_param(idents: &Vec<String>, params: &Vec<GenericParam>) -> (r: bool)
    ensures
        r == mentions_type_param(idents@, params@),
{
    let mut i: usize = 0;
    while i < idents.len()
        invariant
            i <= idents@.len(),
            forall|j: int| 0 <= j < i ==> !is_type_param(params@, (#[trigger] idents@[j])@),
        decreases idents@.len() - i,
    {
        let mut k: usize = 0;
        while k < params.len()
            invariant
                i < idents@.len(),
                k <= params@.len(),
                forall|m: int|
                    0 <= m < k ==> !((#[trigger] params@[m]).kind == GenericParamKind::Type
                        && params@[m].name@ == idents@[i as int]@),
            decreases params@.len() - k,
        {
            if params[k].kind == GenericParamKind::Type && params[k].name == idents[i] {
                assert(is_type_param(params@, idents@[i as int]@));
                return true;
            }
            k = k + 1;
        }
        i = i + 1;
    }
    false
}

impl GenericParam {
    /// A copy of the parameter.
    pub fn duplicate(&self) -> (r: GenericParam)
        ensures
            r == *self,
    {
        GenericParam { kind: self.kind, name: self.name.clone(), text: self.text.clone() }
    }
}

impl GenericPath {
    /// A copy of the path.
    pub fn duplicate(&self) -> (r: GenericPath)
        ensures
            r@ == self@,
    {
        GenericPath { path: self.path.clone(), args: copy_strings(&self.args) }
    }
}

impl AssocBinding {
    /// A copy of the binding.
    pub fn duplicate(&self) -> (r: AssocBinding)
        ensures
            r@ == self@,
    {
        AssocBinding { name: self.name.clone(), ty: self.ty.clone(), through: self.through.duplicate() }
    }
}

/// A copy of a list of bindings.
pub fn copy_bindings(v: &Vec<AssocBinding>) -> (r: Vec<AssocBinding>)
    ensures
        bindings_view(r@) == bindings_view(v@),
{
    let mut r: Vec<AssocBinding> = Vec::new();
    let mut i: usize = 0;
    while i < v.len()
        invariant
            i <= v@.len(),
            r@.len() == i,
            forall|j: int| 0 <= j < i ==> (#[trigger] r@[j])@ == v@[j]@,
        decreases v@.len() - i,
    {
        r.push(v[i].duplicate());
        i = i + 1;
    }
    assert(bindings_view(r@) =~= bindings_view(v@));
    r
}

impl WherePredicate {
    /// A copy of the predicate.
    pub fn duplicate(&self) -> (r: WherePredicate)
        ensures
            r@ == self@,
    {
        match self {
            WherePredicate::Verbatim(s) => WherePredicate::Verbatim(s.clone()),
            WherePredicate::Bound(b) => WherePredicate::Bound(
                TraitBound {
                    ty: b.ty.clone(),
                    trait_: b.trait_.duplicate(),
                    bindings: copy_bindings(&b.bindings),
                },
            ),
        }
    }
}

impl Generics {
    /// A copy of the generics.
    pub fn duplicate(&self) -> (r: Generics)
        ensures
            r@ == self@,
    {
        let mut params: Vec<GenericParam> = Vec::new();
        let mut i: usize = 0;
        while i < self.params.len()
            invariant
                i <= self.params@.len(),
                params@ == self.params@.subrange(0, i as int),
            decreases self.params@.len() - i,
        {
            params.push(self.params[i].duplicate());
            i = i + 1;
            assert(params@ =~= self.params@.subrange(0, i as int));
        }
        let mut preds: Vec<WherePredicate> = Vec::new();
        let mut j: usize = 0;
        while j < self.where_clause.len()
            invariant
                j <= self.where_clause@.len(),
                preds@.len() == j,
                forall|k: int| 0 <= k < j ==> (#[trigger] preds@[k])@ == self.where_clause@[k]@,
            decreases self.where_clause@.len() - j,
        {
            preds.push(self.where_clause[j].duplicate());
            j = j + 1;
        }
        assert(preds_view(preds@) =~= preds_view(self.where_clause@));
        assert(self.params@.subrange(0, i as int) =~= self.params@);
        Generics { params, where_clause: preds }
    }
}

} // verus!
