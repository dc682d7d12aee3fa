use derive_utils::{
    derive_trait, BodyReason, EnumData, EnumImpl, Error, Fields, FnArg, GenericParam,
    GenericParamKind, GenericPath, Generics, ImplFn, ImplItem, ItemEnum, ItemImpl, ItemTrait, Pat,
    PinPath, Receiver, ReceiverKind, ReceiverReason, SelfType, ShapeReason, Signature, SuperBound,
    TokenText, TraitItem, TraitItemFn, TraitItemType, Variant, WherePredicate,
};

fn s(x: &str) -> String {
    x.to_string()
}

fn strings(xs: &[&str]) -> Vec<String> {
    xs.iter().map(|x| s(x)).collect()
}

fn tokens(text: &str, idents: &[&str]) -> TokenText {
    TokenText { text: s(text), idents: strings(idents) }
}

fn type_param(name: &str) -> GenericParam {
    GenericParam { kind: GenericParamKind::Type, name: s(name), text: s(name) }
}

fn generics(params: &[&str]) -> Generics {
    Generics { params: params.iter().map(|p| type_param(p)).collect(), where_clause: vec![] }
}

fn variant(name: &str, fields: Fields) -> Variant {
    Variant { ident: s(name), fields, discriminant: None }
}

fn one(ty: &str) -> Fields {
    Fields::Unnamed(vec![tokens(ty, &[ty])])
}

/// `enum Enum<X, Y> { A(X), B(Y) }`
fn enum_xy() -> ItemEnum {
    ItemEnum {
        ident: s("Enum"),
        generics: generics(&["X", "Y"]),
        variants: vec![variant("A", one("X")), variant("B", one("Y"))],
    }
}

fn data(item: ItemEnum) -> EnumData {
    EnumData::parse(item).unwrap()
}

fn self_path() -> SelfType {
    SelfType::Path { leading_colon: false, segments: strings(&["Self"]), args: vec![] }
}

fn sig(name: &str, receiver: Option<Receiver>, args: Vec<FnArg>, text: &str, idents: &[&str]) -> Signature {
    let mut inputs = vec![];
    if let Some(r) = receiver {
        inputs.push(FnArg::Receiver(r));
    }
    inputs.extend(args);
    Signature { ident: s(name), unsafety: false, inputs, tokens: tokens(text, idents) }
}

fn method(sig: Signature) -> TraitItem {
    TraitItem::Fn(TraitItemFn { attrs: s(""), sig, has_default: false })
}

fn short_receiver() -> Option<Receiver> {
    Some(Receiver { ty: None })
}

fn assoc(name: &str) -> TraitItem {
    TraitItem::Type(TraitItemType { ident: s(name), generic: false })
}

fn trait_def(name: &str, supertraits: Vec<SuperBound>, items: Vec<TraitItem>) -> ItemTrait {
    ItemTrait {
        unsafety: false,
        ident: s(name),
        generics: Generics { params: vec![], where_clause: vec![] },
        supertraits,
        items,
    }
}

/// `trait Iterator { type Item; fn next(&mut self) -> ..; fn size_hint(&self) -> ..; }`
fn iterator() -> ItemTrait {
    trait_def(
        "Iterator",
        vec![],
        vec![
            assoc("Item"),
            method(sig(
                "next",
                short_receiver(),
                vec![],
                "fn next(&mut self) -> Option<Self::Item>",
                &["next", "self", "Option", "Self", "Item"],
            )),
            method(sig(
                "size_hint",
                short_receiver(),
                vec![],
                "fn size_hint(&self) -> (usize, Option<usize>)",
                &["size_hint", "self", "usize", "Option", "usize"],
            )),
        ],
    )
}

fn bound(p: &WherePredicate) -> (&str, &GenericPath, Vec<(&str, &str, &str)>) {
    match p {
        WherePredicate::Bound(b) => (
            b.ty.as_str(),
            &b.trait_,
            b.bindings
                .iter()
                .map(|x| (x.name.as_str(), x.ty.as_str(), x.through.path.as_str()))
                .collect(),
        ),
        WherePredicate::Verbatim(_) => panic!("not a synthesized bound"),
    }
}

fn method_of(item: &ImplItem) -> &ImplFn {
    match item {
        ImplItem::Fn(f) => f,
        _ => panic!("not a method"),
    }
}

fn arms(f: &ImplFn) -> Vec<(&str, &str)> {
    f.arms.iter().map(|a| (a.variant.as_str(), a.ty.as_str())).collect()
}

fn derive(item: ItemEnum, path: &str, supers: &[&str], def: ItemTrait) -> Result<ItemImpl, Error> {
    let d = data(item);
    derive_trait(&d, &s(path), strings(supers), def)
}

#[test]
fn iterator_bounds_and_methods() {
    let imp = derive(enum_xy(), "Iterator", &[], iterator()).unwrap();
    assert!(!imp.unsafety);
    assert!(!imp.allow_unsafe_code);
    assert_eq!(imp.self_ty.path, "Enum");
    assert_eq!(imp.self_ty.args, strings(&["X", "Y"]));
    assert_eq!(imp.trait_.as_ref().unwrap().path, "Iterator");
    let preds = &imp.generics.where_clause;
    assert_eq!(preds.len(), 2);
    let (ty, tr, binds) = bound(&preds[0]);
    assert_eq!((ty, tr.path.as_str()), ("X", "Iterator"));
    assert!(binds.is_empty());
    let (ty, tr, binds) = bound(&preds[1]);
    assert_eq!((ty, tr.path.as_str()), ("Y", "Iterator"));
    assert_eq!(binds, vec![("Item", "X", "Iterator")]);
    assert_eq!(imp.items.len(), 3);
    match &imp.items[0] {
        ImplItem::Type(t) => {
            assert_eq!((t.ident.as_str(), t.ty.as_str()), ("Item", "X"));
            assert_eq!(t.trait_.as_ref().unwrap().path, "Iterator");
        }
        _ => panic!("expected an associated type"),
    }
    for (k, name) in [(1, "next"), (2, "size_hint")] {
        let f = method_of(&imp.items[k]);
        assert_eq!(f.sig.ident, name);
        assert_eq!(f.receiver, ReceiverKind::Normal);
        assert!(f.args.is_empty());
        assert_eq!(arms(f), vec![("A", "X"), ("B", "Y")]);
        assert_eq!(f.qualified.as_ref().unwrap().path, "Iterator");
        assert!(!f.unsafe_block);
    }
}

#[test]
fn supertrait_associated_type_is_projected_through_supertrait() {
    let def = trait_def(
        "ExactSizeIterator",
        vec![SuperBound::Trait(s("Iterator"))],
        vec![method(sig("len", short_receiver(), vec![], "fn len(&self) -> usize", &["len", "self", "usize"]))],
    );
    let imp = derive(enum_xy(), "ExactSizeIterator", &["Item"], def).unwrap();
    let preds = &imp.generics.where_clause;
    assert_eq!(preds.len(), 2);
    let (ty, tr, binds) = bound(&preds[0]);
    assert_eq!((ty, tr.path.as_str()), ("X", "ExactSizeIterator"));
    assert!(binds.is_empty());
    let (ty, tr, binds) = bound(&preds[1]);
    assert_eq!((ty, tr.path.as_str()), ("Y", "ExactSizeIterator"));
    assert_eq!(binds, vec![("Item", "X", "Iterator")]);
    assert_eq!(imp.items.len(), 1);
    assert_eq!(method_of(&imp.items[0]).sig.ident, "len");
}

#[test]
fn supertrait_types_ignored_without_trait_supertrait() {
    let def = trait_def("Plain", vec![], vec![assoc("A")]);
    let imp = derive(enum_xy(), "Plain", &["Item"], def).unwrap();
    let (_, _, binds) = bound(&imp.generics.where_clause[1]);
    assert_eq!(binds, vec![("A", "X", "Plain")]);
}

fn pinned_receiver(mutable: bool, segments: &[&str], leading_colon: bool) -> Option<Receiver> {
    Some(Receiver {
        ty: Some(SelfType::Path {
            leading_colon,
            segments: strings(segments),
            args: vec![SelfType::Reference { mutable, elem: Box::new(self_path()) }],
        }),
    })
}

fn poll_trait(receiver: Option<Receiver>) -> ItemTrait {
    trait_def(
        "Future",
        vec![],
        vec![
            assoc("Output"),
            method(sig(
                "poll",
                receiver,
                vec![FnArg::Typed(Pat::Ident(s("cx")))],
                "fn poll(self: Pin<&mut Self>, cx: &mut Context<'_>) -> Poll<Self::Output>",
                &["poll", "self", "Pin", "mut", "Self", "cx", "mut", "Context", "Poll", "Self", "Output"],
            )),
        ],
    )
}

#[test]
fn pinned_receiver_projects_in_unsafe_block() {
    let imp = derive(enum_xy(), "Future", &[], poll_trait(pinned_receiver(true, &["Pin"], false))).unwrap();
    assert!(imp.allow_unsafe_code);
    assert!(!imp.unsafety);
    let f = method_of(&imp.items[1]);
    assert_eq!(f.receiver, ReceiverKind::Pinned { mutable: true, path: PinPath::Pin });
    assert!(f.unsafe_block);
    assert_eq!(f.args, strings(&["cx"]));
    assert_eq!(arms(f), vec![("A", "X"), ("B", "Y")]);
}

#[test]
fn pinned_receiver_with_qualified_path() {
    let imp = derive(
        enum_xy(),
        "Future",
        &[],
        poll_trait(pinned_receiver(false, &["core", "pin", "Pin"], true)),
    )
    .unwrap();
    let f = method_of(&imp.items[1]);
    assert_eq!(
        f.receiver,
        ReceiverKind::Pinned { mutable: false, path: PinPath::Core { leading_colon: true } }
    );
    assert!(imp.allow_unsafe_code);
    let imp = derive(enum_xy(), "Future", &[], poll_trait(pinned_receiver(true, &["std", "pin", "Pin"], false))).unwrap();
    assert_eq!(
        method_of(&imp.items[1]).receiver,
        ReceiverKind::Pinned { mutable: true, path: PinPath::Std { leading_colon: false } }
    );
}

#[test]
fn pinned_unsafe_method_needs_no_block() {
    let mut def = poll_trait(pinned_receiver(true, &["pin", "Pin"], false));
    if let TraitItem::Fn(f) = &mut def.items[1] {
        f.sig.unsafety = true;
    }
    let imp = derive(enum_xy(), "Future", &[], def).unwrap();
    let f = method_of(&imp.items[1]);
    assert_eq!(f.receiver, ReceiverKind::Pinned { mutable: true, path: PinPath::PinModule });
    assert!(!f.unsafe_block);
    assert!(f.sig.unsafety);
    assert!(imp.allow_unsafe_code);
}

#[test]
fn unknown_pin_path_is_unsupported() {
    let r = derive(enum_xy(), "Future", &[], poll_trait(pinned_receiver(true, &["my", "pin", "Pin"], false)));
    assert_eq!(r.err(), Some(Error::Receiver { method: s("poll"), reason: ReceiverReason::Unsupported }));
}

#[test]
fn default_body_is_rejected() {
    let mut def = iterator();
    if let TraitItem::Fn(f) = &mut def.items[2] {
        f.has_default = true;
    }
    let r = derive(enum_xy(), "Iterator", &[], def);
    assert_eq!(r.err(), Some(Error::Body { method: s("size_hint"), reason: BodyReason::DefaultBody }));
}

#[test]
fn multiple_fields_rejected_among_valid_variants() {
    let item = ItemEnum {
        ident: s("Enum"),
        generics: generics(&["X", "Y"]),
        variants: vec![
            variant("A", one("X")),
            variant("B", Fields::Unnamed(vec![tokens("X", &["X"]), tokens("Y", &["Y"])])),
            variant("C", one("Y")),
        ],
    };
    let e = EnumData::parse(item).err().unwrap();
    assert_eq!(e, Error::Shape { variant: 1, name: s("B"), reason: ShapeReason::MultipleFields });
    assert_eq!(e.description(), "multiple fields unsupported");
}

fn enum_of(variants: Vec<Variant>) -> ItemEnum {
    ItemEnum { ident: s("E"), generics: generics(&["X", "Y"]), variants }
}

#[test]
fn fewer_than_two_variants_rejected() {
    let e = EnumData::parse(enum_of(vec![])).err().unwrap();
    assert_eq!(e, Error::TooFewVariants { count: 0 });
    let e = EnumData::parse(enum_of(vec![variant("A", one("X"))])).err().unwrap();
    assert_eq!(e, Error::TooFewVariants { count: 1 });
    assert_eq!(e.description(), "cannot dispatch over fewer than two alternatives");
}

#[test]
fn two_variants_accepted() {
    let d = data(enum_of(vec![variant("A", one("X")), variant("B", one("Y"))]));
    assert_eq!(d.variant_idents(), &strings(&["A", "B"]));
    let types: Vec<&str> = d.field_types().iter().map(|t| t.text.as_str()).collect();
    assert_eq!(types, vec!["X", "Y"]);
}

#[test]
fn zero_fields_identified() {
    let e = EnumData::parse(enum_of(vec![variant("A", one("X")), variant("B", Fields::Unit)])).err().unwrap();
    assert_eq!(e, Error::Shape { variant: 1, name: s("B"), reason: ShapeReason::ZeroFields });
    let e = EnumData::parse(enum_of(vec![variant("A", Fields::Unnamed(vec![])), variant("B", one("Y"))]))
        .err()
        .unwrap();
    assert_eq!(e, Error::Shape { variant: 0, name: s("A"), reason: ShapeReason::ZeroFields });
    assert_eq!(e.description(), "zero fields unsupported");
}

#[test]
fn named_fields_identified() {
    let e = EnumData::parse(enum_of(vec![
        variant("A", Fields::Named(vec![tokens("X", &["X"])])),
        variant("B", Fields::Unit),
    ]))
    .err()
    .unwrap();
    assert_eq!(e, Error::Shape { variant: 0, name: s("A"), reason: ShapeReason::NamedFields });
    assert_eq!(e.description(), "named-field variants unsupported");
}

#[test]
fn discriminant_rejected() {
    let mut a = variant("A", one("X"));
    a.discriminant = Some(s("2"));
    let e = EnumData::parse(enum_of(vec![a, variant("B", one("Y"))])).err().unwrap();
    assert_eq!(e, Error::Shape { variant: 0, name: s("A"), reason: ShapeReason::Discriminant });
}

#[test]
fn revalidation_gives_same_description() {
    let d = data(enum_xy());
    let again = EnumData::parse(data(enum_xy()).into_item()).unwrap();
    assert_eq!(again.ident, d.ident);
    assert_eq!(again.variant_idents, d.variant_idents);
    let a: Vec<&str> = again.field_types.iter().map(|t| t.text.as_str()).collect();
    let b: Vec<&str> = d.field_types.iter().map(|t| t.text.as_str()).collect();
    assert_eq!(a, b);
    assert_eq!(again.generics.params.len(), 2);
}

#[test]
fn bounds_one_per_variant_without_associated_types() {
    let def = trait_def(
        "Show",
        vec![],
        vec![method(sig("show", short_receiver(), vec![], "fn show(&self) -> X", &["show", "self", "X"]))],
    );
    let item = ItemEnum {
        ident: s("E"),
        generics: generics(&["X", "Y", "Z"]),
        variants: vec![variant("A", one("X")), variant("B", one("Y")), variant("C", one("Z"))],
    };
    let imp = derive(item, "Show", &[], def).unwrap();
    let tys: Vec<&str> = imp.generics.where_clause.iter().map(|p| bound(p).0).collect();
    assert_eq!(tys, vec!["X", "Y", "Z"]);
    assert!(imp.generics.where_clause.iter().all(|p| bound(p).2.is_empty()));
}

#[test]
fn duplicate_of_reference_type_gets_no_bound() {
    let item = ItemEnum {
        ident: s("E"),
        generics: generics(&["X", "Y"]),
        variants: vec![variant("A", one("X")), variant("B", one("Y")), variant("C", one("X"))],
    };
    let imp = derive(item, "Iterator", &[], iterator()).unwrap();
    let tys: Vec<&str> = imp.generics.where_clause.iter().map(|p| bound(p).0).collect();
    assert_eq!(tys, vec!["X", "Y"]);
}

#[test]
fn concrete_types_skip_bounds_but_reference_stays() {
    let item = ItemEnum {
        ident: s("E"),
        generics: generics(&[]),
        variants: vec![variant("A", one("Foo")), variant("B", one("Bar"))],
    };
    let imp = derive(item, "Iterator", &[], iterator()).unwrap();
    let tys: Vec<&str> = imp.generics.where_clause.iter().map(|p| bound(p).0).collect();
    assert_eq!(tys, vec!["Foo"]);
}

#[test]
fn concrete_types_bounded_without_methods() {
    let item = ItemEnum {
        ident: s("E"),
        generics: generics(&[]),
        variants: vec![variant("A", one("Foo")), variant("B", one("Bar"))],
    };
    let def = trait_def("Assoc", vec![], vec![assoc("A"), assoc("B")]);
    let imp = derive(item, "Assoc", &[], def).unwrap();
    assert_eq!(imp.generics.where_clause.len(), 2);
    let (ty, _, binds) = bound(&imp.generics.where_clause[1]);
    assert_eq!(ty, "Bar");
    assert_eq!(binds, vec![("A", "Foo", "Assoc"), ("B", "Foo", "Assoc")]);
}

#[test]
fn generic_trait_parameters_are_merged() {
    let mut def = trait_def("Conv", vec![], vec![assoc("Out")]);
    def.generics = Generics {
        params: vec![type_param("T")],
        where_clause: vec![WherePredicate::Verbatim(s("T: Clone"))],
    };
    let mut item = enum_xy();
    item.generics.where_clause.push(WherePredicate::Verbatim(s("X: Default")));
    let imp = derive(item, "Conv", &[], def).unwrap();
    let params: Vec<&str> = imp.generics.params.iter().map(|p| p.name.as_str()).collect();
    assert_eq!(params, vec!["X", "Y", "T"]);
    let preds = &imp.generics.where_clause;
    assert_eq!(preds.len(), 4);
    assert!(matches!(&preds[0], WherePredicate::Verbatim(t) if t == "X: Default"));
    let (ty, tr, binds) = bound(&preds[2]);
    assert_eq!(ty, "Y");
    assert_eq!(tr.args, strings(&["T"]));
    assert_eq!(binds, vec![("Out", "X", "Conv")]);
    match &preds[2] {
        WherePredicate::Bound(b) => assert_eq!(b.bindings[0].through.args, strings(&["T"])),
        _ => unreachable!(),
    }
    assert!(matches!(&preds[3], WherePredicate::Verbatim(t) if t == "T: Clone"));
    assert_eq!(imp.trait_.as_ref().unwrap().args, strings(&["T"]));
}

#[test]
fn one_item_per_supported_trait_item() {
    let mut def = iterator();
    def.items.push(TraitItem::Other);
    def.items.push(TraitItem::Type(TraitItemType { ident: s("Gat"), generic: true }));
    def.unsafety = true;
    let imp = derive(enum_xy(), "Iterator", &[], def).unwrap();
    assert_eq!(imp.items.len(), 3);
    assert!(imp.unsafety);
    assert!(!imp.allow_unsafe_code);
}

#[test]
fn missing_receiver_rejected() {
    let mut def = iterator();
    def.items.push(method(sig("new", None, vec![], "fn new() -> Self", &["new", "Self"])));
    let r = derive(enum_xy(), "Iterator", &[], def);
    let e = r.err().unwrap();
    assert_eq!(e, Error::Receiver { method: s("new"), reason: ReceiverReason::Missing });
    assert_eq!(e.description(), "static/free methods cannot be forwarded");
}

#[test]
fn boxed_receiver_unsupported() {
    let boxed = Some(Receiver {
        ty: Some(SelfType::Path { leading_colon: false, segments: strings(&["Box"]), args: vec![self_path()] }),
    });
    let def = trait_def("T", vec![], vec![method(sig("f", boxed, vec![], "fn f(self: Box<Self>)", &["f"]))]);
    let e = derive(enum_xy(), "T", &[], def).err().unwrap();
    assert_eq!(e, Error::Receiver { method: s("f"), reason: ReceiverReason::Unsupported });
    assert!(e.description().starts_with("unsupported receiver type"));
}

#[test]
fn explicit_self_receivers_are_normal() {
    let by_value = Some(Receiver { ty: Some(self_path()) });
    let by_ref = Some(Receiver {
        ty: Some(SelfType::Reference { mutable: true, elem: Box::new(self_path()) }),
    });
    let def = trait_def(
        "T",
        vec![],
        vec![
            method(sig("f", by_value, vec![], "fn f(self: Self)", &["f"])),
            method(sig("g", by_ref, vec![], "fn g(self: &mut Self)", &["g"])),
        ],
    );
    let imp = derive(enum_xy(), "T", &[], def).unwrap();
    assert_eq!(method_of(&imp.items[0]).receiver, ReceiverKind::Normal);
    assert_eq!(method_of(&imp.items[1]).receiver, ReceiverKind::Normal);
}

#[test]
fn non_identifier_argument_rejected() {
    let def = trait_def(
        "T",
        vec![],
        vec![method(sig(
            "f",
            short_receiver(),
            vec![FnArg::Typed(Pat::Ident(s("a"))), FnArg::Typed(Pat::Other)],
            "fn f(&self, a: u8, _: u8)",
            &["f"],
        ))],
    );
    let e = derive(enum_xy(), "T", &[], def).err().unwrap();
    assert_eq!(e, Error::Body { method: s("f"), reason: BodyReason::NonIdentPattern });
}

#[test]
fn second_receiver_rejected() {
    let def = trait_def(
        "T",
        vec![],
        vec![method(sig(
            "f",
            short_receiver(),
            vec![FnArg::Receiver(Receiver { ty: None })],
            "fn f(&self, self)",
            &["f"],
        ))],
    );
    let e = derive(enum_xy(), "T", &[], def).err().unwrap();
    assert_eq!(e, Error::Body { method: s("f"), reason: BodyReason::ReceiverNotFirst });
}

#[test]
fn builder_without_trait_calls_methods_directly() {
    let d = data(enum_xy());
    let mut b = EnumImpl::new(&d);
    let m = TraitItemFn {
        attrs: s(""),
        sig: sig(
            "get",
            short_receiver(),
            vec![FnArg::Typed(Pat::Ident(s("i")))],
            "fn get(&self, i: usize) -> u8",
            &["get", "self", "i", "usize", "u8"],
        ),
        has_default: false,
    };
    b.push_method(m).unwrap();
    b.push_generic_param(type_param("Z"));
    b.push_where_predicate(WherePredicate::Verbatim(s("Z: Copy")));
    b.push_item(ImplItem::Verbatim(s("const N: usize = 2;")));
    let imp = b.build_impl();
    assert!(imp.trait_.is_none());
    assert_eq!(imp.items.len(), 2);
    let f = method_of(&imp.items[0]);
    assert!(f.qualified.is_none());
    assert_eq!(f.args, strings(&["i"]));
    assert_eq!(imp.generics.params.len(), 3);
    assert_eq!(imp.generics.where_clause.len(), 1);
}

#[test]
fn builder_set_trait_qualifies_later_methods() {
    let d = data(enum_xy());
    let mut b = EnumImpl::new(&d);
    b.set_trait(GenericPath { path: s("Show"), args: vec![] });
    let def = trait_def(
        "Show",
        vec![],
        vec![method(sig("show", short_receiver(), vec![], "fn show(&self)", &["show", "self"]))],
    );
    b.append_items_from_trait(def).unwrap();
    let imp = b.build_impl();
    assert_eq!(method_of(&imp.items[0]).qualified.as_ref().unwrap().path, "Show");
}

#[test]
fn failed_append_leaves_builder_unchanged() {
    let d = data(enum_xy());
    let mut b = EnumImpl::from_trait(&d, &s("Iterator"), vec![], iterator()).unwrap();
    let mut bad = iterator();
    if let TraitItem::Fn(f) = &mut bad.items[1] {
        f.has_default = true;
    }
    assert!(b.append_items_from_trait(bad).is_err());
    assert_eq!(b.build_impl().items.len(), 3);
}

#[test]
fn receiver_kind_classifies_signature() {
    let good = sig("f", pinned_receiver(false, &["Pin"], false), vec![], "fn f(self: Pin<&Self>)", &["f"]);
    assert_eq!(ReceiverKind::new(&good), Ok(ReceiverKind::Pinned { mutable: false, path: PinPath::Pin }));
    let none = sig("g", None, vec![FnArg::Typed(Pat::Ident(s("x")))], "fn g(x: u8)", &["g"]);
    assert_eq!(
        ReceiverKind::new(&none),
        Err(Error::Receiver { method: s("g"), reason: ReceiverReason::Missing })
    );
}
