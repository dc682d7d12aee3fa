//! Errors of the engine.
use vstd::prelude::*;

verus! {

/// Why a variant cannot take part in dispatch.
#[derive(Clone, Copy, PartialEq, Eq, Debug, Structural)]
pub enum ShapeReason {
    Discriminant,
    ZeroFields,
    MultipleFields,
    NamedFields,
}

/// Why a method's receiver cannot be forwarded.
#[derive(Clone, Copy, PartialEq, Eq, Debug, Structural)]
pub enum ReceiverReason {
    /// The method takes no `self`.
    Missing,
    /// The `self` parameter has a type outside the supported set.
    Unsupported,
}

/// Why a method's declaration cannot be forwarded.
#[derive(Clone, Copy, PartialEq, Eq, Debug, Structural)]
pub enum BodyReason {
    /// The trait provides a body for it.
    DefaultBody,
    /// A `self` parameter stands after the first position.
    ReceiverNotFirst,
    /// A parameter is bound by a pattern other than a plain identifier.
    NonIdentPattern,
}

/// The first error met while synthesizing an implementation. Each one
/// points at the fragment at fault: a variant by position and name, a method
/// by name.
#[allow(inconsistent_fields)]
#[derive(PartialEq, Eq, Debug)]
pub enum Error {
    /// The enum has fewer than two variants.
    TooFewVariants { count: usize },
    /// A variant has a shape the engine does not support.
    Shape { variant: usize, name: String, reason: ShapeReason },
    /// A method's receiver is missing or unsupported.
    Receiver { method: String, reason: ReceiverReason },
    /// A method's declaration is unsupported.
    Body { method: String, reason: BodyReason },
}

/// The human-readable text of each error.
pub open spec fn description_of(e: Error) -> Seq<char> {
    match e {
        Error::TooFewVariants { .. } => "cannot dispatch over fewer than two alternatives"@,
        Error::Shape { reason, .. } => match reason {
            ShapeReason::Discriminant => "variants with discriminants unsupported"@,
            ShapeReason::ZeroFields => "zero fields unsupported"@,
            ShapeReason::MultipleFields => "multiple fields unsupported"@,
            ShapeReason::NamedFields => "named-field variants unsupported"@,
        },
        Error::Receiver { reason, .. } => match reason {
            ReceiverReason::Missing => "static/free methods cannot be forwarded"@,
            ReceiverReason::Unsupported =>
                "unsupported receiver type, expected one of: by-value self, by-reference self, by-mutable-reference self, or a pinned-reference self of the form `self: <PinPath><&Self>` / `self: <PinPath><&mut Self>`"@,
        },
        Error::Body { reason, .. } => match reason {
            BodyReason::DefaultBody => "methods with a default body cannot be forwarded"@,
            BodyReason::ReceiverNotFirst => "a receiver may only stand in the first position"@,
            BodyReason::NonIdentPattern => "parameters must be bound by plain identifiers"@,
        },
    }
}

impl Error {
    /// The text that explains the error; the variant or method it points at
    /// is in its fields.
    pub fn description(&self) -> (r: &'static str)
        ensures
            r@ == description_of(*self),
    {
        match self {
            Error::TooFewVariants { .. } => "cannot dispatch over fewer than two alternatives",
            Error::Shape { reason, .. } => match reason {
                ShapeReason::Discriminant => "variants with discriminants unsupported",
                ShapeReason::ZeroFields => "zero fields unsupported",
                ShapeReason::MultipleFields => "multiple fields unsupported",
                ShapeReason::NamedFields => "named-field variants unsupported",
            },
            Error::Receiver { reason, .. } => match reason {
                ReceiverReason::Missing => "static/free methods cannot be forwarded",
                ReceiverReason::Unsupported =>
                    "unsupported receiver type, expected one of: by-value self, by-reference self, by-mutable-reference self, or a pinned-reference self of the form `self: <PinPath><&Self>` / `self: <PinPath><&mut Self>`",
            },
            Error::Body { reason, .. } => match reason {
                BodyReason::DefaultBody => "methods with a default body cannot be forwarded",
                BodyReason::ReceiverNotFirst => "a receiver may only stand in the first position",
                BodyReason::NonIdentPattern => "parameters must be bound by plain identifiers",
            },
        }
    }
}

} // verus!
