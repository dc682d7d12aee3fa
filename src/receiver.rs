//! Classification of a method's `self` parameter.
use vstd::prelude::*;

use crate::error::{Error, ReceiverReason};
use crate::syntax::{FnArg, Receiver, SelfType, Signature};

verus! {

/// How the pinning wrapper of a pinned receiver was spelled; the generated
/// body spells it the same way.
#[derive(Clone, Copy, PartialEq, Eq, Debug, Structural)]
pub enum PinPath {
    /// `Pin`
    Pin,
    /// `pin::Pin`
    PinModule,
    /// `std::pin::Pin`, or `::std::pin::Pin` with a leading colon.
    Std { leading_colon: bool },
    /// `core::pin::Pin`, or `::core::pin::Pin` with a leading colon.
    Core { leading_colon: bool },
}

/// The kind of a method's receiver.
#[derive(Clone, Copy, PartialEq, Eq, Debug, Structural)]
pub enum ReceiverKind {
    /// `self`, `&self`, `&mut self`, or the same with an explicit type
    /// `Self`, `&Self`, `&mut Self`: forwarded by a plain match.
    Normal,
    /// `self: Pin<&Self>` or `self: Pin<&mut Self>`: forwarded by projecting
    /// the pin onto the value a variant holds.
    Pinned { mutable: bool, path: PinPath },
}

/// Whether `t` is the path `Self`.
pub open spec fn is_self_type(t: SelfType) -> bool {
    t matches SelfType::Path { leading_colon, segments, args } && !leading_colon
        && segments@.len() == 1 && segments@[0]@ == "Self"@ && args@.len() == 0
}

/// The mutability of `t` where it is `&Self` or `&mut Self`.
pub open spec fn self_reference(t: SelfType) -> Option<bool> {
    match t {
        SelfType::Reference { mutable, elem } => if is_self_type(*elem) {
            Some(mutable)
        } else {
            None
        },
        _ => None,
    }
}

/// Which spelling of the pinning wrapper a path is, if it is one.
pub open spec fn pin_path_of(leading_colon: bool, segments: Seq<String>) -> Option<PinPath> {
    let n = segments.len();
    if n == 1 && !leading_colon && segments[0]@ == "Pin"@ {
        Some(PinPath::Pin)
    } else if n == 2 && !leading_colon && segments[0]@ == "pin"@ && segments[1]@ == "Pin"@ {
        Some(PinPath::PinModule)
    } else if n == 3 && segments[1]@ == "pin"@ && segments[2]@ == "Pin"@ {
        if segments[0]@ == "std"@ {
            Some(PinPath::Std { leading_colon })
        } else if segments[0]@ == "core"@ {
            Some(PinPath::Core { leading_colon })
        } else {
            None
        }
    } else {
        None
    }
}

/// The kind of a receiver, or `None` where its type is not supported.
pub open spec fn classify(r: Receiver) -> Option<ReceiverKind> {
    match r.ty {
        None => Some(ReceiverKind::Normal),
        Some(t) => if is_self_type(t) {
            Some(ReceiverKind::Normal)
        } else {
            match t {
                SelfType::Reference { elem, .. } => if is_self_type(*elem) {
                    Some(ReceiverKind::Normal)
                } else {
                    None
                },
                SelfType::Path { leading_colon, segments, args } => match pin_path_of(
                    leading_colon,
                    segments@,
                ) {
                    Some(path) => if args@.len() == 1 {
                        match self_reference(args@[0]) {
                            Some(mutable) => Some(ReceiverKind::Pinned { mutable, path }),
                            None => None,
                        }
                    } else {
                        None
                    },
                    None => None,
                },
                SelfType::Other => None,
            }
        },
    }
}

/// The kind of a method's receiver, which must be its first parameter.
pub open spec fn receiver_of(sig: Signature) -> Result<ReceiverKind, Error> {
    if sig.inputs@.len() == 0 || !(sig.inputs@[0] is Receiver) {
        Err(Error::Receiver { method: sig.ident, reason: ReceiverReason::Missing })
    } else {
        match classify(sig.inputs@[0]->Receiver_0) {
            Some(kind) => Ok(kind),
            None => Err(Error::Receiver { method: sig.ident, reason: ReceiverReason::Unsupported }),
        }
    }
}

fn is_word(s: &String, word: &str) -> (r: bool)
    ensures
        r == (s@ == word@),
{
    let w = word.to_owned();
    *s == w
}

fn is_self(t: &SelfType) -> (r: bool)
    ensures
        r == is_self_type(*t),
{
    match t {
        SelfType::Path { leading_colon, segments, args } => !*leading_colon && segments.len() == 1
            && is_word(&segments[0], "Self") && args.len() == 0,
        _ => false,
    }
}

fn pin_path(leading_colon: bool, segments: &Vec<String>) -> (r: Option<PinPath>)
    ensures
        r == pin_path_of(leading_colon, segments@),
{
    let n = segments.len();
    if n == 1 && !leading_colon && is_word(&segments[0], "Pin") {
        Some(PinPath::Pin)
    } else if n == 2 && !leading_colon && is_word(&segments[0], "pin") && is_word(
        &segments[1],
        "Pin",
    ) {
        Some(PinPath::PinModule)
    } else if n == 3 && is_word(&segments[1], "pin") && is_word(&segments[2], "Pin") {
        if is_word(&segments[0], "std") {
            Some(PinPath::Std { leading_colon })
        } else if is_word(&segments[0], "core") {
            Some(PinPath::Core { leading_colon })
        } else {
            None
        }
    } else {
        None
    }
}

fn classify_receiver(r: &Receiver) -> (k: Option<ReceiverKind>)
    ensures
        k == classify(*r),
{
    match &r.ty {
        None => Some(ReceiverKind::Normal),
        Some(t) => {
            if is_self(t) {
                return Some(ReceiverKind::Normal);
            }
            match t {
                SelfType::Reference { elem, .. } => if is_self(&**elem) {
                    Some(ReceiverKind::Normal)
                } else {
                    None
                },
                SelfType::Path { leading_colon, segments, args } => match pin_path(
                    *leading_colon,
                    segments,
                ) {
                    Some(path) => {
                        if args.len() == 1 {
                            match &args[0] {
                                SelfType::Reference { mutable, elem } => if is_self(&**elem) {
                                    Some(ReceiverKind::Pinned { mutable: *mutable, path })
                                } else {
                                    None
                                },
                                _ => None,
                            }
                        } else {
                            None
                        }
                    },
                    None => None,
                },
                SelfType::Other => None,
            }
        },
    }
}

impl ReceiverKind {
    /// Classifies the receiver of a method, which must be its first
    /// parameter.
    pub fn new(sig: &Signature) -> (r: Result<ReceiverKind, Error>)
        ensures
            r == receiver_of(*sig),
    {
        if sig.inputs.len() == 0 {
            return Err(Error::Receiver { method: sig.ident.clone(), reason: ReceiverReason::Missing });
        }
        match &sig.inputs[0] {
            FnArg::Receiver(recv) => match classify_receiver(recv) {
                Some(kind) => Ok(kind),
                None => Err(
                    Error::Receiver {
                        method: sig.ident.clone(),
                        reason: ReceiverReason::Unsupported,
                    },
                ),
            },
            FnArg::Typed(_) => Err(
                Error::Receiver { method: sig.ident.clone(), reason: ReceiverReason::Missing },
            ),
        }
    }
}

} // verus!
