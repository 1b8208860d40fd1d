use vstd::prelude::*;

verus! {

/// `syn::Item`, carried through the model as an opaque value.
#[verifier::external_type_specification]
#[verifier::external_body]
pub struct ExSynItem(syn::Item);

/// `syn::ImplItem`, carried through the model as an opaque value.
#[verifier::external_type_specification]
#[verifier::external_body]
pub struct ExSynImplItem(syn::ImplItem);

/// `syn::TraitItem`, carried through the model as an opaque value.
#[verifier::external_type_specification]
#[verifier::external_body]
pub struct ExSynTraitItem(syn::TraitItem);

/// `syn::FnArg`, carried through the model as an opaque value.
#[verifier::external_type_specification]
#[verifier::external_body]
pub struct ExSynFnArg(syn::FnArg);

/// `syn::Ty`, carried through the model as an opaque value.
#[verifier::external_type_specification]
#[verifier::external_body]
pub struct ExSynTy(syn::Ty);

/// `syn::Stmt`, carried through the model as an opaque value.
#[verifier::external_type_specification]
#[verifier::external_body]
pub struct ExSynStmt(syn::Stmt);

/// `syn::Pat`, carried through the model as an opaque value.
#[verifier::external_type_specification]
#[verifier::external_body]
pub struct ExSynPat(syn::Pat);

/// `syn::Path`, carried through the model as an opaque value.
#[verifier::external_type_specification]
#[verifier::external_body]
pub struct ExSynPath(syn::Path);

/// A function parameter, as far as the injector reads it.
pub enum Param {
    /// A receiver written with `self` alone: `self`, `mut self` (by value,
    /// `by_ref` false), `&'a self`, `&'a mut self` (by reference, `by_ref`
    /// true, `ref_mutable` for `&mut`). `mutable` says that the receiver is
    /// bound `mut` (`mut self`, or, by reference, `mut self: &'a Self`).
    Receiver { by_ref: bool, ref_mutable: bool, lifetime: Option<String>, mutable: bool },
    /// A parameter bound to a plain name: `name: T` or `mut name: T` (a
    /// typed receiver, `self: Box<Self>`, is one of these, named `self`).
    Named { name: String, mutable: bool, ty: syn::Ty },
    /// An ignored parameter: `_: T`.
    Wild { ty: syn::Ty },
    /// A parameter with a type and no pattern at all: `T`.
    Anonymous { ty: syn::Ty },
    /// A parameter bound by any other pattern: `(a, b): (u8, u8)`,
    /// `ref a: u8`, `a @ 1...9: u8`, ...
    Pattern { pat: syn::Pat, ty: syn::Ty },
    /// A parameter that the injector gave a name, with the pattern that the
    /// body then destructures it with, if it had one.
    Unignored { name: String, ty: syn::Ty, pattern: Option<syn::Pat> },
}

/// A statement of a function body.
pub enum BodyStmt {
    /// A statement that the injector puts in front of the body, as Rust
    /// source.
    Injected(String),
    /// A statement of the original body.
    Plain(syn::Stmt),
}

/// The parts of a function (or method) that the injector reads or rewrites.
pub struct FnParts {
    pub name: String,
    pub is_const: bool,
    pub inputs: Vec<Param>,
    pub body: Vec<BodyStmt>,
}

/// What kind of item an item is, with the parts of it the injector reads.
pub enum ItemKind {
    /// A module: `mod m;` (no items) or `mod m { .. }`.
    Mod(Option<Vec<ParsedItem>>),
    /// A function.
    Fn(FnParts),
    /// An impl block, with the path of the trait it implements, if any.
    Impl { trait_path: Option<String>, items: Vec<ImplMember> },
    /// A trait, whose methods with default bodies are rewritten.
    Trait { members: Vec<TraitMember> },
    /// Any other item.
    Other,
}

/// An item: the parts the injector reads, and the rest of the parsed item
/// (`shell`), which it carries unchanged.
pub struct ParsedItem {
    pub shell: syn::Item,
    pub kind: ItemKind,
}

/// An item of an impl block: a method (with its parts) or anything else.
pub struct ImplMember {
    pub shell: syn::ImplItem,
    pub method: Option<FnParts>,
}

/// An item of a trait: a method with a default body (with its parts) or
/// anything else.
pub struct TraitMember {
    pub shell: syn::TraitItem,
    pub method: Option<FnParts>,
}

/// Whether a parameter is a receiver: written with `self` alone, or
/// typed (`self: Box<Self>`).
pub open spec fn is_receiver_param(p: Param) -> bool {
    match p {
        Param::Receiver { .. } => true,
        Param::Named { name, .. } => name@ == "self"@,
        _ => false,
    }
}

/// The name a parameter is bound to, and whether it is bound `mut`. A
/// parameter without a name (`_`, a type alone or another pattern, each of
/// which the injector names before it builds a header) is bound to nothing,
/// written `_`.
pub open spec fn arg_binding(a: Param) -> (Seq<char>, bool) {
    match a {
        Param::Receiver { mutable, .. } => ("self"@, mutable),
        Param::Named { name, mutable, .. } => (name@, mutable),
        Param::Unignored { name, .. } => (name@, false),
        _ => ("_"@, false),
    }
}

/// The receiver `p` bound `mut`, so that the header can rebind it; any other
/// parameter as it is.
pub open spec fn receiver_made_mutable(p: Param) -> Param {
    match p {
        Param::Receiver { by_ref, ref_mutable, lifetime, .. } => Param::Receiver {
            by_ref,
            ref_mutable,
            lifetime,
            mutable: true,
        },
        Param::Named { name, ty, .. } => if name@ == "self"@ {
            Param::Named { name, mutable: true, ty }
        } else {
            p
        },
        _ => p,
    }
}

} // verus!
