use crate::injector::model::Param;
use quote::ToTokens;
use syn::{BindingMode, FnArg, Ident, Lifetime, MutTy, Mutability, Pat, Path, Ty};
use vstd::prelude::*;

verus! {

/// One level of a function (or method) as `syn` parsed it: its name, whether
/// it is `const`, its parameters and the statements of its body.
pub struct FnNode {
    pub name: String,
    pub is_const: bool,
    pub inputs: Vec<syn::FnArg>,
    pub stmts: Vec<syn::Stmt>,
}

/// The view of a `FnNode`.
pub struct FnNodeView {
    pub name: Seq<char>,
    pub is_const: bool,
    pub inputs: Seq<syn::FnArg>,
    pub stmts: Seq<syn::Stmt>,
}

impl View for FnNode {
    type V = FnNodeView;

    open spec fn view(&self) -> FnNodeView {
        FnNodeView {
            name: self.name@,
            is_const: self.is_const,
            inputs: self.inputs@,
            stmts: self.stmts@,
        }
    }
}

/// The view of an optional `FnNode`.
pub open spec fn fn_node_view(node: Option<FnNode>) -> Option<FnNodeView> {
    match node {
        Some(n) => Some(n@),
        None => None,
    }
}

/// One level of an item as `syn` parsed it: the parts taken out of it that
/// the injector reads or rewrites.
pub enum ItemNode {
    Mod(Option<Vec<syn::Item>>),
    Fn(FnNode),
    Impl { trait_path: Option<syn::Path>, items: Vec<syn::ImplItem> },
    Trait { members: Vec<syn::TraitItem> },
    Other,
}

/// The view of an `ItemNode`.
pub enum ItemNodeView {
    Mod(Option<Seq<syn::Item>>),
    Fn(FnNodeView),
    Impl { trait_path: Option<syn::Path>, items: Seq<syn::ImplItem> },
    Trait { members: Seq<syn::TraitItem> },
    Other,
}

impl View for ItemNode {
    type V = ItemNodeView;

    open spec fn view(&self) -> ItemNodeView {
        match self {
            ItemNode::Mod(None) => ItemNodeView::Mod(None),
            ItemNode::Mod(Some(items)) => ItemNodeView::Mod(Some(items@)),
            ItemNode::Fn(node) => ItemNodeView::Fn(node@),
            ItemNode::Impl { trait_path, items } => ItemNodeView::Impl {
                trait_path: *trait_path,
                items: items@,
            },
            ItemNode::Trait { members } => ItemNodeView::Trait { members: members@ },
            ItemNode::Other => ItemNodeView::Other,
        }
    }
}

/// Whether `syn::parse_item` accepts `source` as one item.
pub uninterp spec fn item_parses(source: Seq<char>) -> bool;

/// The item `syn::parse_item` parses from `source`.
pub uninterp spec fn parsed_item(source: Seq<char>) -> syn::Item;

/// Whether `syn::parse::stmt` accepts `source` as a statement.
pub uninterp spec fn stmt_parses(source: Seq<char>) -> bool;

/// The statement `syn::parse::stmt` parses from `source`.
pub uninterp spec fn parsed_stmt(source: Seq<char>) -> syn::Stmt;

/// The Rust source that `quote` prints for an item.
pub uninterp spec fn printed_item(item: syn::Item) -> Seq<char>;

/// The Rust source that `quote` prints for a path.
pub uninterp spec fn printed_path(path: syn::Path) -> Seq<char>;

/// What `open_item` leaves of an item, and the parts it takes out.
pub uninterp spec fn opened_item(item: syn::Item) -> (syn::Item, ItemNodeView);

/// The item that `close_item` makes of a shell and parts.
pub uninterp spec fn closed_item(shell: syn::Item, node: ItemNodeView) -> syn::Item;

/// What `open_impl_item` leaves of an impl item, and the parts it takes out.
pub uninterp spec fn opened_impl_item(item: syn::ImplItem) -> (syn::ImplItem, Option<FnNodeView>);

/// The impl item that `close_impl_item` makes of a shell and parts.
pub uninterp spec fn closed_impl_item(shell: syn::ImplItem, node: Option<FnNodeView>) -> syn::ImplItem;

/// What `open_trait_item` leaves of a trait item, and the parts it takes out.
pub uninterp spec fn opened_trait_item(item: syn::TraitItem) -> (syn::TraitItem, Option<FnNodeView>);

/// The trait item that `close_trait_item` makes of a shell and parts.
pub uninterp spec fn closed_trait_item(shell: syn::TraitItem, node: Option<FnNodeView>) -> syn::TraitItem;

/// The parameter `open_param` makes of a `syn::FnArg`.
pub uninterp spec fn opened_param(arg: syn::FnArg) -> Param;

/// The Rust source that `quote` prints for a pattern.
pub uninterp spec fn printed_pat(pat: syn::Pat) -> Seq<char>;

/// The receiver `self` (or `mut self`), as `syn` writes it.
pub uninterp spec fn self_value_arg(mutable: bool) -> syn::FnArg;

/// The receiver `&'a self` (or `&'a mut self`), as `syn` writes it.
pub uninterp spec fn self_ref_arg(lifetime: Option<Seq<char>>, ref_mutable: bool) -> syn::FnArg;

/// The receiver `mut self: &'a Self` (or `mut self: &'a mut Self`), as `syn`
/// writes it.
pub uninterp spec fn mut_self_ref_arg(lifetime: Option<Seq<char>>, ref_mutable: bool) -> syn::FnArg;

/// The parameter `name: T` (or `mut name: T`), as `syn` writes it.
pub uninterp spec fn binding_arg(name: Seq<char>, mutable: bool, ty: syn::Ty) -> syn::FnArg;

/// The parameter `_: T`, as `syn` writes it.
pub uninterp spec fn wild_arg(ty: syn::Ty) -> syn::FnArg;

/// The parameter `T` (a type without a pattern), as `syn` writes it.
pub uninterp spec fn anonymous_arg(ty: syn::Ty) -> syn::FnArg;

/// The parameter `PAT: T`, as `syn` writes it.
pub uninterp spec fn pattern_arg(pat: syn::Pat, ty: syn::Ty) -> syn::FnArg;

/// The view of an optional lifetime name.
pub open spec fn lifetime_view(lifetime: Option<String>) -> Option<Seq<char>> {
    match lifetime {
        Some(s) => Some(s@),
        None => None,
    }
}

/// The `syn::FnArg` written for a parameter of the model.
pub open spec fn closed_param(p: Param) -> syn::FnArg {
    match p {
        Param::Receiver { by_ref, ref_mutable, lifetime, mutable } => if !by_ref {
            self_value_arg(mutable)
        } else if mutable {
            mut_self_ref_arg(lifetime_view(lifetime), ref_mutable)
        } else {
            self_ref_arg(lifetime_view(lifetime), ref_mutable)
        },
        Param::Named { name, mutable, ty } => binding_arg(name@, mutable, ty),
        Param::Unignored { name, ty, .. } => binding_arg(name@, false, ty),
        Param::Wild { ty } => wild_arg(ty),
        Param::Anonymous { ty } => anonymous_arg(ty),
        Param::Pattern { pat, ty } => pattern_arg(pat, ty),
    }
}

/// `syn::parse_item`: parses Rust source as one item. Claimed: it succeeds
/// exactly when `item_parses` holds of the text, and gives `parsed_item` of
/// it; syn's parser is a function of the text alone.
#[verifier::external_body]
pub(crate) fn parse_item(source: &str) -> (r: Option<syn::Item>)
    ensures
        r is Some <==> item_parses(source@),
        r matches Some(item) ==> item == parsed_item(source@),
{
    syn::parse_item(source).ok()
}

/// `syn::parse::stmt`: parses Rust source as a statement. Claimed: it
/// succeeds exactly when `stmt_parses` holds of the text, and gives
/// `parsed_stmt` of it. Nothing is claimed of any text left after it.
#[verifier::external_body]
pub(crate) fn parse_stmt(source: &str) -> (r: Option<syn::Stmt>)
    ensures
        r is Some <==> stmt_parses(source@),
        r matches Some(stmt) ==> stmt == parsed_stmt(source@),
{
    match syn::parse::stmt(source) {
        syn::parse::IResult::Done(_, stmt) => Some(stmt),
        syn::parse::IResult::Error => None,
    }
}

/// `<syn::Item as quote::ToTokens>::to_tokens` into fresh `quote::Tokens`,
/// read back with `Tokens::as_str`: the item printed as Rust source, which
/// is claimed to be `printed_item` of it (printing is a function of the
/// item alone).
#[verifier::external_body]
pub(crate) fn print_item(item: &syn::Item) -> (r: String)
    ensures
        r@ == printed_item(*item),
{
    let mut tokens = quote::Tokens::new();
    item.to_tokens(&mut tokens);
    tokens.as_str().to_string()
}

/// `<syn::Path as quote::ToTokens>::to_tokens` into fresh `quote::Tokens`,
/// read back with `Tokens::as_str`: the path printed as Rust source, which
/// is claimed to be `printed_path` of it.
#[verifier::external_body]
pub(crate) fn print_path(path: &syn::Path) -> (r: String)
    ensures
        r@ == printed_path(*path),
{
    let mut tokens = quote::Tokens::new();
    path.to_tokens(&mut tokens);
    tokens.as_str().to_string()
}

/// Moves the parts that the injector reads out of a `syn::Item`: a module's
/// items (leaving `None`), a function's name (copied), constness, parameters
/// and statements (leaving empty vectors), an impl block's trait path
/// (copied) and items, a trait's items (leaving empty vectors). Claimed: the
/// result is `opened_item` of the item (a function of the item alone);
/// closing what was opened gives the item back; `ItemNode::Other` moves
/// nothing.
#[verifier::external_body]
pub(crate) fn open_item(item: &mut syn::Item) -> (r: ItemNode)
    ensures
        (*final(item), r@) == opened_item(*old(item)),
        closed_item(*final(item), r@) == *old(item),
        r is Other ==> *final(item) == *old(item),
{
    let name = item.ident.to_string();
    match item.node {
        syn::ItemKind::Mod(ref mut items) => ItemNode::Mod(items.take()),
        syn::ItemKind::Fn(ref mut decl, _, constness, _, _, ref mut block) => ItemNode::Fn(FnNode {
            name,
            is_const: constness == syn::Constness::Const,
            inputs: std::mem::take(&mut decl.inputs),
            stmts: std::mem::take(&mut block.stmts),
        }),
        syn::ItemKind::Impl(_, _, _, ref path, _, ref mut items) =>
            ItemNode::Impl { trait_path: path.clone(), items: std::mem::take(items) },
        syn::ItemKind::Trait(_, _, _, ref mut items) => ItemNode::Trait { members: std::mem::take(items) },
        _ => ItemNode::Other,
    }
}

/// Moves parts back into a `syn::Item` of the matching kind: a module's
/// items, a function's parameters and statements, an impl block's or a
/// trait's items. Claimed: the result is `closed_item` of the item and the
/// parts; `ItemNode::Other` moves nothing.
#[verifier::external_body]
pub(crate) fn close_item(item: &mut syn::Item, node: ItemNode)
    ensures
        *final(item) == closed_item(*old(item), node@),
        node is Other ==> *final(item) == *old(item),
{
    match (&mut item.node, node) {
        (syn::ItemKind::Mod(items), ItemNode::Mod(parts)) => *items = parts,
        (syn::ItemKind::Fn(decl, _, _, _, _, block), ItemNode::Fn(parts)) => {
            decl.inputs = parts.inputs;
            block.stmts = parts.stmts;
        },
        (syn::ItemKind::Impl(_, _, _, _, _, items), ItemNode::Impl { items: parts, .. }) => *items = parts,
        (syn::ItemKind::Trait(_, _, _, items), ItemNode::Trait { members: parts }) => *items = parts,
        _ => {},
    }
}

/// Moves the parts that the injector reads out of a method of an impl
/// block (see `open_item`); `None` for any other impl item. Claimed: the
/// result is `opened_impl_item` of the impl item; closing what was opened
/// gives it back; `None` moves nothing.
#[verifier::external_body]
pub(crate) fn open_impl_item(item: &mut syn::ImplItem) -> (r: Option<FnNode>)
    ensures
        (*final(item), fn_node_view(r)) == opened_impl_item(*old(item)),
        closed_impl_item(*final(item), fn_node_view(r)) == *old(item),
        r is None ==> *final(item) == *old(item),
{
    let name = item.ident.to_string();
    match item.node {
        syn::ImplItemKind::Method(ref mut sig, ref mut block) => Some(FnNode {
            name,
            is_const: sig.constness == syn::Constness::Const,
            inputs: std::mem::take(&mut sig.decl.inputs),
            stmts: std::mem::take(&mut block.stmts),
        }),
        _ => None,
    }
}

/// Moves a method's parameters and statements back into it. Claimed: the
/// result is `closed_impl_item` of the impl item and the parts; `None` moves
/// nothing.
#[verifier::external_body]
pub(crate) fn close_impl_item(item: &mut syn::ImplItem, node: Option<FnNode>)
    ensures
        *final(item) == closed_impl_item(*old(item), fn_node_view(node)),
        node is None ==> *final(item) == *old(item),
{
    match (&mut item.node, node) {
        (syn::ImplItemKind::Method(sig, block), Some(parts)) => {
            sig.decl.inputs = parts.inputs;
            block.stmts = parts.stmts;
        },
        _ => {},
    }
}

/// Moves the parts that the injector reads out of a trait method with a
/// default body (see `open_item`); `None` for any other trait item. Claimed:
/// the result is `opened_trait_item` of the trait item; closing what was
/// opened gives it back; `None` moves nothing.
#[verifier::external_body]
pub(crate) fn open_trait_item(item: &mut syn::TraitItem) -> (r: Option<FnNode>)
    ensures
        (*final(item), fn_node_view(r)) == opened_trait_item(*old(item)),
        closed_trait_item(*final(item), fn_node_view(r)) == *old(item),
        r is None ==> *final(item) == *old(item),
{
    let name = item.ident.to_string();
    match item.node {
        syn::TraitItemKind::Method(ref mut sig, Some(ref mut block)) => Some(FnNode {
            name,
            is_const: sig.constness == syn::Constness::Const,
            inputs: std::mem::take(&mut sig.decl.inputs),
            stmts: std::mem::take(&mut block.stmts),
        }),
        _ => None,
    }
}

/// Moves a default method's parameters and statements back into it.
/// Claimed: the result is `closed_trait_item` of the trait item and the
/// parts; `None` moves nothing.
#[verifier::external_body]
pub(crate) fn close_trait_item(item: &mut syn::TraitItem, node: Option<FnNode>)
    ensures
        *final(item) == closed_trait_item(*old(item), fn_node_view(node)),
        node is None ==> *final(item) == *old(item),
{
    match (&mut item.node, node) {
        (syn::TraitItemKind::Method(sig, Some(block)), Some(parts)) => {
            sig.decl.inputs = parts.inputs;
            block.stmts = parts.stmts;
        },
        _ => {},
    }
}

/// Reads a `syn::FnArg` into the model, one arm per form that `syn` has
/// for it: `&'a self` and `&'a mut self`, `self` and `mut self`, a pattern
/// that binds a plain name by value (name copied), `_`, any other pattern
/// (moved), a type alone. Claimed: the result is `opened_param` of the
/// argument (a function of the argument alone), and never a parameter that
/// the injector named.
#[verifier::external_body]
pub(crate) fn open_param(arg: syn::FnArg) -> (r: Param)
    ensures
        r == opened_param(arg),
        !(r is Unignored),
{
    match arg {
        FnArg::SelfRef(lt, m) => Param::Receiver {
            by_ref: true, ref_mutable: m == Mutability::Mutable, lifetime: lt.map(|l| l.ident.to_string()), mutable: false,
        },
        FnArg::SelfValue(m) => Param::Receiver { by_ref: false, ref_mutable: false, lifetime: None, mutable: m == Mutability::Mutable },
        FnArg::Captured(Pat::Ident(BindingMode::ByValue(m), name, None), ty) =>
            Param::Named { name: name.to_string(), mutable: m == Mutability::Mutable, ty },
        FnArg::Captured(Pat::Wild, ty) => Param::Wild { ty },
        FnArg::Captured(pat, ty) => Param::Pattern { pat, ty },
        FnArg::Ignored(ty) => Param::Anonymous { ty },
    }
}

/// `<syn::Pat as quote::ToTokens>::to_tokens` into fresh `quote::Tokens`,
/// read back with `Tokens::as_str`: the pattern printed as Rust source,
/// which is claimed to be `printed_pat` of it.
#[verifier::external_body]
pub(crate) fn print_pat(pat: &syn::Pat) -> (r: String)
    ensures
        r@ == printed_pat(*pat),
{
    let mut tokens = quote::Tokens::new();
    pat.to_tokens(&mut tokens);
    tokens.as_str().to_string()
}

/// Builds `syn::FnArg::SelfValue`: `self`, or `mut self` where `mutable`.
/// Claimed: the result is `self_value_arg` of the flag.
#[verifier::external_body]
fn make_self_value_arg(mutable: bool) -> (r: syn::FnArg)
    ensures
        r == self_value_arg(mutable),
{
    FnArg::SelfValue(if mutable { Mutability::Mutable } else { Mutability::Immutable })
}

/// Builds `syn::FnArg::SelfRef`: `&'a self`, or `&'a mut self` where
/// `ref_mutable`; the lifetime's name is kept with its apostrophe, as
/// `syn`'s parser keeps it. Claimed: the result is `self_ref_arg` of the
/// arguments.
#[verifier::external_body]
fn make_self_ref_arg(lifetime: Option<String>, ref_mutable: bool) -> (r: syn::FnArg)
    ensures
        r == self_ref_arg(lifetime_view(lifetime), ref_mutable),
{
    let lifetime = lifetime.map(|s| Lifetime { ident: Ident::from(s) });
    FnArg::SelfRef(lifetime, if ref_mutable { Mutability::Mutable } else { Mutability::Immutable })
}

/// Builds the form `syn`'s parser gives `mut self: &'a Self` (or
/// `mut self: &'a mut Self` where `ref_mutable`): a `mut` binding of the
/// name `self` to a reference to the type `Self`. Claimed: the result is
/// `mut_self_ref_arg` of the arguments.
#[verifier::external_body]
fn make_mut_self_ref_arg(lifetime: Option<String>, ref_mutable: bool) -> (r: syn::FnArg)
    ensures
        r == mut_self_ref_arg(lifetime_view(lifetime), ref_mutable),
{
    let lifetime = lifetime.map(|s| Lifetime { ident: Ident::from(s) });
    let mutability = if ref_mutable { Mutability::Mutable } else { Mutability::Immutable };
    let ty = Ty::Rptr(lifetime, Box::new(MutTy { ty: Ty::Path(None, Path::from("Self")), mutability }));
    FnArg::Captured(Pat::Ident(BindingMode::ByValue(Mutability::Mutable), Ident::from("self"), None), ty)
}

/// Builds `syn::FnArg::Captured` with a by-value binding of `name`:
/// `name: T`, or `mut name: T` where `mutable`. Claimed: the result is
/// `binding_arg` of the arguments.
#[verifier::external_body]
fn make_binding_arg(name: String, mutable: bool, ty: syn::Ty) -> (r: syn::FnArg)
    ensures
        r == binding_arg(name@, mutable, ty),
{
    let mutability = if mutable { Mutability::Mutable } else { Mutability::Immutable };
    FnArg::Captured(Pat::Ident(BindingMode::ByValue(mutability), Ident::from(name), None), ty)
}

/// Builds `syn::FnArg::Captured` with the pattern `_`. Claimed: the result
/// is `wild_arg` of the type.
#[verifier::external_body]
fn make_wild_arg(ty: syn::Ty) -> (r: syn::FnArg)
    ensures
        r == wild_arg(ty),
{
    FnArg::Captured(Pat::Wild, ty)
}

/// Builds `syn::FnArg::Ignored`: a type without a pattern. Claimed: the
/// result is `anonymous_arg` of the type.
#[verifier::external_body]
fn make_anonymous_arg(ty: syn::Ty) -> (r: syn::FnArg)
    ensures
        r == anonymous_arg(ty),
{
    FnArg::Ignored(ty)
}

/// Builds `syn::FnArg::Captured` with a pattern. Claimed: the result is
/// `pattern_arg` of the pattern and the type.
#[verifier::external_body]
fn make_pattern_arg(pat: syn::Pat, ty: syn::Ty) -> (r: syn::FnArg)
    ensures
        r == pattern_arg(pat, ty),
{
    FnArg::Captured(pat, ty)
}

/// Writes a parameter of the model as a `syn::FnArg`.
pub(crate) fn close_param(param: Param) -> (r: syn::FnArg)
    ensures
        r == closed_param(param),
{
    match param {
        Param::Receiver { by_ref, ref_mutable, lifetime, mutable } => if !by_ref {
            make_self_value_arg(mutable)
        } else if mutable {
            make_mut_self_ref_arg(lifetime, ref_mutable)
        } else {
            make_self_ref_arg(lifetime, ref_mutable)
        },
        Param::Named { name, mutable, ty } => make_binding_arg(name, mutable, ty),
        Param::Unignored { name, ty, .. } => make_binding_arg(name, false, ty),
        Param::Wild { ty } => make_wild_arg(ty),
        Param::Anonymous { ty } => make_anonymous_arg(ty),
        Param::Pattern { pat, ty } => make_pattern_arg(pat, ty),
    }
}

} // verus!
