use crate::injector::inject::{inject_item, item_injected, path_view};
use crate::injector::model::{
    BodyStmt, FnParts, ImplMember, ItemKind, Param, ParsedItem, TraitMember,
};
use crate::injector::syntax::{
    close_impl_item, close_item, close_param, close_trait_item, closed_impl_item, closed_item,
    closed_param, closed_trait_item, item_parses, open_impl_item, open_item, open_param, open_trait_item, opened_impl_item,
    opened_item, opened_param, opened_trait_item, parse_item, parse_stmt, parsed_item,
    parsed_stmt, print_item, print_path, printed_item, printed_path, stmt_parses, FnNode,
    FnNodeView, ItemNode, ItemNodeView,
};
use vstd::prelude::*;

verus! {

// ---------------------------------------------------------------------------
// Reading: the model of a parsed item.

/// `p` is the model of the function parts `f`: name and constness as they
/// are, each parameter classified, each statement kept as a plain one.
pub open spec fn fn_read(f: FnNodeView, p: FnParts) -> bool {
    &&& p.name@ == f.name
    &&& p.is_const == f.is_const
    &&& p.inputs@ == f.inputs.map_values(|a: syn::FnArg| opened_param(a))
    &&& p.body@ == f.stmts.map_values(|s: syn::Stmt| BodyStmt::Plain(s))
}

/// `m` is the model of the impl item `item`.
pub open spec fn member_read(item: syn::ImplItem, m: ImplMember) -> bool {
    let (shell, node) = opened_impl_item(item);
    &&& m.shell == shell
    &&& match node {
        None => m.method is None,
        Some(f) => m.method matches Some(p) && fn_read(f, p),
    }
}

/// `m` is the model of the trait item `item`.
pub open spec fn trait_member_read(item: syn::TraitItem, m: TraitMember) -> bool {
    let (shell, node) = opened_trait_item(item);
    &&& m.shell == shell
    &&& match node {
        None => m.method is None,
        Some(f) => m.method matches Some(p) && fn_read(f, p),
    }
}

/// The view of an optional trait path, printed.
pub open spec fn printed_trait_path(path: Option<syn::Path>) -> Option<Seq<char>> {
    match path {
        Some(p) => Some(printed_path(p)),
        None => None,
    }
}

/// `m` is the model of the parsed item `item`, read down to `depth` levels
/// of nested modules; a module nested deeper is kept whole, as an item of
/// another kind.
pub open spec fn item_read(item: syn::Item, m: ParsedItem, depth: nat) -> bool
    decreases m, 1nat,
{
    let (shell, node) = opened_item(item);
    match node {
        ItemNodeView::Mod(Some(items)) => if depth == 0 {
            m.shell == item && m.kind is Other
        } else {
            &&& m.shell == shell
            &&& m.kind matches ItemKind::Mod(Some(ms)) && items_read(items, ms@, (depth - 1) as nat)
        },
        ItemNodeView::Mod(None) => {
            &&& m.shell == shell
            &&& m.kind matches ItemKind::Mod(None)
        },
        ItemNodeView::Fn(f) => {
            &&& m.shell == shell
            &&& m.kind matches ItemKind::Fn(p) && fn_read(f, p)
        },
        ItemNodeView::Impl { trait_path, items } => {
            &&& m.shell == shell
            &&& m.kind matches ItemKind::Impl { trait_path: tp, items: ms } && path_view(tp)
                == printed_trait_path(trait_path) && ms@.len() == items.len() && forall|i: int|
                0 <= i < items.len() ==> #[trigger] member_read(items[i], ms@[i])
        },
        ItemNodeView::Trait { members } => {
            &&& m.shell == shell
            &&& m.kind matches ItemKind::Trait { members: ms } && ms@.len() == members.len()
                && forall|i: int|
                0 <= i < members.len() ==> #[trigger] trait_member_read(members[i], ms@[i])
        },
        ItemNodeView::Other => {
            &&& m.shell == shell
            &&& m.kind is Other
        },
    }
}

/// Each item of `ms` is the model of the item of `items` at the same
/// position.
pub open spec fn items_read(items: Seq<syn::Item>, ms: Seq<ParsedItem>, depth: nat) -> bool
    decreases ms, 0nat,
{
    if ms.len() == 0 {
        items.len() == 0
    } else {
        &&& items.len() == ms.len()
        &&& items_read(items.drop_last(), ms.drop_last(), depth)
        &&& item_read(items.last(), ms.last(), depth)
    }
}

/// The model of `item` descends into at most `depth` levels of nested
/// modules.
pub open spec fn nested_within(item: ParsedItem, depth: nat) -> bool
    decreases item, 1nat,
{
    match item.kind {
        ItemKind::Mod(Some(items)) => depth > 0 && all_nested_within(items@, (depth - 1) as nat),
        _ => true,
    }
}

/// Every item of `items` descends into at most `depth` levels of nested
/// modules.
pub open spec fn all_nested_within(items: Seq<ParsedItem>, depth: nat) -> bool
    decreases items, 0nat,
{
    if items.len() == 0 {
        true
    } else {
        all_nested_within(items.drop_last(), depth) && nested_within(items.last(), depth)
    }
}

/// Reads one level of a function into the model.
fn read_fn(node: FnNode) -> (r: FnParts)
    ensures
        fn_read(node@, r),
{
    let ghost f = node@;
    let FnNode { name, is_const, inputs, stmts } = node;
    let mut rest = inputs;
    let mut params = Vec::new();
    while rest.len() > 0
        invariant
            params@.len() + rest@.len() == f.inputs.len(),
            rest@ == f.inputs.skip(params@.len() as int),
            params@ == f.inputs.take(params@.len() as int).map_values(|a: syn::FnArg| opened_param(a)),
        decreases rest.len(),
    {
        let ghost k = params@.len();
        let arg = rest.remove(0);
        proof {
            assert(arg == f.inputs[k as int]);
        }
        params.push(open_param(arg));
        proof {
            assert(rest@ =~= f.inputs.skip(params@.len() as int));
            assert(params@ =~= f.inputs.take(params@.len() as int).map_values(
                |a: syn::FnArg| opened_param(a),
            ));
        }
    }
    let mut rest = stmts;
    let mut body = Vec::new();
    while rest.len() > 0
        invariant
            body@.len() + rest@.len() == f.stmts.len(),
            rest@ == f.stmts.skip(body@.len() as int),
            body@ == f.stmts.take(body@.len() as int).map_values(|s: syn::Stmt| BodyStmt::Plain(s)),
        decreases rest.len(),
    {
        let ghost k = body@.len();
        let stmt = rest.remove(0);
        proof {
            assert(stmt == f.stmts[k as int]);
        }
        body.push(BodyStmt::Plain(stmt));
        proof {
            assert(rest@ =~= f.stmts.skip(body@.len() as int));
            assert(body@ =~= f.stmts.take(body@.len() as int).map_values(
                |s: syn::Stmt| BodyStmt::Plain(s),
            ));
        }
    }
    proof {
        assert(f.inputs.take(f.inputs.len() as int) =~= f.inputs);
        assert(f.stmts.take(f.stmts.len() as int) =~= f.stmts);
    }
    FnParts { name, is_const, inputs: params, body }
}

/// Reads the items of an impl block into the model, one member per item,
/// in order.
fn read_members(items: Vec<syn::ImplItem>) -> (r: Vec<ImplMember>)
    ensures
        r@.len() == items@.len(),
        forall|i: int| 0 <= i < items@.len() ==> #[trigger] member_read(items@[i], r@[i]),
{
    let ghost all = items@;
    let mut rest = items;
    let mut members = Vec::new();
    while rest.len() > 0
        invariant
            all == items@,
            members@.len() + rest@.len() == all.len(),
            rest@ == all.skip(members@.len() as int),
            forall|i: int| 0 <= i < members@.len() ==> #[trigger] member_read(all[i], members@[i]),
        decreases rest.len(),
    {
        let ghost k = members@.len();
        let mut shell = rest.remove(0);
        proof {
            assert(shell == all[k as int]);
        }
        let method = match open_impl_item(&mut shell) {
            Some(node) => Some(read_fn(node)),
            None => None,
        };
        members.push(ImplMember { shell, method });
        proof {
            assert(rest@ =~= all.skip(members@.len() as int));
        }
    }
    members
}

/// Reads the items of a trait into the model, one member per item, in
/// order.
fn read_trait_members(items: Vec<syn::TraitItem>) -> (r: Vec<TraitMember>)
    ensures
        r@.len() == items@.len(),
        forall|i: int| 0 <= i < items@.len() ==> #[trigger] trait_member_read(items@[i], r@[i]),
{
    let ghost all = items@;
    let mut rest = items;
    let mut members = Vec::new();
    while rest.len() > 0
        invariant
            all == items@,
            members@.len() + rest@.len() == all.len(),
            rest@ == all.skip(members@.len() as int),
            forall|i: int| 0 <= i < members@.len() ==> #[trigger] trait_member_read(all[i], members@[i]),
        decreases rest.len(),
    {
        let ghost k = members@.len();
        let mut shell = rest.remove(0);
        proof {
            assert(shell == all[k as int]);
        }
        let method = match open_trait_item(&mut shell) {
            Some(node) => Some(read_fn(node)),
            None => None,
        };
        members.push(TraitMember { shell, method });
        proof {
            assert(rest@ =~= all.skip(members@.len() as int));
        }
    }
    members
}

/// Reads a parsed item into the model, descending into at most `depth`
/// levels of nested modules; a module nested deeper is kept whole, as an
/// item of another kind.
fn read_item(item: syn::Item, depth: usize) -> (r: ParsedItem)
    ensures
        item_read(item, r, depth as nat),
        nested_within(r, depth as nat),
    decreases depth, 0nat,
{
    let mut shell = item;
    let node = open_item(&mut shell);
    let kind = match node {
        ItemNode::Mod(None) => ItemKind::Mod(None),
        ItemNode::Mod(Some(items)) => {
            if depth == 0 {
                close_item(&mut shell, ItemNode::Mod(Some(items)));
                ItemKind::Other
            } else {
                ItemKind::Mod(Some(read_items(items, depth - 1)))
            }
        },
        ItemNode::Fn(node) => ItemKind::Fn(read_fn(node)),
        ItemNode::Impl { trait_path, items } => {
            let printed = match &trait_path {
                Some(path) => Some(print_path(path)),
                None => None,
            };
            ItemKind::Impl { trait_path: printed, items: read_members(items) }
        },
        ItemNode::Trait { members } => ItemKind::Trait { members: read_trait_members(members) },
        ItemNode::Other => ItemKind::Other,
    };
    ParsedItem { shell, kind }
}

/// Reads the items of a module into the model: one per item, in order,
/// each descending into at most `depth` levels of nested modules.
fn read_items(items: Vec<syn::Item>, depth: usize) -> (r: Vec<ParsedItem>)
    ensures
        items_read(items@, r@, depth as nat),
        all_nested_within(r@, depth as nat),
    decreases depth, 1nat,
{
    let ghost all = items@;
    let mut rest = items;
    let mut parsed = Vec::new();
    while rest.len() > 0
        invariant
            all == items@,
            parsed@.len() + rest@.len() == all.len(),
            rest@ == all.skip(parsed@.len() as int),
            items_read(all.take(parsed@.len() as int), parsed@, depth as nat),
            all_nested_within(parsed@, depth as nat),
        decreases rest.len(),
    {
        let ghost k = parsed@.len();
        let item = rest.remove(0);
        proof {
            assert(item == all[k as int]);
        }
        let ghost before = parsed@;
        let p = read_item(item, depth);
        parsed.push(p);
        proof {
            assert(parsed@.drop_last() =~= before);
            assert(all.take(k as int + 1).drop_last() =~= all.take(k as int));
            assert(all.take(k as int + 1).last() == all[k as int]);
            assert(rest@ =~= all.skip(parsed@.len() as int));
        }
    }
    proof {
        assert(all.take(all.len() as int) =~= all);
    }
    parsed
}

// ---------------------------------------------------------------------------
// Writing: the parsed item of a model.

/// Whether `stmt`, if the injector put it there, parses as a statement.
pub open spec fn stmt_parses_if_injected(stmt: BodyStmt) -> bool {
    match stmt {
        BodyStmt::Injected(text) => stmt_parses(text@),
        BodyStmt::Plain(_) => true,
    }
}

/// Whether every statement that the injector put in `body` parses as a
/// statement.
pub open spec fn stmts_parse(body: Seq<BodyStmt>) -> bool {
    forall|i: int| 0 <= i < body.len() ==> #[trigger] stmt_parses_if_injected(body[i])
}

/// The `syn` statement written for a statement of the model: a plain one as
/// it is, an injected one parsed.
pub open spec fn written_stmt(stmt: BodyStmt) -> syn::Stmt {
    match stmt {
        BodyStmt::Plain(s) => s,
        BodyStmt::Injected(text) => parsed_stmt(text@),
    }
}

/// The function parts written for a function of the model.
pub open spec fn written_fn(p: FnParts) -> FnNodeView {
    FnNodeView {
        name: p.name@,
        is_const: p.is_const,
        inputs: p.inputs@.map_values(|a: Param| closed_param(a)),
        stmts: p.body@.map_values(|s: BodyStmt| written_stmt(s)),
    }
}

/// The parts written for an optional method of the model.
pub open spec fn written_method(method: Option<FnParts>) -> Option<FnNodeView> {
    match method {
        Some(p) => Some(written_fn(p)),
        None => None,
    }
}

/// Whether every injected statement of a method in `member` parses as a statement.
pub open spec fn member_stmts_parse(member: ImplMember) -> bool {
    match member.method {
        Some(parts) => stmts_parse(parts.body@),
        None => true,
    }
}

/// Whether every injected statement of a method in `member` parses as a statement.
pub open spec fn trait_member_stmts_parse(member: TraitMember) -> bool {
    match member.method {
        Some(parts) => stmts_parse(parts.body@),
        None => true,
    }
}

/// The impl item written for a member of the model.
pub open spec fn written_member(member: ImplMember) -> syn::ImplItem {
    closed_impl_item(member.shell, written_method(member.method))
}

/// The trait item written for a member of the model.
pub open spec fn written_trait_member(member: TraitMember) -> syn::TraitItem {
    closed_trait_item(member.shell, written_method(member.method))
}

/// Whether every injected statement in `item` (in nested modules, functions and
/// methods) parses as a statement.
pub open spec fn item_stmts_parse(item: ParsedItem) -> bool
    decreases item, 1nat,
{
    match item.kind {
        ItemKind::Mod(Some(items)) => items_stmts_parse(items@),
        ItemKind::Fn(parts) => stmts_parse(parts.body@),
        ItemKind::Impl { items, .. } => forall|i: int|
            0 <= i < items@.len() ==> #[trigger] member_stmts_parse(items@[i]),
        ItemKind::Trait { members } => forall|i: int|
            0 <= i < members@.len() ==> #[trigger] trait_member_stmts_parse(members@[i]),
        _ => true,
    }
}

/// Whether every injected statement in every item of `items` parses as a statement.
pub open spec fn items_stmts_parse(items: Seq<ParsedItem>) -> bool
    decreases items, 0nat,
{
    if items.len() == 0 {
        true
    } else {
        items_stmts_parse(items.drop_last()) && item_stmts_parse(items.last())
    }
}

/// The parsed item written for an item of the model.
pub open spec fn written_item(item: ParsedItem) -> syn::Item
    decreases item, 1nat,
{
    let node = match item.kind {
        ItemKind::Mod(None) => ItemNodeView::Mod(None),
        ItemKind::Mod(Some(items)) => ItemNodeView::Mod(Some(written_items(items@))),
        ItemKind::Fn(parts) => ItemNodeView::Fn(written_fn(parts)),
        ItemKind::Impl { items, .. } => ItemNodeView::Impl {
            trait_path: None,
            items: items@.map_values(|m: ImplMember| written_member(m)),
        },
        ItemKind::Trait { members } => ItemNodeView::Trait {
            members: members@.map_values(|m: TraitMember| written_trait_member(m)),
        },
        ItemKind::Other => ItemNodeView::Other,
    };
    closed_item(item.shell, node)
}

/// The parsed items written for items of the model.
pub open spec fn written_items(items: Seq<ParsedItem>) -> Seq<syn::Item>
    decreases items, 0nat,
{
    if items.len() == 0 {
        Seq::empty()
    } else {
        written_items(items.drop_last()).push(written_item(items.last()))
    }
}

proof fn lemma_items_stmts_parse_each(items: Seq<ParsedItem>, j: int)
    requires
        items_stmts_parse(items),
        0 <= j < items.len(),
    ensures
        item_stmts_parse(items[j]),
    decreases items.len(),
{
    if j < items.len() - 1 {
        assert(items.drop_last()[j] == items[j]);
        lemma_items_stmts_parse_each(items.drop_last(), j);
    }
}

/// Writes one level of a function back: `None` exactly when an injected
/// statement does not parse; otherwise the parts `written_fn` gives.
fn write_fn(parts: FnParts) -> (r: Option<FnNode>)
    ensures
        r is Some <==> stmts_parse(parts.body@),
        r matches Some(node) ==> node@ == written_fn(parts),
{
    let ghost params = parts.inputs@;
    let ghost all = parts.body@;
    let FnParts { name, is_const, inputs, body } = parts;
    let mut rest = inputs;
    let mut args = Vec::new();
    while rest.len() > 0
        invariant
            args@.len() + rest@.len() == params.len(),
            rest@ == params.skip(args@.len() as int),
            args@ == params.take(args@.len() as int).map_values(|a: Param| closed_param(a)),
        decreases rest.len(),
    {
        let ghost k = args@.len();
        let param = rest.remove(0);
        proof {
            assert(param == params[k as int]);
        }
        args.push(close_param(param));
        proof {
            assert(rest@ =~= params.skip(args@.len() as int));
            assert(args@ =~= params.take(args@.len() as int).map_values(
                |a: Param| closed_param(a),
            ));
        }
    }
    let mut rest = body;
    let mut stmts = Vec::new();
    while rest.len() > 0
        invariant
            all == parts.body@,
            stmts@.len() + rest@.len() == all.len(),
            rest@ == all.skip(stmts@.len() as int),
            stmts@ == all.take(stmts@.len() as int).map_values(|s: BodyStmt| written_stmt(s)),
            forall|i: int| 0 <= i < stmts@.len() ==> #[trigger] stmt_parses_if_injected(all[i]),
        decreases rest.len(),
    {
        let ghost k = stmts@.len();
        let stmt = rest.remove(0);
        proof {
            assert(stmt == all[k as int]);
        }
        match stmt {
            BodyStmt::Plain(stmt) => stmts.push(stmt),
            BodyStmt::Injected(text) => match parse_stmt(text.as_str()) {
                Some(stmt) => stmts.push(stmt),
                None => {
                    proof {
                        assert(!stmt_parses_if_injected(all[k as int]));
                    }
                    return None;
                },
            },
        }
        proof {
            assert(rest@ =~= all.skip(stmts@.len() as int));
            assert(stmts@ =~= all.take(stmts@.len() as int).map_values(
                |s: BodyStmt| written_stmt(s),
            ));
        }
    }
    proof {
        assert(params.take(params.len() as int) =~= params);
        assert(all.take(all.len() as int) =~= all);
    }
    Some(FnNode { name, is_const, inputs: args, stmts })
}

/// Writes the members of an impl block back: `None` exactly when an injected
/// statement of one of its methods does not parse; otherwise the items
/// `written_member` gives, in order.
fn write_members(members: Vec<ImplMember>) -> (r: Option<Vec<syn::ImplItem>>)
    ensures
        r is Some <==> forall|i: int|
            0 <= i < members@.len() ==> #[trigger] member_stmts_parse(members@[i]),
        r matches Some(items) ==> items@ == members@.map_values(|m: ImplMember| written_member(m)),
{
    let ghost all = members@;
    let mut rest = members;
    let mut items = Vec::new();
    while rest.len() > 0
        invariant
            all == members@,
            items@.len() + rest@.len() == all.len(),
            rest@ == all.skip(items@.len() as int),
            forall|i: int| 0 <= i < items@.len() ==> #[trigger] member_stmts_parse(all[i]),
            items@ == all.take(items@.len() as int).map_values(|m: ImplMember| written_member(m)),
        decreases rest.len(),
    {
        let ghost k = items@.len();
        let member = rest.remove(0);
        proof {
            assert(member == all[k as int]);
        }
        let ImplMember { shell, method } = member;
        let mut shell = shell;
        let node = match method {
            Some(parts) => match write_fn(parts) {
                Some(node) => Some(node),
                None => {
                    proof {
                        assert(!member_stmts_parse(all[k as int]));
                    }
                    return None;
                },
            },
            None => None,
        };
        close_impl_item(&mut shell, node);
        items.push(shell);
        proof {
            assert(rest@ =~= all.skip(items@.len() as int));
            assert(items@ =~= all.take(items@.len() as int).map_values(
                |m: ImplMember| written_member(m),
            ));
        }
    }
    proof {
        assert(all.take(all.len() as int) =~= all);
    }
    Some(items)
}

/// Writes the members of a trait back: `None` exactly when an injected statement of one
/// of its default methods does not parse; otherwise the items
/// `written_trait_member` gives, in order.
fn write_trait_members(members: Vec<TraitMember>) -> (r: Option<Vec<syn::TraitItem>>)
    ensures
        r is Some <==> forall|i: int|
            0 <= i < members@.len() ==> #[trigger] trait_member_stmts_parse(members@[i]),
        r matches Some(items) ==> items@ == members@.map_values(
            |m: TraitMember| written_trait_member(m),
        ),
{
    let ghost all = members@;
    let mut rest = members;
    let mut items = Vec::new();
    while rest.len() > 0
        invariant
            all == members@,
            items@.len() + rest@.len() == all.len(),
            rest@ == all.skip(items@.len() as int),
            forall|i: int| 0 <= i < items@.len() ==> #[trigger] trait_member_stmts_parse(all[i]),
            items@ == all.take(items@.len() as int).map_values(
                |m: TraitMember| written_trait_member(m),
            ),
        decreases rest.len(),
    {
        let ghost k = items@.len();
        let member = rest.remove(0);
        proof {
            assert(member == all[k as int]);
        }
        let TraitMember { shell, method } = member;
        let mut shell = shell;
        let node = match method {
            Some(parts) => match write_fn(parts) {
                Some(node) => Some(node),
                None => {
                    proof {
                        assert(!trait_member_stmts_parse(all[k as int]));
                    }
                    return None;
                },
            },
            None => None,
        };
        close_trait_item(&mut shell, node);
        items.push(shell);
        proof {
            assert(rest@ =~= all.skip(items@.len() as int));
            assert(items@ =~= all.take(items@.len() as int).map_values(
                |m: TraitMember| written_trait_member(m),
            ));
        }
    }
    proof {
        assert(all.take(all.len() as int) =~= all);
    }
    Some(items)
}

/// Writes an item of the model back into a parsed item: `None` exactly
/// when an injected statement in it does not parse as a statement; otherwise the item
/// `written_item` gives.
fn write_item(item: ParsedItem) -> (r: Option<syn::Item>)
    ensures
        r is Some <==> item_stmts_parse(item),
        r matches Some(written) ==> written == written_item(item),
    decreases item, 1nat,
{
    let ParsedItem { shell, kind } = item;
    let mut shell = shell;
    let node = match kind {
        ItemKind::Mod(None) => ItemNode::Mod(None),
        ItemKind::Mod(Some(items)) => {
            proof {
                assert(decreases_to!(item => items));
            }
            match write_items(items) {
                Some(items) => ItemNode::Mod(Some(items)),
                None => return None,
            }
        },
        ItemKind::Fn(parts) => match write_fn(parts) {
            Some(node) => ItemNode::Fn(node),
            None => return None,
        },
        ItemKind::Impl { items, .. } => match write_members(items) {
            Some(items) => ItemNode::Impl { trait_path: None, items },
            None => return None,
        },
        ItemKind::Trait { members } => match write_trait_members(members) {
            Some(members) => ItemNode::Trait { members },
            None => return None,
        },
        ItemKind::Other => ItemNode::Other,
    };
    close_item(&mut shell, node);
    Some(shell)
}

/// Writes the items of a module back: `None` exactly when an injected statement in one
/// of them does not parse; otherwise the items `written_items` gives.
fn write_items(items: Vec<ParsedItem>) -> (r: Option<Vec<syn::Item>>)
    ensures
        r is Some <==> items_stmts_parse(items@),
        r matches Some(written) ==> written@ == written_items(items@),
    decreases items, 0nat,
{
    let ghost all = items@;
    let mut rest = items;
    let mut written = Vec::new();
    let mut k: usize = 0;
    while rest.len() > 0
        invariant
            k <= all.len(),
            rest@ == all.skip(k as int),
            all == items@,
            all.len() == items.len(),
            written@ == written_items(all.take(k as int)),
            items_stmts_parse(all.take(k as int)),
        decreases rest.len(),
    {
        let item = rest.remove(0);
        proof {
            assert(k < all.len());
            assert(item == all[k as int]);
            assert(decreases_to!(items => item));
        }
        match write_item(item) {
            Some(item) => written.push(item),
            None => {
                proof {
                    if items_stmts_parse(all) {
                        lemma_items_stmts_parse_each(all, k as int);
                    }
                }
                return None;
            },
        }
        proof {
            assert(all.take(k as int + 1).drop_last() =~= all.take(k as int));
            assert(all.take(k as int + 1).last() == all[k as int]);
        }
        k = k + 1;
        proof {
            assert(rest@ =~= all.skip(k as int));
        }
    }
    proof {
        assert(all.take(k as int) =~= all);
    }
    Some(written)
}

// ---------------------------------------------------------------------------

/// The text `inject_mocks` gives for `item`: if it parses as an item whose
/// model (read from the parsed item) injects into `injected`, and every
/// statement injected into it parses, the printed form of the item written for
/// `injected`; otherwise `item` itself.
pub open spec fn injected_text(item: Seq<char>, injected: ParsedItem) -> Seq<char> {
    if item_parses(item) && item_stmts_parse(injected) {
        printed_item(written_item(injected))
    } else {
        item
    }
}

/// The attribute that makes functions mockable, on source text: parses
/// `item` as one item and injects into it (see `inject_item`) the header
/// that lets each call consult the mock registry, then prints the result.
/// Text that does not parse as an item comes back unchanged; so does an
/// item whose rewritten form could not be built. `_attr` (the attribute's
/// arguments) is ignored.
pub fn inject_mocks(_attr: &str, item: &str) -> (r: String)
    ensures
        !item_parses(item@) ==> r@ == item@,
        item_parses(item@) ==> exists|model: ParsedItem, injected: ParsedItem|
            #![trigger item_injected(model, injected)]
            item_read(parsed_item(item@), model, usize::MAX as nat) && item_injected(model, injected)
                && r@ == injected_text(item@, injected),
{
    match parse_item(item) {
        None => String::from_str(item),
        Some(parsed) => {
            let mut model = read_item(parsed, usize::MAX);
            let ghost read = model;
            inject_item(&mut model);
            let ghost injected = model;
            let r = match write_item(model) {
                Some(out) => print_item(&out),
                None => String::from_str(item),
            };
            proof {
                assert(item_injected(read, injected));
            }
            r
        },
    }
}

} // verus!
