use crate::injector::header::{
    bindings, has_receiver, header_text, unignored_arg_name, unignored_arg_name_string, HeaderBuilder,
    HeaderSpec,
};
use crate::injector::model::{
    is_receiver_param, receiver_made_mutable, BodyStmt, FnParts, ImplMember, ItemKind, Param, ParsedItem, TraitMember,
};
use crate::injector::syntax::{print_pat, printed_pat};
use vstd::prelude::*;

verus! {

/// Parameter `new` at position `i` is parameter `old` where a parameter
/// without a name (`_: T`, a type alone, or a pattern other than a plain
/// name) is given the name `__mock_unignored_argument_{i}__`, keeping the
/// pattern it had, if any, for the body to destructure.
pub open spec fn param_unignored(old: Param, new: Param, i: int) -> bool {
    match old {
        Param::Wild { ty } => new matches Param::Unignored { name, ty: new_ty, pattern } && name@
            == unignored_arg_name(i as nat) && new_ty == ty && pattern is None,
        Param::Anonymous { ty } => new matches Param::Unignored { name, ty: new_ty, pattern } && name@
            == unignored_arg_name(i as nat) && new_ty == ty && pattern is None,
        Param::Pattern { pat, ty } => new matches Param::Unignored { name, ty: new_ty, pattern } && name@
            == unignored_arg_name(i as nat) && new_ty == ty && pattern == Some(pat),
        _ => new == old,
    }
}

/// Each parameter of `new` is the one of `old` at the same position, with
/// parameters that have no name named.
pub open spec fn params_unignored(old: Seq<Param>, new: Seq<Param>) -> bool {
    &&& new.len() == old.len()
    &&& forall|i: int| 0 <= i < old.len() ==> #[trigger] param_unignored(old[i], new[i], i)
}

/// The source of a statement that the injector put in front of a body.
pub open spec fn stmt_source(stmt: BodyStmt) -> Option<Seq<char>> {
    match stmt {
        BodyStmt::Injected(text) => Some(text@),
        BodyStmt::Plain(_) => None,
    }
}

/// `new` is the body `old` with the statements `injected` (given as Rust
/// source) put in front of it, in order.
pub open spec fn body_injected(injected: Seq<Seq<char>>, old: Seq<BodyStmt>, new: Seq<BodyStmt>) -> bool {
    &&& new.len() == injected.len() + old.len()
    &&& forall|k: int| 0 <= k < injected.len() ==> #[trigger] stmt_source(new[k]) == Some(injected[k])
    &&& new.skip(injected.len() as int) == old
}

/// The statement that binds the pattern of a parameter that the injector
/// named: `let PATTERN = NAME;`; `None` for any other parameter.
pub open spec fn destructuring(p: Param) -> Option<Seq<char>> {
    match p {
        Param::Unignored { name, pattern, .. } => match pattern {
            Some(pat) => Some("let "@ + printed_pat(pat) + " = "@ + name@ + ";"@),
            None => None,
        },
        _ => None,
    }
}

/// The statements that bind the patterns of the parameters, in order.
pub open spec fn destructurings(inputs: Seq<Param>) -> Seq<Seq<char>>
    decreases inputs.len(),
{
    if inputs.len() == 0 {
        Seq::empty()
    } else {
        match destructuring(inputs.last()) {
            Some(text) => destructurings(inputs.drop_last()).push(text),
            None => destructurings(inputs.drop_last()),
        }
    }
}

/// The header that a function gets, given how its impl block (if any) looks,
/// its name and its parameters (once they are all named).
pub open spec fn fn_header(is_method: bool, trait_path: Option<Seq<char>>, name: Seq<char>, inputs: Seq<Param>) -> Seq<char> {
    header_text(
        HeaderSpec {
            fn_name: name,
            is_method,
            trait_path,
            receiver: has_receiver(inputs),
            args: bindings(inputs),
        },
    )
}

/// Parameter `new` at position `i` is parameter `old` with a receiver in
/// front bound `mut` (so that the header can rebind it) and a parameter
/// without a name named.
pub open spec fn param_prepared(old: Param, new: Param, i: int) -> bool {
    if i == 0 && is_receiver_param(old) {
        new == receiver_made_mutable(old)
    } else {
        param_unignored(old, new, i)
    }
}

/// Each parameter of `new` is the one of `old` at the same position,
/// prepared for the header (see `param_prepared`).
pub open spec fn params_prepared(old: Seq<Param>, new: Seq<Param>) -> bool {
    &&& new.len() == old.len()
    &&& forall|i: int| 0 <= i < old.len() ==> #[trigger] param_prepared(old[i], new[i], i)
}

/// The statements that a function gets in front of its body: the mock
/// header, then the statements that bind the patterns of its parameters.
pub open spec fn fn_prologue(is_method: bool, trait_path: Option<Seq<char>>, name: Seq<char>, inputs: Seq<Param>) -> Seq<Seq<char>> {
    seq![fn_header(is_method, trait_path, name, inputs)] + destructurings(inputs)
}

/// `new` is the function `old` after injection: a `const` function is left
/// alone; any other gets its receiver (if any) bound `mut`, its parameters
/// without a name named, and the mock header, then the statements that bind
/// the patterns of its parameters, in front of its body.
pub open spec fn fn_injected(is_method: bool, trait_path: Option<Seq<char>>, old: FnParts, new: FnParts) -> bool {
    if old.is_const {
        &&& new.name == old.name
        &&& new.is_const
        &&& new.inputs@ == old.inputs@
        &&& new.body@ == old.body@
    } else {
        &&& new.name == old.name
        &&& !new.is_const
        &&& params_prepared(old.inputs@, new.inputs@)
        &&& body_injected(fn_prologue(is_method, trait_path, old.name@, new.inputs@), old.body@, new.body@)
    }
}

/// The view of an optional trait path.
pub open spec fn path_view(p: Option<String>) -> Option<Seq<char>> {
    match p {
        Some(s) => Some(s@),
        None => None,
    }
}

/// `new` is the impl item `old` after injection: methods are injected as
/// methods of an impl block of the trait `trait_path`; anything else is left
/// alone.
pub open spec fn member_injected(trait_path: Option<Seq<char>>, old: ImplMember, new: ImplMember) -> bool {
    &&& new.shell == old.shell
    &&& match old.method {
        None => new.method is None,
        Some(o) => new.method matches Some(n) && fn_injected(true, trait_path, o, n),
    }
}

/// Each item of `new` is the one of `old` at the same position, injected as
/// an impl item.
pub open spec fn members_injected(trait_path: Option<Seq<char>>, old: Seq<ImplMember>, new: Seq<ImplMember>) -> bool {
    &&& new.len() == old.len()
    &&& forall|i: int| 0 <= i < old.len() ==> #[trigger] member_injected(trait_path, old[i], new[i])
}

/// `new` is the item `old` after injection: modules have all their items
/// injected (a module without a body stays so), functions are injected as
/// free functions, impl blocks have their methods injected, traits have
/// their methods with default bodies injected, and other items are left
/// alone.
pub open spec fn item_injected(old: ParsedItem, new: ParsedItem) -> bool
    decreases old, 1nat,
{
    &&& new.shell == old.shell
    &&& match old.kind {
        ItemKind::Mod(None) => new.kind matches ItemKind::Mod(None),
        ItemKind::Mod(Some(olds)) => new.kind matches ItemKind::Mod(Some(news)) && items_injected(
            olds@,
            news@,
        ),
        ItemKind::Fn(o) => new.kind matches ItemKind::Fn(n) && fn_injected(false, None, o, n),
        ItemKind::Impl { trait_path, items } => new.kind matches ItemKind::Impl {
            trait_path: new_path,
            items: new_items,
        } && new_path == trait_path && members_injected(path_view(trait_path), items@, new_items@),
        ItemKind::Trait { members } => new.kind matches ItemKind::Trait { members: new_members }
            && trait_members_injected(members@, new_members@),
        ItemKind::Other => new.kind matches ItemKind::Other,
    }
}

/// `new` is the trait item `old` after injection: a method with a default
/// body is injected as a method (named through `Self::`); anything else is
/// left alone.
pub open spec fn trait_member_injected(old: TraitMember, new: TraitMember) -> bool {
    &&& new.shell == old.shell
    &&& match old.method {
        None => new.method is None,
        Some(o) => new.method matches Some(n) && fn_injected(true, None, o, n),
    }
}

/// Each item of `new` is the one of `old` at the same position, injected as
/// a trait item.
pub open spec fn trait_members_injected(old: Seq<TraitMember>, new: Seq<TraitMember>) -> bool {
    &&& new.len() == old.len()
    &&& forall|i: int| 0 <= i < old.len() ==> #[trigger] trait_member_injected(old[i], new[i])
}

/// Each item of `new` is the one of `old` at the same position, injected.
pub open spec fn items_injected(old: Seq<ParsedItem>, new: Seq<ParsedItem>) -> bool
    decreases old, 0nat,
{
    if old.len() == 0 {
        new.len() == 0
    } else {
        &&& new.len() == old.len()
        &&& items_injected(old.drop_last(), new.drop_last())
        &&& item_injected(old.last(), new.last())
    }
}

/// Gives every parameter without a name (`_: T`, a type alone, or a
/// pattern other than a plain name) the name
/// `__mock_unignored_argument_{i}__`, `i` being its position, so that the
/// header can pass it on; a pattern is kept for the body to bind.
pub fn unignore_fn_args(inputs: &mut Vec<Param>)
    ensures
        params_unignored(old(inputs)@, final(inputs)@),
{
    let n = inputs.len();
    let mut i: usize = 0;
    while i < n
        invariant
            n == inputs@.len(),
            n == old(inputs)@.len(),
            i <= n,
            forall|j: int| 0 <= j < i ==> #[trigger] param_unignored(old(inputs)@[j], inputs@[j], j),
            forall|j: int| i <= j < n ==> inputs@[j] == old(inputs)@[j],
        decreases n - i,
    {
        if inputs[i].is_unnamed() {
            let arg = inputs.remove(i);
            let named = match arg {
                Param::Wild { ty } => Param::Unignored { name: unignored_arg_name_string(i), ty, pattern: None },
                Param::Anonymous { ty } => Param::Unignored { name: unignored_arg_name_string(i), ty, pattern: None },
                Param::Pattern { pat, ty } => Param::Unignored {
                    name: unignored_arg_name_string(i),
                    ty,
                    pattern: Some(pat),
                },
                other => other,
            };
            inputs.insert(i, named);
            proof {
                assert forall|j: int| 0 <= j < i implies #[trigger] param_unignored(
                    old(inputs)@[j],
                    inputs@[j],
                    j,
                ) by {}
            }
        }
        i = i + 1;
    }
}

/// Whether a name is `self`.
fn is_self(name: &String) -> (r: bool)
    ensures
        r == (name@ == "self"@),
{
    let receiver = String::from_str("self");
    proof {
        reveal_strlit("self");
    }
    *name == receiver
}

impl Param {
    /// Whether this is a receiver (`self`, `&self`, `self: Box<Self>`, ...).
    pub fn is_receiver(&self) -> (r: bool)
        ensures
            r == is_receiver_param(*self),
    {
        match self {
            Param::Receiver { .. } => true,
            Param::Named { name, .. } => is_self(name),
            _ => false,
        }
    }

    /// Whether this is a parameter without a name: `_: T`, a type alone, or
    /// a pattern other than a plain name.
    pub fn is_unnamed(&self) -> (r: bool)
        ensures
            r == (*self is Wild || *self is Anonymous || *self is Pattern),
    {
        match self {
            Param::Wild { .. } => true,
            Param::Anonymous { .. } => true,
            Param::Pattern { .. } => true,
            _ => false,
        }
    }
}

/// Binds a receiver `mut` (`self` becomes `mut self`, `&'a self` becomes
/// `mut self: &'a Self`, `self: Box<Self>` becomes `mut self: Box<Self>`);
/// any other parameter is given back.
pub fn make_receiver_mutable(p: Param) -> (r: Param)
    ensures
        r == receiver_made_mutable(p),
{
    match p {
        Param::Receiver { by_ref, ref_mutable, lifetime, .. } => Param::Receiver {
            by_ref,
            ref_mutable,
            lifetime,
            mutable: true,
        },
        Param::Named { name, mutable, ty } => if is_self(&name) {
            Param::Named { name, mutable: true, ty }
        } else {
            Param::Named { name, mutable, ty }
        },
        other => other,
    }
}

/// The statements that bind the patterns of the parameters, in order.
fn destructuring_stmts(inputs: &Vec<Param>) -> (r: Vec<BodyStmt>)
    ensures
        r@.len() == destructurings(inputs@).len(),
        forall|k: int| 0 <= k < r@.len() ==> #[trigger] stmt_source(r@[k]) == Some(destructurings(inputs@)[k]),
{
    let n = inputs.len();
    let mut r: Vec<BodyStmt> = Vec::new();
    let mut i: usize = 0;
    while i < n
        invariant
            n == inputs@.len(),
            i <= n,
            r@.len() == destructurings(inputs@.take(i as int)).len(),
            forall|k: int| 0 <= k < r@.len() ==> #[trigger] stmt_source(r@[k]) == Some(destructurings(inputs@.take(i as int))[k]),
        decreases n - i,
    {
        proof {
            assert(inputs@.take(i as int + 1).drop_last() =~= inputs@.take(i as int));
            assert(inputs@.take(i as int + 1).last() == inputs@[i as int]);
        }
        match &inputs[i] {
            Param::Unignored { name, pattern: Some(pat), .. } => {
                let mut s = String::from_str("let ");
                let printed = print_pat(pat);
                s.append(printed.as_str());
                s.append(" = ");
                s.append(name.as_str());
                s.append(";");
                r.push(BodyStmt::Injected(s));
            },
            _ => {},
        }
        i = i + 1;
    }
    proof {
        assert(inputs@.take(n as int) =~= inputs@);
    }
    r
}

/// Injects the mock header into a function: a `const` function is left
/// alone; any other gets its receiver (if any) bound `mut` so that the
/// header can rebind it, its parameters without a name named, and in front
/// of its body the header that `builder` (told how the function's impl block
/// looks) builds for the function's name and parameters, then the
/// statements that bind the patterns those parameters had.
pub fn inject_fn(
    builder: HeaderBuilder,
    fn_name: &String,
    inputs: &mut Vec<Param>,
    is_const: bool,
    body: &mut Vec<BodyStmt>,
)
    ensures
        is_const ==> final(inputs)@ == old(inputs)@ && final(body)@ == old(body)@,
        !is_const ==> params_prepared(old(inputs)@, final(inputs)@) && body_injected(
            fn_prologue(builder@.is_method, builder@.trait_path, fn_name@, final(inputs)@),
            old(body)@,
            final(body)@,
        ),
{
    if is_const {
        return ;
    }
    unignore_fn_args(inputs);
    let ghost named = inputs@;
    if inputs.len() > 0 && inputs[0].is_receiver() {
        let first = inputs.remove(0);
        inputs.insert(0, make_receiver_mutable(first));
    }
    proof {
        assert forall|i: int| 0 <= i < inputs@.len() implies #[trigger] param_prepared(
            old(inputs)@[i],
            inputs@[i],
            i,
        ) by {
            assert(param_unignored(old(inputs)@[i], named[i], i));
            if i > 0 {
                assert(inputs@[i] == named[i]);
            }
        }
    }
    let ghost is_method = builder@.is_method;
    let ghost trait_path = builder@.trait_path;
    let header = builder.set_fn_name(fn_name).set_input_args(inputs).build();
    let mut front: Vec<BodyStmt> = Vec::new();
    front.push(BodyStmt::Injected(header));
    let mut rest = destructuring_stmts(inputs);
    front.append(&mut rest);
    std::mem::swap(body, &mut front);
    body.append(&mut front);
    proof {
        let injected = fn_prologue(is_method, trait_path, fn_name@, inputs@);
        assert(body@.skip(injected.len() as int) =~= old(body)@);
        assert forall|k: int| 0 <= k < injected.len() implies #[trigger] stmt_source(body@[k]) == Some(injected[k]) by {
            if k > 0 {
                assert(injected[k] == destructurings(inputs@)[k - 1]);
            }
        }
    }
}

fn inject_fn_parts(builder: HeaderBuilder, parts: FnParts) -> (r: FnParts)
    ensures
        fn_injected(builder@.is_method, builder@.trait_path, parts, r),
{
    let FnParts { name, is_const, mut inputs, mut body } = parts;
    let ghost is_method = builder@.is_method;
    let ghost trait_path = builder@.trait_path;
    inject_fn(builder, &name, &mut inputs, is_const, &mut body);
    let r = FnParts { name, is_const, inputs, body };
    proof {
        if is_const {
            assert(r.inputs@ =~= parts.inputs@);
            assert(r.body@ =~= parts.body@);
        }
    }
    r
}

fn copy_path(path: &Option<String>) -> (r: Option<String>)
    ensures
        path_view(r) == path_view(*path),
{
    match path {
        Some(p) => Some(p.clone()),
        None => None,
    }
}

/// Injects the mock header into every method of an impl block of the trait
/// `trait_path` (or an inherent impl block, for `None`).
pub fn inject_impl(trait_path: &Option<String>, items: &mut Vec<ImplMember>)
    ensures
        members_injected(path_view(*trait_path), old(items)@, final(items)@),
{
    let n = items.len();
    let mut i: usize = 0;
    while i < n
        invariant
            n == items@.len(),
            n == old(items)@.len(),
            i <= n,
            forall|j: int|
                0 <= j < i ==> #[trigger] member_injected(
                    path_view(*trait_path),
                    old(items)@[j],
                    items@[j],
                ),
            forall|j: int| i <= j < n ==> items@[j] == old(items)@[j],
        decreases n - i,
    {
        let member = items.remove(i);
        let ImplMember { shell, method } = member;
        let method = match method {
            Some(parts) => {
                let builder = HeaderBuilder::default().set_is_method().set_trait_path(
                    copy_path(trait_path),
                );
                Some(inject_fn_parts(builder, parts))
            },
            None => None,
        };
        items.insert(i, ImplMember { shell, method });
        proof {
            assert forall|j: int| 0 <= j < i + 1 implies #[trigger] member_injected(
                path_view(*trait_path),
                old(items)@[j],
                items@[j],
            ) by {}
        }
        i = i + 1;
    }
}

/// Injects the mock header into every method of a trait that has a default
/// body.
pub fn inject_trait(items: &mut Vec<TraitMember>)
    ensures
        trait_members_injected(old(items)@, final(items)@),
{
    let n = items.len();
    let mut i: usize = 0;
    while i < n
        invariant
            n == items@.len(),
            n == old(items)@.len(),
            i <= n,
            forall|j: int| 0 <= j < i ==> #[trigger] trait_member_injected(old(items)@[j], items@[j]),
            forall|j: int| i <= j < n ==> items@[j] == old(items)@[j],
        decreases n - i,
    {
        let member = items.remove(i);
        let TraitMember { shell, method } = member;
        let method = match method {
            Some(parts) => {
                let builder = HeaderBuilder::default().set_is_method();
                Some(inject_fn_parts(builder, parts))
            },
            None => None,
        };
        items.insert(i, TraitMember { shell, method });
        proof {
            assert forall|j: int| 0 <= j < i + 1 implies #[trigger] trait_member_injected(
                old(items)@[j],
                items@[j],
            ) by {}
        }
        i = i + 1;
    }
}

/// Injects every item of a module (a module without a body is left alone).
pub fn inject_mod(items_opt: &mut Option<Vec<ParsedItem>>)
    ensures
        *old(items_opt) is None ==> *final(items_opt) is None,
        *old(items_opt) matches Some(olds) ==> *final(items_opt) matches Some(news)
            && items_injected(olds@, news@),
    decreases *old(items_opt), 0nat,
{
    let mut taken: Option<Vec<ParsedItem>> = None;
    std::mem::swap(&mut taken, items_opt);
    match taken {
        None => {},
        Some(mut items) => {
            let ghost olds = items@;
            let n = items.len();
            let mut i: usize = 0;
            while i < n
                invariant
                    n == items@.len(),
                    n == olds.len(),
                    *old(items_opt) is Some,
                    olds == old(items_opt)->Some_0@,
                    i <= n,
                    items_injected(olds.take(i as int), items@.take(i as int)),
                    forall|j: int| i <= j < n ==> items@[j] == olds[j],
                decreases n - i,
            {
                let ghost done = items@.take(i as int);
                let mut item = items.remove(i);
                proof {
                    assert(item == olds[i as int]);
                    assert(decreases_to!(*old(items_opt) => item));
                }
                inject_item(&mut item);
                let ghost injected = item;
                items.insert(i, item);
                proof {
                    assert(items@[i as int] == injected);
                    assert(items@.take(i as int + 1).last() == injected);
                    assert(olds.take(i as int + 1).last() == olds[i as int]);
                    assert(items@.take(i as int + 1).drop_last() =~= done);
                    assert(olds.take(i as int + 1).drop_last() =~= olds.take(i as int));
                    assert(items_injected(olds.take(i as int + 1), items@.take(i as int + 1)));
                }
                i = i + 1;
            }
            proof {
                assert(olds.take(n as int) =~= olds);
                assert(items@.take(n as int) =~= items@);
            }
            *items_opt = Some(items);
        },
    }
}

/// Injects the mock header into an item: into every item of a module, into
/// a function, or into every method of an impl block.
pub fn inject_item(item: &mut ParsedItem)
    ensures
        item_injected(*old(item), *final(item)),
    decreases *old(item), 1nat,
{
    let mut kind = ItemKind::Other;
    std::mem::swap(&mut kind, &mut item.kind);
    let kind = match kind {
        ItemKind::Mod(mut items_opt) => {
            proof {
                assert(decreases_to!(*old(item) => items_opt));
            }
            inject_mod(&mut items_opt);
            ItemKind::Mod(items_opt)
        },
        ItemKind::Fn(parts) => ItemKind::Fn(inject_fn_parts(HeaderBuilder::default(), parts)),
        ItemKind::Impl { trait_path, mut items } => {
            inject_impl(&trait_path, &mut items);
            ItemKind::Impl { trait_path, items }
        },
        ItemKind::Trait { mut members } => {
            inject_trait(&mut members);
            ItemKind::Trait { members }
        },
        ItemKind::Other => ItemKind::Other,
    };
    item.kind = kind;
}

} // verus!
