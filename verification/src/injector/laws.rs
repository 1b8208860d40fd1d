use crate::injector::header::{
    bindings, decimal, digit_char, has_receiver, header_text, named_inputs, pattern_text, tuple_text, unignored_arg_name,
    HeaderSpec,
};
use crate::injector::inject::{
    path_view, destructuring, destructurings, fn_injected, fn_prologue, item_injected, items_injected, member_injected,
    members_injected, param_prepared, param_unignored, params_prepared, params_unignored, stmt_source,
    trait_member_injected, trait_members_injected,
};
use crate::injector::model::{
    arg_binding, is_receiver_param, receiver_made_mutable, BodyStmt, FnParts, ImplMember, ItemKind, Param,
    ParsedItem, TraitMember,
};
use crate::injector::source::{item_read, items_read, written_item, written_items};
use crate::injector::syntax::printed_pat;
use vstd::prelude::*;

verus! {

proof fn lemma_decimal_nonempty(n: nat)
    ensures
        decimal(n).len() >= 1,
    decreases n,
{
    if n >= 10 {
        lemma_decimal_nonempty(n / 10);
    }
}

proof fn lemma_decimal_injective(a: nat, b: nat)
    requires
        decimal(a) == decimal(b),
    ensures
        a == b,
    decreases a,
{
    if a < 10 && b < 10 {
        assert(decimal(a)[0] == digit_char(a));
        assert(decimal(b)[0] == digit_char(b));
    } else if a < 10 {
        lemma_decimal_nonempty(b / 10);
        assert(decimal(b).len() >= 2);
    } else if b < 10 {
        lemma_decimal_nonempty(a / 10);
        assert(decimal(a).len() >= 2);
    } else {
        let da = decimal(a / 10);
        let db = decimal(b / 10);
        assert(decimal(a).last() == digit_char(a % 10));
        assert(decimal(b).last() == digit_char(b % 10));
        assert(da =~= decimal(a).drop_last());
        assert(db =~= decimal(b).drop_last());
        lemma_decimal_injective(a / 10, b / 10);
    }
}

/// Parameters ignored at different positions get different names, so a
/// function never ends up with two parameters of the same name.
pub proof fn law_unignored_names_distinct(i: nat, j: nat)
    requires
        i != j,
    ensures
        unignored_arg_name(i) != unignored_arg_name(j),
{
    let p = "__mock_unignored_argument_"@;
    let q = "__"@;
    let si = unignored_arg_name(i);
    let sj = unignored_arg_name(j);
    if si == sj {
        assert(si.subrange(p.len() as int, si.len() - q.len()) =~= decimal(i));
        assert(sj.subrange(p.len() as int, sj.len() - q.len()) =~= decimal(j));
        lemma_decimal_injective(i, j);
    }
}

/// Once parameters without a name are named, every parameter is a receiver
/// or is bound to a plain name, so the header passes each of them on by name.
pub proof fn law_unignored_params_all_named(old: Seq<Param>, new: Seq<Param>)
    requires
        params_unignored(old, new),
        forall|i: int| 0 <= i < old.len() ==> !(#[trigger] old[i] is Unignored),
    ensures
        forall|i: int|
            0 <= i < new.len() ==> #[trigger] new[i] is Receiver || new[i] is Named || new[i] is Unignored,
{
    assert forall|i: int| 0 <= i < new.len() implies #[trigger] new[i] is Receiver || new[i] is Named
        || new[i] is Unignored by {
        assert(param_unignored(old[i], new[i], i));
    }
}

/// The statement that binds again the pattern of a parameter written at
/// position `i` with a pattern other than a plain name or `_`:
/// `let PATTERN = __mock_unignored_argument_{i}__;`.
pub open spec fn pattern_rebinding(p: Param, i: int) -> Option<Seq<char>> {
    match p {
        Param::Pattern { pat, .. } => Some("let "@ + printed_pat(pat) + " = "@ + unignored_arg_name(i as nat) + ";"@),
        _ => None,
    }
}

/// The statements that bind again the patterns of the parameters, in order.
pub open spec fn pattern_rebindings(params: Seq<Param>) -> Seq<Seq<char>>
    decreases params.len(),
{
    if params.len() == 0 {
        Seq::empty()
    } else {
        match pattern_rebinding(params.last(), params.len() - 1) {
            Some(text) => pattern_rebindings(params.drop_last()).push(text),
            None => pattern_rebindings(params.drop_last()),
        }
    }
}

/// A parameter written with a pattern keeps its bindings: once a function is
/// prepared for the header, the statements that follow the header are
/// exactly one `let PATTERN = __mock_unignored_argument_{i}__;` for each
/// parameter written with a pattern (other than a plain name or `_`), in
/// the order of the parameters.
pub proof fn law_patterns_bound_again(old: Seq<Param>, new: Seq<Param>)
    requires
        params_prepared(old, new),
        forall|i: int| 0 <= i < old.len() ==> !(#[trigger] old[i] is Unignored),
    ensures
        destructurings(new) == pattern_rebindings(old),
    decreases old.len(),
{
    if old.len() > 0 {
        let n = old.len() - 1;
        assert(param_prepared(old[n], new[n], n));
        assert forall|i: int| 0 <= i < n implies #[trigger] param_prepared(
            old.drop_last()[i],
            new.drop_last()[i],
            i,
        ) by {
            assert(param_prepared(old[i], new[i], i));
        }
        assert forall|i: int| 0 <= i < n implies !(#[trigger] old.drop_last()[i] is Unignored) by {
            assert(!(old[i] is Unignored));
        }
        law_patterns_bound_again(old.drop_last(), new.drop_last());
        assert(new.last() == new[n]);
        assert(old.last() == old[n]);
        assert(destructuring(new[n]) == pattern_rebinding(old[n], n));
    }
}

// ---------------------------------------------------------------------------
// The header.

/// A binding as the source writes it: `mut name` or `name`.
pub open spec fn binding_source(binding: (Seq<char>, bool)) -> Seq<char> {
    if binding.1 {
        "mut "@ + binding.0
    } else {
        binding.0
    }
}

/// The bindings written one after the other, each followed by `, `, from
/// the first to the last.
pub open spec fn rebinding_pattern(bindings: Seq<(Seq<char>, bool)>) -> Seq<char>
    decreases bindings.len(),
{
    if bindings.len() == 0 {
        Seq::empty()
    } else {
        binding_source(bindings[0]) + ", "@ + rebinding_pattern(bindings.skip(1))
    }
}

proof fn lemma_rebinding_pattern_last(bindings: Seq<(Seq<char>, bool)>)
    requires
        bindings.len() > 0,
    ensures
        rebinding_pattern(bindings) == rebinding_pattern(bindings.drop_last()) + binding_source(bindings.last())
            + ", "@,
    decreases bindings.len(),
{
    if bindings.len() == 1 {
        assert(bindings.skip(1) =~= Seq::<(Seq<char>, bool)>::empty());
        assert(bindings.drop_last() =~= Seq::<(Seq<char>, bool)>::empty());
        assert(rebinding_pattern(bindings) =~= rebinding_pattern(bindings.drop_last()) + binding_source(
            bindings.last(),
        ) + ", "@);
    } else {
        let rest = bindings.skip(1);
        lemma_rebinding_pattern_last(rest);
        assert(rest.drop_last() =~= bindings.drop_last().skip(1));
        assert(rest.last() == bindings.last());
        assert(bindings.drop_last()[0] == bindings[0]);
        assert(rebinding_pattern(bindings) =~= rebinding_pattern(bindings.drop_last()) + binding_source(
            bindings.last(),
        ) + ", "@);
    }
}

proof fn lemma_pattern_text_is_rebinding(bindings: Seq<(Seq<char>, bool)>)
    ensures
        pattern_text(bindings) == rebinding_pattern(bindings),
    decreases bindings.len(),
{
    if bindings.len() > 0 {
        lemma_pattern_text_is_rebinding(bindings.drop_last());
        lemma_rebinding_pattern_last(bindings);
        if bindings.last().1 {
            assert(pattern_text(bindings) =~= rebinding_pattern(bindings));
        } else {
            assert(pattern_text(bindings) =~= rebinding_pattern(bindings));
        }
    }
}

/// What every header starts with: `let (`, then each parameter after the
/// receiver bound again as it was declared (`mut name, ` or `name, `), in
/// order, then `) = match `.
pub open spec fn header_start(bindings: Seq<(Seq<char>, bool)>) -> Seq<char> {
    "let ("@ + rebinding_pattern(bindings) + ") = match "@
}

/// The header binds every parameter after the receiver again with the name
/// and the mutability it was declared with, in order, whether or not the
/// function has a receiver: it starts with `header_start` of its bindings.
pub proof fn law_header_rebinds_as_declared(h: HeaderSpec)
    ensures
        header_text(h).len() >= header_start(h.args).len(),
        header_text(h).take(header_start(h.args).len() as int) == header_start(h.args),
{
    lemma_pattern_text_is_rebinding(h.args);
    reveal_strlit(") = match ::mocktopus::mocking::call_mock(&");
    reveal_strlit(") = match ");
    let start = header_start(h.args);
    let text = header_text(h);
    let front = "let ("@ + pattern_text(h.args) + ") = match ::mocktopus::mocking::call_mock(&"@;
    assert(front.take(start.len() as int) =~= start);
    assert(text.len() >= front.len());
    assert forall|i: int| 0 <= i < front.len() implies text[i] == front[i] by {}
    assert(text.take(start.len() as int) =~= start);
}

/// The names of the bindings, each followed by `, `, from the first to the
/// last: the arguments as the header passes them on.
pub open spec fn argument_list(bindings: Seq<(Seq<char>, bool)>) -> Seq<char>
    decreases bindings.len(),
{
    if bindings.len() == 0 {
        Seq::empty()
    } else {
        bindings[0].0 + ", "@ + argument_list(bindings.skip(1))
    }
}

proof fn lemma_argument_list_last(bindings: Seq<(Seq<char>, bool)>)
    requires
        bindings.len() > 0,
    ensures
        argument_list(bindings) == argument_list(bindings.drop_last()) + bindings.last().0 + ", "@,
    decreases bindings.len(),
{
    if bindings.len() == 1 {
        assert(bindings.skip(1) =~= Seq::<(Seq<char>, bool)>::empty());
        assert(bindings.drop_last() =~= Seq::<(Seq<char>, bool)>::empty());
        assert(argument_list(bindings) =~= argument_list(bindings.drop_last()) + bindings.last().0 + ", "@);
    } else {
        let rest = bindings.skip(1);
        lemma_argument_list_last(rest);
        assert(rest.drop_last() =~= bindings.drop_last().skip(1));
        assert(rest.last() == bindings.last());
        assert(bindings.drop_last()[0] == bindings[0]);
        assert(argument_list(bindings) =~= argument_list(bindings.drop_last()) + bindings.last().0 + ", "@);
    }
}

proof fn lemma_tuple_text_is_argument_list(bindings: Seq<(Seq<char>, bool)>)
    ensures
        tuple_text(bindings) == argument_list(bindings),
    decreases bindings.len(),
{
    if bindings.len() > 0 {
        lemma_tuple_text_is_argument_list(bindings.drop_last());
        lemma_argument_list_last(bindings);
        assert(tuple_text(bindings) =~= argument_list(bindings));
    }
}

/// The path by which the header names the mocked function: its name for a
/// free function, `Self::name` for a method of an inherent impl block or a
/// trait, `<Self as Trait>::name` for a method of a trait's impl block.
pub open spec fn mocked_path(h: HeaderSpec) -> Seq<char> {
    if !h.is_method {
        h.fn_name
    } else if h.trait_path is Some {
        "<Self as "@ + h.trait_path->Some_0 + ">::"@ + h.fn_name
    } else {
        "Self::"@ + h.fn_name
    }
}

/// The header hands the mocked function's path and its arguments, in the
/// order of the parameters (the receiver first, if there is one), to
/// `call_mock`; what a mock returns is returned, and otherwise the
/// parameters, the receiver too, are bound to the arguments the mock passed
/// on.
pub proof fn law_header_hands_arguments_to_registry(h: HeaderSpec)
    ensures
        h.receiver ==> header_text(h) == header_start(h.args) + "::mocktopus::mocking::call_mock(&"@ + mocked_path(h)
            + ", (self, "@ + argument_list(h.args)
            + ")) { ::mocktopus::mocking::MockResult::Continue((__mock_receiver, "@ + argument_list(h.args)
            + ")) => { self = __mock_receiver; ("@ + argument_list(h.args)
            + ") }, ::mocktopus::mocking::MockResult::Return(output) => return output, };"@,
        !h.receiver ==> header_text(h) == header_start(h.args) + "::mocktopus::mocking::call_mock(&"@ + mocked_path(h)
            + ", ("@ + argument_list(h.args)
            + ")) { ::mocktopus::mocking::MockResult::Continue(input) => input, ::mocktopus::mocking::MockResult::Return(output) => return output, };"@,
{
    lemma_pattern_text_is_rebinding(h.args);
    lemma_tuple_text_is_argument_list(h.args);
    reveal_strlit(") = match ::mocktopus::mocking::call_mock(&");
    reveal_strlit(") = match ");
    reveal_strlit("::mocktopus::mocking::call_mock(&");
    assert(") = match ::mocktopus::mocking::call_mock(&"@ =~= ") = match "@ + "::mocktopus::mocking::call_mock(&"@);
    if h.receiver {
        assert(header_text(h) =~= header_start(h.args) + "::mocktopus::mocking::call_mock(&"@ + mocked_path(h)
            + ", (self, "@ + argument_list(h.args)
            + ")) { ::mocktopus::mocking::MockResult::Continue((__mock_receiver, "@ + argument_list(h.args)
            + ")) => { self = __mock_receiver; ("@ + argument_list(h.args)
            + ") }, ::mocktopus::mocking::MockResult::Return(output) => return output, };"@);
    } else {
        assert(header_text(h) =~= header_start(h.args) + "::mocktopus::mocking::call_mock(&"@ + mocked_path(h)
            + ", ("@ + argument_list(h.args)
            + ")) { ::mocktopus::mocking::MockResult::Continue(input) => input, ::mocktopus::mocking::MockResult::Return(output) => return output, };"@);
    }
}

// ---------------------------------------------------------------------------
// Functions, methods and the items that hold them.

/// The binding under which the header passes on the parameter `p`, written
/// at position `i`: its own name and mutability, `self` for a receiver, the
/// generated immutable name `__mock_unignored_argument_{i}__` for `_`, a type
/// alone or a pattern.
pub open spec fn declared_binding(p: Param, i: int) -> (Seq<char>, bool) {
    match p {
        Param::Receiver { mutable, .. } => ("self"@, mutable),
        Param::Named { name, mutable, .. } => (name@, mutable),
        Param::Unignored { name, .. } => (name@, false),
        _ => (unignored_arg_name(i as nat), false),
    }
}

/// The bindings of the parameters after the receiver (if the first one is
/// a receiver), in order.
pub open spec fn declared_bindings(params: Seq<Param>) -> Seq<(Seq<char>, bool)> {
    let start: int = if params.len() > 0 && is_receiver_param(params[0]) {
        1
    } else {
        0
    };
    Seq::new((params.len() - start) as nat, |j: int| declared_binding(params[j + start], j + start))
}

proof fn lemma_prepared_bindings(old: Seq<Param>, new: Seq<Param>)
    requires
        params_prepared(old, new),
        forall|i: int| 0 <= i < old.len() ==> !(#[trigger] old[i] is Unignored),
    ensures
        has_receiver(new) == (old.len() > 0 && is_receiver_param(old[0])),
        bindings(new) == declared_bindings(old),
{
    if old.len() > 0 {
        assert(param_prepared(old[0], new[0], 0));
        assert(!(old[0] is Unignored));
        if is_receiver_param(old[0]) {
            assert(new[0] == receiver_made_mutable(old[0]));
        } else {
            assert(param_unignored(old[0], new[0], 0));
        }
    }
    let named = named_inputs(new);
    let start: int = if has_receiver(new) {
        1
    } else {
        0
    };
    assert forall|j: int| 0 <= j < named.len() implies #[trigger] bindings(new)[j] == declared_bindings(
        old,
    )[j] by {
        let i = j + start;
        assert(named[j] == new[i]);
        assert(param_prepared(old[i], new[i], i));
        assert(!(old[i] is Unignored));
        if i != 0 {
            assert(param_unignored(old[i], new[i], i));
        } else {
            assert(param_unignored(old[i], new[i], i));
        }
    }
    assert(bindings(new) =~= declared_bindings(old));
}

/// The name a parameter is bound to in the source, and whether it is bound
/// `mut`; `None` for `_`, a type alone or a pattern.
pub open spec fn bound_name(p: Param) -> Option<(Seq<char>, bool)> {
    match p {
        Param::Receiver { mutable, .. } => Some(("self"@, mutable)),
        Param::Named { name, mutable, .. } => Some((name@, mutable)),
        Param::Unignored { name, .. } => Some((name@, false)),
        _ => None,
    }
}

/// The type written for a parameter; `None` for a receiver written with
/// `self` alone.
pub open spec fn param_ty(p: Param) -> Option<syn::Ty> {
    match p {
        Param::Receiver { .. } => None,
        Param::Named { ty, .. } => Some(ty),
        Param::Wild { ty } => Some(ty),
        Param::Anonymous { ty } => Some(ty),
        Param::Pattern { ty, .. } => Some(ty),
        Param::Unignored { ty, .. } => Some(ty),
    }
}

/// `new` is the receiver `old` as it was written, bound `mut`.
pub open spec fn receiver_bound_mut(old: Param, new: Param) -> bool {
    match old {
        Param::Receiver { by_ref, ref_mutable, lifetime, .. } => new matches Param::Receiver {
            by_ref: b,
            ref_mutable: r,
            lifetime: l,
            mutable,
        } && b == by_ref && r == ref_mutable && l == lifetime && mutable,
        Param::Named { name, ty, .. } => new matches Param::Named { name: n, mutable, ty: t } && n == name && t
            == ty && mutable,
        _ => false,
    }
}

/// A function other than a `const` one keeps its name, its parameters'
/// order and its body, and gets in front of the body first the header,
/// which starts by binding the parameters after the receiver again with the
/// names and mutability they were declared with (see `declared_binding`),
/// then one `let` per parameter written with a pattern, in order of the
/// parameters, with or without a receiver (the whole header is the one for
/// the function's name and those bindings, see
/// `law_header_hands_arguments_to_registry`). Its receiver is bound `mut` and
/// otherwise kept as written; every other parameter keeps its type and is
/// bound to the name and mutability it was declared with, or, if it had no
/// name, to its generated name. A `const` function is left as it was.
pub proof fn law_function_prologue(is_method: bool, trait_path: Option<Seq<char>>, old: FnParts, new: FnParts)
    requires
        fn_injected(is_method, trait_path, old, new),
        forall|i: int| 0 <= i < old.inputs@.len() ==> !(#[trigger] old.inputs@[i] is Unignored),
    ensures
        new.name == old.name,
        new.is_const == old.is_const,
        new.inputs@.len() == old.inputs@.len(),
        old.is_const ==> new.inputs@ == old.inputs@ && new.body@ == old.body@,
        !old.is_const && old.inputs@.len() > 0 && is_receiver_param(old.inputs@[0]) ==> receiver_bound_mut(
            old.inputs@[0],
            new.inputs@[0],
        ),
        !old.is_const ==> forall|i: int|
            0 <= i < old.inputs@.len() && !(i == 0 && is_receiver_param(old.inputs@[0])) ==> bound_name(
                #[trigger] new.inputs@[i],
            ) == Some(declared_binding(old.inputs@[i], i)) && param_ty(new.inputs@[i]) == param_ty(old.inputs@[i]),
        !old.is_const ==> new.body@.len() == 1 + pattern_rebindings(old.inputs@).len() + old.body@.len(),
        !old.is_const ==> stmt_source(new.body@[0]) == Some(
            header_text(
                HeaderSpec {
                    fn_name: old.name@,
                    is_method,
                    trait_path,
                    receiver: old.inputs@.len() > 0 && is_receiver_param(old.inputs@[0]),
                    args: declared_bindings(old.inputs@),
                },
            ),
        ),
        !old.is_const ==> (new.body@[0] matches BodyStmt::Injected(header) && header@.len() >= header_start(
            declared_bindings(old.inputs@),
        ).len() && header@.take(header_start(declared_bindings(old.inputs@)).len() as int) == header_start(
            declared_bindings(old.inputs@),
        )),
        !old.is_const ==> forall|k: int|
            0 <= k < pattern_rebindings(old.inputs@).len() ==> #[trigger] stmt_source(new.body@[1 + k]) == Some(
                pattern_rebindings(old.inputs@)[k],
            ),
        !old.is_const ==> new.body@.skip(1 + pattern_rebindings(old.inputs@).len() as int) == old.body@,
{
    if !old.is_const {
        let olds = old.inputs@;
        let news = new.inputs@;
        law_patterns_bound_again(olds, news);
        lemma_prepared_bindings(olds, news);
        if olds.len() > 0 && is_receiver_param(olds[0]) {
            assert(param_prepared(olds[0], news[0], 0));
        }
        assert forall|i: int|
            0 <= i < olds.len() && !(i == 0 && is_receiver_param(olds[0])) implies bound_name(
            #[trigger] news[i],
        ) == Some(declared_binding(olds[i], i)) && param_ty(news[i]) == param_ty(olds[i]) by {
            assert(param_prepared(olds[i], news[i], i));
            assert(!(olds[i] is Unignored));
            assert(param_unignored(olds[i], news[i], i));
        }
        let h = HeaderSpec {
            fn_name: old.name@,
            is_method,
            trait_path,
            receiver: has_receiver(news),
            args: bindings(news),
        };
        law_header_rebinds_as_declared(h);
        let prologue = fn_prologue(is_method, trait_path, old.name@, news);
        assert(prologue[0] == header_text(h));
        assert(stmt_source(new.body@[0]) == Some(prologue[0]));
        assert forall|k: int| 0 <= k < pattern_rebindings(olds).len() implies #[trigger] stmt_source(
            new.body@[1 + k],
        ) == Some(pattern_rebindings(olds)[k]) by {
            assert(stmt_source(new.body@[1 + k]) == Some(prologue[1 + k]));
            assert(prologue[1 + k] == destructurings(news)[k]);
        }
    }
}

/// Every method of an impl block is injected as a method of that block: a
/// `const` method comes out exactly as it was, any other is injected (see
/// `law_function_prologue`), and items that are not methods stay as they
/// were; no position is skipped.
pub proof fn law_impl_methods_injected(trait_path: Option<Seq<char>>, old: Seq<ImplMember>, new: Seq<ImplMember>)
    requires
        members_injected(trait_path, old, new),
    ensures
        new.len() == old.len(),
        forall|i: int|
            0 <= i < old.len() ==> (#[trigger] new[i]).shell == old[i].shell && (old[i].method is None
                ==> new[i].method is None) && (old[i].method matches Some(o) ==> new[i].method matches Some(
                n,
            ) && fn_injected(true, trait_path, o, n) && (o.is_const ==> n.is_const && n.inputs@
                == o.inputs@ && n.body@ == o.body@)),
{
    assert forall|i: int| 0 <= i < old.len() implies (#[trigger] new[i]).shell == old[i].shell && (
    old[i].method is None ==> new[i].method is None) && (old[i].method matches Some(o) ==> new[i].method matches Some(
        n,
    ) && fn_injected(true, trait_path, o, n) && (o.is_const ==> n.is_const && n.inputs@ == o.inputs@
        && n.body@ == o.body@)) by {
        assert(member_injected(trait_path, old[i], new[i]));
    }
}

/// Every method of a trait that has a default body is injected as a method
/// (see `law_function_prologue`), wherever it stands among the trait's
/// items: a `const` one comes out exactly as it was, and items without a
/// default body stay as they were.
pub proof fn law_trait_default_methods_injected(old: Seq<TraitMember>, new: Seq<TraitMember>)
    requires
        trait_members_injected(old, new),
    ensures
        new.len() == old.len(),
        forall|i: int|
            0 <= i < old.len() ==> (#[trigger] new[i]).shell == old[i].shell && (old[i].method is None
                ==> new[i].method is None) && (old[i].method matches Some(o) ==> new[i].method matches Some(
                n,
            ) && fn_injected(true, None, o, n) && (o.is_const ==> n.is_const && n.inputs@ == o.inputs@
                && n.body@ == o.body@)),
{
    assert forall|i: int| 0 <= i < old.len() implies (#[trigger] new[i]).shell == old[i].shell && (
    old[i].method is None ==> new[i].method is None) && (old[i].method matches Some(o) ==> new[i].method matches Some(
        n,
    ) && fn_injected(true, None, o, n) && (o.is_const ==> n.is_const && n.inputs@ == o.inputs@
        && n.body@ == o.body@)) by {
        assert(trait_member_injected(old[i], new[i]));
    }
}

/// Every item of a module is injected exactly as the same item would be at
/// the top level, whatever its kind, at the same position.
pub proof fn law_module_items_injected(old: Seq<ParsedItem>, new: Seq<ParsedItem>)
    requires
        items_injected(old, new),
    ensures
        new.len() == old.len(),
        forall|j: int| 0 <= j < old.len() ==> #[trigger] item_injected(old[j], new[j]),
    decreases old.len(),
{
    if old.len() > 0 {
        law_module_items_injected(old.drop_last(), new.drop_last());
        assert forall|j: int| 0 <= j < old.len() implies #[trigger] item_injected(old[j], new[j]) by {
            if j < old.len() - 1 {
                assert(old.drop_last()[j] == old[j]);
                assert(new.drop_last()[j] == new[j]);
            }
        }
    }
}

/// An injected module with a body has every one of its items injected, at
/// the same position (see `law_module_items_injected`); a module without a
/// body stays without one.
pub proof fn law_module_injected(old: ParsedItem, new: ParsedItem)
    requires
        item_injected(old, new),
        old.kind is Mod,
    ensures
        new.shell == old.shell,
        old.kind matches ItemKind::Mod(None) ==> new.kind matches ItemKind::Mod(None),
        old.kind matches ItemKind::Mod(Some(olds)) ==> new.kind matches ItemKind::Mod(Some(news)) && news@.len()
            == olds@.len() && forall|j: int| 0 <= j < olds@.len() ==> #[trigger] item_injected(olds@[j], news@[j]),
{
    match old.kind {
        ItemKind::Mod(Some(olds)) => {
            match new.kind {
                ItemKind::Mod(Some(news)) => law_module_items_injected(olds@, news@),
                _ => {},
            }
        },
        _ => {},
    }
}

/// An item keeps everything but the parts the injector rewrites: a free
/// function is injected as a function named by its own name, the methods of
/// an impl block as methods of that block (named through the trait it
/// implements, if any), the default methods of a trait as methods named
/// through `Self`, and any other item stays as it was.
pub proof fn law_item_injected_by_kind(old: ParsedItem, new: ParsedItem)
    requires
        item_injected(old, new),
    ensures
        new.shell == old.shell,
        old.kind matches ItemKind::Fn(o) ==> (new.kind matches ItemKind::Fn(n) && fn_injected(false, None, o, n)),
        old.kind matches ItemKind::Impl { trait_path, items } ==> (new.kind matches ItemKind::Impl {
            trait_path: new_path,
            items: new_items,
        } && new_path == trait_path && members_injected(path_view(trait_path), items@, new_items@)),
        old.kind matches ItemKind::Trait { members } ==> (new.kind matches ItemKind::Trait { members: new_members }
            && trait_members_injected(members@, new_members@)),
        old.kind is Other ==> new.kind is Other,
{
}

/// Reading a module reads every one of its items, at the same position, as
/// the same item would be read alone.
pub proof fn law_module_items_read(items: Seq<syn::Item>, models: Seq<ParsedItem>, depth: nat)
    requires
        items_read(items, models, depth),
    ensures
        models.len() == items.len(),
        forall|j: int| 0 <= j < items.len() ==> #[trigger] item_read(items[j], models[j], depth),
    decreases models.len(),
{
    if models.len() > 0 {
        law_module_items_read(items.drop_last(), models.drop_last(), depth);
        assert forall|j: int| 0 <= j < items.len() implies #[trigger] item_read(items[j], models[j], depth) by {
            if j < items.len() - 1 {
                assert(items.drop_last()[j] == items[j]);
                assert(models.drop_last()[j] == models[j]);
            }
        }
    }
}

/// Writing a module back writes every one of its items, at the same
/// position, as the same item would be written alone.
pub proof fn law_module_items_written(models: Seq<ParsedItem>)
    ensures
        written_items(models).len() == models.len(),
        forall|j: int| 0 <= j < models.len() ==> #[trigger] written_items(models)[j] == written_item(models[j]),
    decreases models.len(),
{
    if models.len() > 0 {
        law_module_items_written(models.drop_last());
        assert forall|j: int| 0 <= j < models.len() implies #[trigger] written_items(models)[j] == written_item(
            models[j],
        ) by {
            if j < models.len() - 1 {
                assert(models.drop_last()[j] == models[j]);
            }
        }
    }
}

} // verus!
