use crate::injector::model::{arg_binding, is_receiver_param, Param};
use vstd::prelude::*;

verus! {

/// The digit `d` (below ten) as a character.
pub open spec fn digit_char(d: nat) -> char {
    if d == 0 {
        '0'
    } else if d == 1 {
        '1'
    } else if d == 2 {
        '2'
    } else if d == 3 {
        '3'
    } else if d == 4 {
        '4'
    } else if d == 5 {
        '5'
    } else if d == 6 {
        '6'
    } else if d == 7 {
        '7'
    } else if d == 8 {
        '8'
    } else {
        '9'
    }
}

/// `n` written in decimal, without leading zeros.
pub open spec fn decimal(n: nat) -> Seq<char>
    decreases n,
{
    if n < 10 {
        seq![digit_char(n)]
    } else {
        decimal(n / 10) + seq![digit_char(n % 10)]
    }
}

fn digit_str(d: usize) -> (s: &'static str)
    requires
        d < 10,
    ensures
        s@ == seq![digit_char(d as nat)],
{
    if d == 0 {
        proof { reveal_strlit("0"); }
        "0"
    } else if d == 1 {
        proof { reveal_strlit("1"); }
        "1"
    } else if d == 2 {
        proof { reveal_strlit("2"); }
        "2"
    } else if d == 3 {
        proof { reveal_strlit("3"); }
        "3"
    } else if d == 4 {
        proof { reveal_strlit("4"); }
        "4"
    } else if d == 5 {
        proof { reveal_strlit("5"); }
        "5"
    } else if d == 6 {
        proof { reveal_strlit("6"); }
        "6"
    } else if d == 7 {
        proof { reveal_strlit("7"); }
        "7"
    } else if d == 8 {
        proof { reveal_strlit("8"); }
        "8"
    } else {
        proof { reveal_strlit("9"); }
        "9"
    }
}

/// `n` written in decimal.
pub fn decimal_string(n: usize) -> (s: String)
    ensures
        s@ == decimal(n as nat),
    decreases n,
{
    if n < 10 {
        String::from_str(digit_str(n))
    } else {
        let mut s = decimal_string(n / 10);
        s.append(digit_str(n % 10));
        s
    }
}

/// The name given to the ignored parameter at position `i`.
pub open spec fn unignored_arg_name(i: nat) -> Seq<char> {
    "__mock_unignored_argument_"@ + decimal(i) + "__"@
}

/// The name given to the ignored parameter at position `i`.
pub fn unignored_arg_name_string(i: usize) -> (s: String)
    ensures
        s@ == unignored_arg_name(i as nat),
{
    let mut s = String::from_str("__mock_unignored_argument_");
    let digits = decimal_string(i);
    s.append(digits.as_str());
    s.append("__");
    s
}

/// What a header is built from: the function's name, whether it is a
/// method, the trait its impl block implements, whether it has a receiver
/// (`self`, `&self`, ...), and the bindings of its other parameters.
pub struct HeaderSpec {
    pub fn_name: Seq<char>,
    pub is_method: bool,
    pub trait_path: Option<Seq<char>>,
    pub receiver: bool,
    pub args: Seq<(Seq<char>, bool)>,
}

/// Whether the parameters start with a receiver.
pub open spec fn has_receiver(inputs: Seq<Param>) -> bool {
    inputs.len() > 0 && is_receiver_param(inputs[0])
}

/// The parameters after the receiver, if there is one.
pub open spec fn named_inputs(inputs: Seq<Param>) -> Seq<Param> {
    if has_receiver(inputs) {
        inputs.skip(1)
    } else {
        inputs
    }
}

/// The bindings of the parameters after the receiver.
pub open spec fn bindings(inputs: Seq<Param>) -> Seq<(Seq<char>, bool)> {
    named_inputs(inputs).map_values(|a: Param| arg_binding(a))
}

/// The path by which the header names the function itself.
pub open spec fn callee_text(h: HeaderSpec) -> Seq<char> {
    if !h.is_method {
        h.fn_name
    } else {
        match h.trait_path {
            Some(p) => "<Self as "@ + p + ">::"@ + h.fn_name,
            None => "Self::"@ + h.fn_name,
        }
    }
}

/// The pattern that rebinds the parameters: each name, `mut` where the
/// parameter was, followed by a comma.
pub open spec fn pattern_text(args: Seq<(Seq<char>, bool)>) -> Seq<char>
    decreases args.len(),
{
    if args.len() == 0 {
        Seq::empty()
    } else if args.last().1 {
        pattern_text(args.drop_last()) + "mut "@ + args.last().0 + ", "@
    } else {
        pattern_text(args.drop_last()) + args.last().0 + ", "@
    }
}

/// The tuple of the arguments: each name followed by a comma.
pub open spec fn tuple_text(args: Seq<(Seq<char>, bool)>) -> Seq<char>
    decreases args.len(),
{
    if args.len() == 0 {
        Seq::empty()
    } else {
        tuple_text(args.drop_last()) + args.last().0 + ", "@
    }
}

/// The header statement: it hands the arguments (the receiver first, if
/// there is one) to the mock registry and either returns what a mock
/// returned or rebinds the parameters, the receiver too, to the arguments
/// the mock passed on.
pub open spec fn header_text(h: HeaderSpec) -> Seq<char> {
    if h.receiver {
        "let ("@ + pattern_text(h.args) + ") = match ::mocktopus::mocking::call_mock(&"@
            + callee_text(h) + ", (self, "@ + tuple_text(h.args)
            + ")) { ::mocktopus::mocking::MockResult::Continue((__mock_receiver, "@
            + tuple_text(h.args) + ")) => { self = __mock_receiver; ("@ + tuple_text(h.args)
            + ") }, ::mocktopus::mocking::MockResult::Return(output) => return output, };"@
    } else {
        "let ("@ + pattern_text(h.args) + ") = match ::mocktopus::mocking::call_mock(&"@
            + callee_text(h) + ", ("@ + tuple_text(h.args)
            + ")) { ::mocktopus::mocking::MockResult::Continue(input) => input, ::mocktopus::mocking::MockResult::Return(output) => return output, };"@
    }
}

/// A parameter's plain binding, as the header uses it.
pub struct HeaderArg {
    pub name: String,
    pub mutable: bool,
}

/// The bindings that a builder holds, as the header spec reads them.
pub open spec fn header_args_view(args: Seq<HeaderArg>) -> Seq<(Seq<char>, bool)> {
    args.map_values(|a: HeaderArg| (a.name@, a.mutable))
}

/// Collects what the header of one function is built from.
pub struct HeaderBuilder {
    fn_name: String,
    is_method: bool,
    trait_path: Option<String>,
    receiver: bool,
    args: Vec<HeaderArg>,
}

impl View for HeaderBuilder {
    type V = HeaderSpec;

    closed spec fn view(&self) -> HeaderSpec {
        HeaderSpec {
            fn_name: self.fn_name@,
            is_method: self.is_method,
            trait_path: match self.trait_path {
                Some(p) => Some(p@),
                None => None,
            },
            receiver: self.receiver,
            args: header_args_view(self.args@),
        }
    }
}

impl Default for HeaderBuilder {
    /// A builder for a free function with no name and no parameters.
    fn default() -> (b: Self)
        ensures
            b@.fn_name == Seq::<char>::empty(),
            !b@.is_method,
            b@.trait_path is None,
            !b@.receiver,
            b@.args == Seq::<(Seq<char>, bool)>::empty(),
    {
        let b = HeaderBuilder {
            fn_name: String::new(),
            is_method: false,
            trait_path: None,
            receiver: false,
            args: Vec::new(),
        };
        assert(header_args_view(b.args@) =~= Seq::<(Seq<char>, bool)>::empty());
        b
    }
}

impl HeaderBuilder {
    /// Marks the function as a method of an impl block.
    pub fn set_is_method(self) -> (b: Self)
        ensures
            b@ == (HeaderSpec { is_method: true, ..self@ }),
    {
        HeaderBuilder { is_method: true, ..self }
    }

    /// Records the path of the trait that the method's impl block implements.
    pub fn set_trait_path(self, path: Option<String>) -> (b: Self)
        ensures
            b@ == (HeaderSpec {
                trait_path: match path {
                    Some(p) => Some(p@),
                    None => None,
                },
                ..self@
            }),
    {
        HeaderBuilder { trait_path: path, ..self }
    }

    /// Records the function's name.
    pub fn set_fn_name(self, name: &String) -> (b: Self)
        ensures
            b@ == (HeaderSpec { fn_name: name@, ..self@ }),
    {
        HeaderBuilder { fn_name: name.clone(), ..self }
    }

    /// Records the function's parameters.
    pub fn set_input_args(self, inputs: &Vec<Param>) -> (b: Self)
        ensures
            b@ == (HeaderSpec { receiver: has_receiver(inputs@), args: bindings(inputs@), ..self@ }),
    {
        let n = inputs.len();
        let receiver = n > 0 && inputs[0].is_receiver();
        let start: usize = if receiver { 1 } else { 0 };
        let ghost named = named_inputs(inputs@);
        proof {
            assert(named =~= inputs@.subrange(start as int, n as int));
        }
        let mut args: Vec<HeaderArg> = Vec::new();
        let mut i: usize = start;
        while i < n
            invariant
                n == inputs@.len(),
                start <= i <= n,
                named =~= inputs@.subrange(start as int, n as int),
                header_args_view(args@) =~= named.take(i - start).map_values(|a: Param| arg_binding(a)),
            decreases n - i,
        {
            let ghost k = (i - start) as int;
            let ghost old_args = args@;
            args.push(binding_of(&inputs[i]));
            proof {
                assert(named.take(k + 1).drop_last() =~= named.take(k));
                assert(named.take(k + 1)[k] == inputs@[i as int]);
                assert(header_args_view(args@) =~= header_args_view(old_args).push(arg_binding(inputs@[i as int])));
                assert(named.take(k + 1).map_values(|a: Param| arg_binding(a)) =~= named.take(k).map_values(
                    |a: Param| arg_binding(a),
                ).push(arg_binding(inputs@[i as int])));
            }
            i = i + 1;
        }
        proof {
            assert(named.take(n - start) =~= named);
        }
        HeaderBuilder { receiver, args, ..self }
    }
}

/// The binding of a parameter, as the header uses it.
fn binding_of(param: &Param) -> (r: HeaderArg)
    ensures
        (r.name@, r.mutable) == arg_binding(*param),
{
    match param {
        Param::Receiver { mutable, .. } => {
            proof {
                reveal_strlit("self");
            }
            HeaderArg { name: String::from_str("self"), mutable: *mutable }
        },
        Param::Named { name, mutable, .. } => HeaderArg { name: name.clone(), mutable: *mutable },
        Param::Unignored { name, .. } => HeaderArg { name: name.clone(), mutable: false },
        _ => {
            proof {
                reveal_strlit("_");
            }
            HeaderArg { name: String::from_str("_"), mutable: false }
        },
    }
}

fn pattern_string(args: &Vec<HeaderArg>) -> (s: String)
    ensures
        s@ == pattern_text(header_args_view(args@)),
{
    let mut s = String::new();
    let n = args.len();
    let mut i: usize = 0;
    while i < n
        invariant
            n == args@.len(),
            i <= n,
            s@ == pattern_text(header_args_view(args@.take(i as int))),
        decreases n - i,
    {
        proof {
            assert(header_args_view(args@.take(i as int + 1)).drop_last() =~= header_args_view(
                args@.take(i as int),
            ));
        }
        if args[i].mutable {
            s.append("mut ");
        }
        s.append(args[i].name.as_str());
        s.append(", ");
        i = i + 1;
    }
    proof {
        assert(args@.take(n as int) =~= args@);
    }
    s
}

fn tuple_string(args: &Vec<HeaderArg>) -> (s: String)
    ensures
        s@ == tuple_text(header_args_view(args@)),
{
    let mut s = String::new();
    let n = args.len();
    let mut i: usize = 0;
    while i < n
        invariant
            n == args@.len(),
            i <= n,
            s@ == tuple_text(header_args_view(args@.take(i as int))),
        decreases n - i,
    {
        proof {
            assert(header_args_view(args@.take(i as int + 1)).drop_last() =~= header_args_view(
                args@.take(i as int),
            ));
        }
        s.append(args[i].name.as_str());
        s.append(", ");
        i = i + 1;
    }
    proof {
        assert(args@.take(n as int) =~= args@);
    }
    s
}

impl HeaderBuilder {
    fn callee_string(&self) -> (s: String)
        ensures
            s@ == callee_text(self@),
    {
        if !self.is_method {
            self.fn_name.clone()
        } else {
            match &self.trait_path {
                Some(p) => {
                    let mut s = String::from_str("<Self as ");
                    s.append(p.as_str());
                    s.append(">::");
                    s.append(self.fn_name.as_str());
                    s
                },
                None => {
                    let mut s = String::from_str("Self::");
                    s.append(self.fn_name.as_str());
                    s
                },
            }
        }
    }

    /// The header statement, as Rust source.
    pub fn build(&self) -> (r: String)
        ensures
            r@ == header_text(self@),
    {
        let mut s = String::from_str("let (");
        let pattern = pattern_string(&self.args);
        s.append(pattern.as_str());
        s.append(") = match ::mocktopus::mocking::call_mock(&");
        let callee = self.callee_string();
        s.append(callee.as_str());
        let tuple = tuple_string(&self.args);
        if self.receiver {
            s.append(", (self, ");
            s.append(tuple.as_str());
            s.append(")) { ::mocktopus::mocking::MockResult::Continue((__mock_receiver, ");
            s.append(tuple.as_str());
            s.append(")) => { self = __mock_receiver; (");
            s.append(tuple.as_str());
            s.append(
                ") }, ::mocktopus::mocking::MockResult::Return(output) => return output, };",
            );
        } else {
            s.append(", (");
            s.append(tuple.as_str());
            s.append(
                ")) { ::mocktopus::mocking::MockResult::Continue(input) => input, ::mocktopus::mocking::MockResult::Return(output) => return output, };",
            );
        }
        s
    }
}

} // verus!
