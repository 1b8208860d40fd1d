use mocktopus::injector::header::{decimal_string, unignored_arg_name_string, HeaderBuilder};
use mocktopus::injector::inject::{inject_fn, make_receiver_mutable, unignore_fn_args};
use mocktopus::injector::inject_mocks;
use mocktopus::injector::model::{BodyStmt, Param};

fn compact(s: &str) -> String {
    s.split_whitespace().collect()
}

fn ty(text: &str) -> syn::Ty {
    syn::parse_type(text).unwrap()
}

fn wild(text: &str) -> Param {
    Param::Wild { ty: ty(text) }
}

fn named(name: &str, mutable: bool) -> Param {
    Param::Named { name: name.to_string(), mutable, ty: ty("u8") }
}

fn receiver(by_ref: bool, ref_mutable: bool, mutable: bool) -> Param {
    Param::Receiver { by_ref, ref_mutable, lifetime: None, mutable }
}

const CONTINUE_OR_RETURN: &str = ")) { ::mocktopus::mocking::MockResult::Continue(input) => input, ::mocktopus::mocking::MockResult::Return(output) => return output, };";

#[test]
fn decimal_names() {
    assert_eq!("0", decimal_string(0));
    assert_eq!("7", decimal_string(7));
    assert_eq!("10", decimal_string(10));
    assert_eq!("1234", decimal_string(1234));
    assert_eq!("__mock_unignored_argument_0__", unignored_arg_name_string(0));
    assert_eq!("__mock_unignored_argument_12__", unignored_arg_name_string(12));
}

#[test]
fn ignored_params_are_named_by_position() {
    let mut inputs = vec![wild("u8"), named("b", false), wild("String")];
    unignore_fn_args(&mut inputs);
    let names: Vec<String> = inputs
        .iter()
        .map(|p| match p {
            Param::Unignored { name, .. } => name.clone(),
            Param::Named { name, .. } => format!("named {}", name),
            _ => "other".to_string(),
        })
        .collect();
    assert_eq!(
        vec!["__mock_unignored_argument_0__", "named b", "__mock_unignored_argument_2__"],
        names
    );
}

#[test]
fn header_of_free_function_without_params() {
    let header = HeaderBuilder::default().set_fn_name(&"f".to_string()).build();
    assert_eq!(format!("let () = match ::mocktopus::mocking::call_mock(&f, ({}", CONTINUE_OR_RETURN), header);
}

#[test]
fn header_of_method_rebinds_params() {
    let inputs = vec![named("a", true), Param::Unignored { name: "b".to_string(), ty: ty("u8"), pattern: None }];
    let header = HeaderBuilder::default()
        .set_is_method()
        .set_fn_name(&"g".to_string())
        .set_input_args(&inputs)
        .build();
    assert_eq!(format!("let (mut a, b, ) = match ::mocktopus::mocking::call_mock(&Self::g, (a, b, {}", CONTINUE_OR_RETURN), header);
    let header = HeaderBuilder::default()
        .set_is_method()
        .set_trait_path(Some("Tr".to_string()))
        .set_fn_name(&"g".to_string())
        .set_input_args(&inputs)
        .build();
    assert_eq!(
        format!("let (mut a, b, ) = match ::mocktopus::mocking::call_mock(&<Self as Tr>::g, (a, b, {}", CONTINUE_OR_RETURN),
        header
    );
}

const REBIND_RECEIVER: &str = ")) { ::mocktopus::mocking::MockResult::Continue((__mock_receiver, a, )) => { self = __mock_receiver; (a, ) }, ::mocktopus::mocking::MockResult::Return(output) => return output, };";

#[test]
fn header_of_method_with_receiver_rebinds_it() {
    let inputs = vec![receiver(false, false, true), named("a", false)];
    let header = HeaderBuilder::default().set_is_method().set_fn_name(&"g".to_string()).set_input_args(&inputs).build();
    assert_eq!(format!("let (a, ) = match ::mocktopus::mocking::call_mock(&Self::g, (self, a, {}", REBIND_RECEIVER), header);
}

#[test]
fn header_of_method_with_typed_receiver_rebinds_it() {
    let inputs = vec![
        Param::Named { name: "self".to_string(), mutable: true, ty: ty("Box<Self>") },
        named("a", false),
    ];
    let header = HeaderBuilder::default().set_is_method().set_fn_name(&"g".to_string()).set_input_args(&inputs).build();
    assert_eq!(format!("let (a, ) = match ::mocktopus::mocking::call_mock(&Self::g, (self, a, {}", REBIND_RECEIVER), header);
}

#[test]
fn receiver_is_made_mutable_when_header_is_added() {
    let mut inputs = vec![receiver(true, false, false), wild("u8")];
    let mut body: Vec<BodyStmt> = Vec::new();
    inject_fn(HeaderBuilder::default().set_is_method(), &"m".to_string(), &mut inputs, false, &mut body);
    assert!(matches!(inputs[0], Param::Receiver { by_ref: true, ref_mutable: false, lifetime: None, mutable: true }));
    assert!(matches!(inputs[1], Param::Unignored { pattern: None, .. }));
    assert_eq!(1, body.len());
}

#[test]
fn receivers_are_made_mutable() {
    let lifetime = Some("'a".to_string());
    let by_ref = Param::Receiver { by_ref: true, ref_mutable: true, lifetime: lifetime.clone(), mutable: false };
    match make_receiver_mutable(by_ref) {
        Param::Receiver { by_ref, ref_mutable, lifetime: l, mutable } => {
            assert!(by_ref && ref_mutable && mutable);
            assert_eq!(lifetime, l);
        },
        _ => panic!("not a receiver"),
    }
    let typed = Param::Named { name: "self".to_string(), mutable: false, ty: ty("Box<Self>") };
    assert!(matches!(make_receiver_mutable(typed), Param::Named { mutable: true, .. }));
    assert!(matches!(make_receiver_mutable(named("a", false)), Param::Named { mutable: false, .. }));
    assert!(receiver(false, false, false).is_receiver());
    assert!(Param::Named { name: "self".to_string(), mutable: false, ty: ty("Rc<Self>") }.is_receiver());
    assert!(!named("a", false).is_receiver());
}

#[test]
fn patterns_are_named_and_bound_in_the_body() {
    let pat = syn::parse_item("fn f((a, b): (u8, u8)) {}").unwrap();
    let pattern = match pat.node {
        syn::ItemKind::Fn(decl, ..) => match decl.inputs.into_iter().next() {
            Some(syn::FnArg::Captured(pat, _)) => pat,
            _ => panic!("no pattern"),
        },
        _ => panic!("no function"),
    };
    let mut inputs = vec![
        named("x", false),
        Param::Pattern { pat: pattern, ty: ty("(u8, u8)") },
        Param::Anonymous { ty: ty("u16") },
    ];
    let mut body: Vec<BodyStmt> = Vec::new();
    inject_fn(HeaderBuilder::default(), &"f".to_string(), &mut inputs, false, &mut body);
    assert!(matches!(&inputs[1], Param::Unignored { name, pattern: Some(_), .. } if name == "__mock_unignored_argument_1__"));
    assert!(matches!(&inputs[2], Param::Unignored { name, pattern: None, .. } if name == "__mock_unignored_argument_2__"));
    assert_eq!(2, body.len());
    match &body[0] {
        BodyStmt::Injected(text) => assert_eq!(
            format!(
                "let (x, __mock_unignored_argument_1__, __mock_unignored_argument_2__, ) = match ::mocktopus::mocking::call_mock(&f, (x, __mock_unignored_argument_1__, __mock_unignored_argument_2__, {}",
                CONTINUE_OR_RETURN
            ),
            *text
        ),
        BodyStmt::Plain(_) => panic!("no header"),
    }
    match &body[1] {
        BodyStmt::Injected(text) => assert_eq!("let(a,b)=__mock_unignored_argument_1__;", compact(text)),
        BodyStmt::Plain(_) => panic!("no destructuring"),
    }
}

#[test]
fn const_function_is_left_alone() {
    let mut inputs = vec![wild("u8")];
    let mut body: Vec<BodyStmt> = Vec::new();
    inject_fn(HeaderBuilder::default(), &"c".to_string(), &mut inputs, true, &mut body);
    assert!(matches!(inputs[0], Param::Wild { .. }));
    assert!(body.is_empty());
}

#[test]
fn function_gets_header_in_front_of_body() {
    let mut inputs = vec![wild("u8")];
    let mut body: Vec<BodyStmt> = Vec::new();
    inject_fn(HeaderBuilder::default(), &"f".to_string(), &mut inputs, false, &mut body);
    assert!(matches!(inputs[0], Param::Unignored { .. }));
    assert_eq!(1, body.len());
    match &body[0] {
        BodyStmt::Injected(text) => assert_eq!(
            format!(
                "let (__mock_unignored_argument_0__, ) = match ::mocktopus::mocking::call_mock(&f, (__mock_unignored_argument_0__, {}",
                CONTINUE_OR_RETURN
            ),
            *text
        ),
        BodyStmt::Plain(_) => panic!("no header"),
    }
}

#[test]
fn unparsable_source_comes_back_unchanged() {
    assert_eq!("not an item {", inject_mocks("", "not an item {"));
}

#[test]
fn other_items_are_left_alone() {
    let source = "struct S { a: u8 }";
    let out = inject_mocks("", source);
    assert_eq!(syn::parse_item(source).unwrap(), syn::parse_item(&out).unwrap());
}

#[test]
fn const_fn_item_is_left_alone() {
    let source = "const fn c(_: u8) -> u8 { 1 }";
    let out = inject_mocks("", source);
    assert_eq!(syn::parse_item(source).unwrap(), syn::parse_item(&out).unwrap());
}

#[test]
fn fn_item_gets_header() {
    let out = inject_mocks("", "fn f(_: u8, mut b: bool) -> u8 { 1 }");
    let c = compact(&out);
    assert!(c.contains("fnf(__mock_unignored_argument_0__:u8,mutb:bool)"), "{}", out);
    assert!(
        c.contains("let(__mock_unignored_argument_0__,mutb)=match::mocktopus::mocking::call_mock(&f,(__mock_unignored_argument_0__,b))"),
        "{}",
        out
    );
    assert!(syn::parse_item(&out).is_ok());
}

#[test]
fn module_items_get_headers() {
    let out = inject_mocks("", "mod m { fn f() {} mod n { fn g() {} } struct S; }");
    let c = compact(&out);
    assert!(c.contains("call_mock(&f,())"), "{}", out);
    assert!(c.contains("call_mock(&g,())"), "{}", out);
    assert!(c.contains("structS;"), "{}", out);
}

#[test]
fn impl_methods_get_headers() {
    let out = inject_mocks("", "impl Tr for S { fn f(a: u8) -> u8 { a } fn m(&self) {} const C: u8 = 1; }");
    let c = compact(&out);
    assert!(c.contains("call_mock(&<SelfasTr>::f,(a,))"), "{}", out);
    assert!(c.contains("fnm(mutself:&Self)"), "{}", out);
    assert!(
        c.contains("call_mock(&<SelfasTr>::m,(self,)){::mocktopus::mocking::MockResult::Continue((__mock_receiver,))=>{self=__mock_receiver;()}"),
        "{}",
        out
    );
    assert!(c.contains("constC:u8=1;"), "{}", out);
    let out = inject_mocks("", "impl S { fn f() {} }");
    assert!(compact(&out).contains("call_mock(&Self::f,())"), "{}", out);
}

#[test]
fn impl_with_receivers_gets_headers() {
    let source = "impl<T: Display + Default> Struct<T> { \
        fn static_method(arg: bool) -> String { format!(\"{}\", arg) } \
        fn ref_method(&self, arg: bool) -> String { format!(\"{} {}\", self.0, arg) } \
        fn ref_mut_method(&mut self, arg: bool) -> String { self.0 = T::default(); format!(\"{} {}\", self.0, arg) } \
        fn val_method(self, arg: bool) -> String { format!(\"{} {}\", self.0, arg) } }";
    let out = inject_mocks("", source);
    let c = compact(&out);
    let rebind = "{::mocktopus::mocking::MockResult::Continue((__mock_receiver,arg))=>{self=__mock_receiver;(arg,)}::mocktopus::mocking::MockResult::Return(output)=>returnoutput,};";
    assert!(c.contains("fnstatic_method(arg:bool)->String{let(arg,)=match::mocktopus::mocking::call_mock(&Self::static_method,(arg,))"), "{}", out);
    assert!(c.contains(&format!("fnref_method(mutself:&Self,arg:bool)->String{{let(arg,)=match::mocktopus::mocking::call_mock(&Self::ref_method,(self,arg)){}", rebind)), "{}", out);
    assert!(c.contains(&format!("fnref_mut_method(mutself:&mutSelf,arg:bool)->String{{let(arg,)=match::mocktopus::mocking::call_mock(&Self::ref_mut_method,(self,arg)){}", rebind)), "{}", out);
    assert!(c.contains(&format!("fnval_method(mutself,arg:bool)->String{{let(arg,)=match::mocktopus::mocking::call_mock(&Self::val_method,(self,arg)){}", rebind)), "{}", out);
}

#[test]
fn trait_default_methods_get_headers() {
    let out = inject_mocks("", "trait Trait { fn function() -> &'static str { \"not mocked\" } fn required(&self); const C: u8; }");
    let c = compact(&out);
    assert!(c.contains("fnfunction()->&'staticstr{let()=match::mocktopus::mocking::call_mock(&Self::function,())"), "{}", out);
    assert!(c.contains("fnrequired(&self);"), "{}", out);
    assert!(syn::parse_item(&out).is_ok());
}

#[test]
fn ignored_param_of_original_item_is_named() {
    let out = inject_mocks("", "fn terrible(_: &str) -> &'static str { \"a\" }");
    let c = compact(&out);
    assert!(
        c.contains("fnterrible(__mock_unignored_argument_0__:&str)->&'staticstr{let(__mock_unignored_argument_0__,)=match::mocktopus::mocking::call_mock(&terrible,(__mock_unignored_argument_0__,)){::mocktopus::mocking::MockResult::Continue(input)=>input,::mocktopus::mocking::MockResult::Return(output)=>returnoutput,};\"a\"}"),
        "{}",
        out
    );
    assert!(syn::parse_item(&out).is_ok());
}

#[test]
fn destructured_params_get_header_and_are_bound_again() {
    let out = inject_mocks("", "fn f((a, b): (u8, u8), ref c: u8, d: u8) -> u8 { a + b + *c + d }");
    let c = compact(&out);
    assert!(c.contains("fnf(__mock_unignored_argument_0__:(u8,u8),__mock_unignored_argument_1__:u8,d:u8)->u8{"), "{}", out);
    assert!(
        c.contains("let(__mock_unignored_argument_0__,__mock_unignored_argument_1__,d)=match::mocktopus::mocking::call_mock(&f,(__mock_unignored_argument_0__,__mock_unignored_argument_1__,d))"),
        "{}",
        out
    );
    assert!(c.contains("returnoutput,};let(a,b)=__mock_unignored_argument_0__;letrefc=__mock_unignored_argument_1__;a+b+*c+d}"), "{}", out);
    assert!(syn::parse_item(&out).is_ok());
}

#[test]
fn typed_and_lifetime_receivers_get_headers() {
    let out = inject_mocks("", "impl<'a> S<'a> { fn boxed(self: Box<Self>, a: u8) -> u8 { a } fn get(&'a mut self) -> u8 { 1 } }");
    let c = compact(&out);
    assert!(c.contains("fnboxed(mutself:Box<Self>,a:u8)->u8{let(a,)=match::mocktopus::mocking::call_mock(&Self::boxed,(self,a)){::mocktopus::mocking::MockResult::Continue((__mock_receiver,a))=>{self=__mock_receiver;(a,)}"), "{}", out);
    assert!(c.contains("fnget(mutself:&'amutSelf)->u8{let()=match::mocktopus::mocking::call_mock(&Self::get,(self,)){::mocktopus::mocking::MockResult::Continue((__mock_receiver,))=>{self=__mock_receiver;()}"), "{}", out);
    assert!(syn::parse_item(&out).is_ok());
}

#[test]
fn anonymous_param_of_default_method_is_named() {
    let out = inject_mocks("", "trait T { fn f(&self, u8) -> u8 { 1 } }");
    let c = compact(&out);
    assert!(c.contains("fnf(mutself:&Self,__mock_unignored_argument_1__:u8)->u8{let(__mock_unignored_argument_1__,)=match::mocktopus::mocking::call_mock(&Self::f,(self,__mock_unignored_argument_1__))"), "{}", out);
}
