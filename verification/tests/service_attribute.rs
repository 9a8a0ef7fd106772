//! From the tokens of a trait to the generated code, and what is rejected.

use myelin::codegen::args::{accept_api_id, ArgsError, ServiceArgs};
use myelin::codegen::casing::can_name;
use myelin::codegen::emit::{self, Transports};
use myelin::codegen::parse::{MethodFault, ServiceError, ServiceTrait};
use myelin::codegen::service::{service, ServiceFailure};
use myelin::error::ErrorText;

fn tokens(source: &str) -> proc_macro2::TokenStream {
    source.parse().unwrap()
}

fn args_error(source: &str) -> ArgsError {
    match ServiceArgs::parse(&tokens(source)) {
        Ok(_) => panic!("accepted: {source}"),
        Err(e) => e,
    }
}

fn errors(source: &str) -> Vec<ServiceError> {
    let item: syn::ItemTrait = syn::parse_str(source).unwrap();
    match ServiceTrait::parse(&item) {
        Ok(_) => panic!("accepted: {source}"),
        Err(e) => e,
    }
}

const NONE: Transports = Transports { tokio: false, embassy: false };
const ALL: Transports = Transports { tokio: true, embassy: true };

const GREETER: &str =
    "pub trait GreeterService { async fn greet(&self, name: String) -> String; fn reset(&self); }";

#[test]
fn service_generates_everything() {
    let code = service(&tokens("api_id = 0x0001"), tokens(GREETER), ALL).unwrap();
    let parsed: syn::File = syn::parse_str(&code).unwrap();
    assert_eq!(parsed.items.len(), 17);
    for name in [
        "enum GreeterRequest",
        "enum GreeterResponse",
        "trait GreeterService",
        "trait GreeterServiceSync",
        "struct GreeterClient <",
        "struct GreeterClientSync <",
        "async fn greeter_dispatch <",
        "fn greeter_dispatch_sync <",
        "async fn greeter_serve <",
        "fn greeter_serve_sync <",
        "type GreeterTokioService =",
        "type GreeterEmbassyService <",
        "type GreeterEmbassyClientTransport <",
        "macro_rules ! greeter_embassy_service",
        "const GREETER_API_ID : u16 = 1u16 ;",
    ] {
        assert!(code.contains(name), "{name} is missing in {code}");
    }
}

#[test]
fn transports_are_optional() {
    let code = service(&tokens(""), tokens(GREETER), NONE).unwrap();
    assert!(!code.contains("TokioService"));
    assert!(!code.contains("Embassy"));
    let code = service(
        &tokens(""),
        tokens(GREETER),
        Transports { tokio: true, embassy: false },
    )
    .unwrap();
    assert!(code.contains("TokioService"));
    assert!(!code.contains("Embassy"));
    let code = service(
        &tokens(""),
        tokens(GREETER),
        Transports { tokio: false, embassy: true },
    )
    .unwrap();
    assert!(!code.contains("TokioService"));
    assert!(code.contains("Embassy"));
}

#[test]
fn each_failure_has_its_kind() {
    match service(&tokens("api_id = 70000"), tokens(GREETER), NONE) {
        Err(ServiceFailure::Args(e)) => assert_eq!(
            e.to_text(),
            "myelin::service: api_id = 70000 does not fit in u16 (max 65535)"
        ),
        _ => panic!("the id is too large"),
    }
    match service(&tokens(""), tokens("struct S;"), NONE) {
        Err(ServiceFailure::Syntax(message)) => assert!(!message.is_empty()),
        _ => panic!("this is not a trait"),
    }
    match service(&tokens(""), tokens("trait Greeter { }"), NONE) {
        Err(ServiceFailure::Trait(errors)) => {
            assert_eq!(errors, vec![ServiceError::NotNamedService])
        }
        _ => panic!("this is not a service"),
    }
    // The arguments come first.
    assert!(matches!(
        service(&tokens("x = 1"), tokens("struct S;"), NONE),
        Err(ServiceFailure::Args(_))
    ));
}

#[test]
fn same_trait_gives_the_same_code() {
    let one = service(&tokens("api_id = 7"), tokens(GREETER), ALL).unwrap();
    let other = service(&tokens("api_id = 0x7,"), tokens(GREETER), ALL).unwrap();
    assert_eq!(one, other);
}

#[test]
fn arguments_are_read_as_key_value_pairs() {
    assert_eq!(ServiceArgs::parse(&tokens("")).unwrap().api_id, None);
    assert_eq!(ServiceArgs::parse(&tokens("api_id = 1")).unwrap().api_id, Some(1));
    assert_eq!(ServiceArgs::parse(&tokens("api_id = 1,")).unwrap().api_id, Some(1));
    assert_eq!(ServiceArgs::parse(&tokens("api_id = 0b101")).unwrap().api_id, Some(5));
    assert_eq!(ServiceArgs::parse(&tokens("api_id = 1_000")).unwrap().api_id, Some(1000));
    assert_eq!(ServiceArgs::parse(&tokens("api_id = 65535")).unwrap().api_id, Some(65535));
}

#[test]
fn each_argument_error_has_its_input() {
    assert!(matches!(args_error("::"), ArgsError::MissingKey));
    assert!(matches!(args_error("="), ArgsError::InvalidKey));
    assert!(matches!(args_error("(api_id) = 1"), ArgsError::InvalidKey));
    assert!(matches!(args_error("1 = 1"), ArgsError::LiteralKey));
    assert!(matches!(args_error("a::"), ArgsError::MissingName { at_end: true }));
    assert!(matches!(args_error("a::1"), ArgsError::MissingName { at_end: false }));
    assert!(matches!(args_error("api_id"), ArgsError::ExpectedEquals));
    assert!(matches!(args_error("api_id 1"), ArgsError::ExpectedEquals));
    assert!(matches!(args_error("api_id ="), ArgsError::ExpectedInteger { at_end: true }));
    assert!(matches!(args_error("api_id = -"), ArgsError::ExpectedInteger { at_end: false }));
    assert!(matches!(args_error("api_id = 1.5"), ArgsError::ExpectedInteger { at_end: false }));
    assert!(matches!(args_error("api_id = \"x\""), ArgsError::ExpectedInteger { at_end: false }));
    assert!(matches!(
        args_error("api_id = 99999999999999999999999"),
        ArgsError::UnreadableInteger(_)
    ));
    assert!(matches!(args_error("api_id = -1"), ArgsError::UnreadableInteger(_)));
    assert!(matches!(args_error("api_id = 65536"), ArgsError::TooLarge(65536)));
    assert!(matches!(args_error("api_id = 1, api_id = 1"), ArgsError::Duplicate));
    assert!(matches!(args_error("id = 1"), ArgsError::UnknownKey(Some(name)) if name == "id"));
    assert!(matches!(args_error("a::b = 1"), ArgsError::UnknownKey(None)));
    assert!(matches!(args_error("api_id = 1 api_id = 2"), ArgsError::ExpectedComma));
}

/// What the attribute parser of the syntax crate makes of an argument list.
fn expected(args: &proc_macro2::TokenStream) -> Result<Option<u16>, String> {
    let mut api_id = None;
    let parser = syn::meta::parser(|meta| {
        if !meta.path.is_ident("api_id") {
            let name = meta.path.get_ident().map(|i| i.to_string());
            return Err(meta.error(ArgsError::UnknownKey(name).to_text()));
        }
        let value: syn::LitInt = meta.value()?.parse()?;
        let n: u64 = value.base10_parse()?;
        if n > u16::MAX as u64 {
            return Err(meta.error(ArgsError::TooLarge(n).to_text()));
        }
        if api_id.is_some() {
            return Err(meta.error(ArgsError::Duplicate.to_text()));
        }
        api_id = Some(n as u16);
        Ok(())
    });
    let parsed = syn::parse::Parser::parse2(parser, args.clone());
    parsed.map(|()| api_id).map_err(|e| e.to_string())
}

fn outcome(args: &proc_macro2::TokenStream) -> Result<Option<u16>, String> {
    ServiceArgs::parse(args).map(|a| a.api_id).map_err(|e| e.to_text())
}

#[test]
fn invisible_groups_count_as_their_contents() {
    let inner: proc_macro2::TokenTree =
        proc_macro2::Group::new(proc_macro2::Delimiter::None, tokens("7")).into();
    let outer: proc_macro2::TokenTree =
        proc_macro2::Group::new(proc_macro2::Delimiter::None, inner.into()).into();
    let mut args = tokens("api_id =");
    args.extend([outer]);
    assert_eq!(ServiceArgs::parse(&args).unwrap().api_id, Some(7));

    let empty = || -> proc_macro2::TokenTree {
        proc_macro2::Group::new(proc_macro2::Delimiter::None, tokens("")).into()
    };
    for (before, after) in [
        ("", ""),
        ("api_id", ""),
        ("api_id =", ""),
        ("api_id = 1", ""),
        ("api_id = 1,", ""),
        ("a::", ""),
        ("a", "::b = 1"),
        ("", "api_id = 1"),
        ("", "1"),
        ("", "-1"),
        ("-", "1"),
        ("api_id = -", "1"),
        ("api_id", "= 1"),
        ("api_id =", "1"),
        ("api_id = 1", ", api_id = 2"),
    ] {
        let mut args = tokens(before);
        args.extend([empty()]);
        args.extend(tokens(after));
        assert_eq!(outcome(&args), expected(&args), "{before} | {after}");
    }

    let visible: proc_macro2::TokenTree =
        proc_macro2::Group::new(proc_macro2::Delimiter::Parenthesis, tokens("7")).into();
    let mut args = tokens("api_id =");
    args.extend([visible]);
    assert!(ServiceArgs::parse(&args).is_err());
}

#[test]
fn argument_messages_are_those_of_the_parser() {
    for source in [
        "", "::", "=", "1 = 1", "-1 = 1", "-1.5", "- \"x\"", "-x", "a::", "a::1", "a::b", "::a",
        "api_id", "api_id 1", "api_id =", "api_id = -", "api_id = -1", "api_id = 1.5",
        "api_id = true", "api_id = 1", "api_id = 1,", "api_id = 1,,", "api_id = 1 2", "r#api_id = 1",
        "api_id = 0xffff", "api_id = 65536", "api_id = 1, api_id = 2", "(x) = 1", "true = 1",
    ] {
        let args = tokens(source);
        assert_eq!(outcome(&args), expected(&args), "{source}");
    }
}

#[test]
fn argument_errors_read_well() {
    assert_eq!(
        args_error("id = 1").to_text(),
        "myelin::service: unknown argument `id`; the only currently supported key is `api_id`"
    );
    assert_eq!(
        args_error("a::b = 1").to_text(),
        "myelin::service: unknown argument `<non-ident>`; the only currently supported key is `api_id`"
    );
    assert_eq!(
        args_error("api_id = 1, api_id = 1").to_text(),
        "myelin::service: `api_id` specified more than once"
    );
    assert_eq!(args_error("api_id 1").to_text(), "expected `=`");
    assert_eq!(args_error("api_id").to_text(), "expected `=`");
    assert_eq!(
        args_error("api_id =").to_text(),
        "unexpected end of input, expected integer literal"
    );
    assert_eq!(args_error("api_id = -1").to_text(), "invalid digit found in string");
    assert_eq!(
        args_error("::").to_text(),
        "unexpected end of input, expected nested attribute"
    );
    assert_eq!(
        args_error("1").to_text(),
        "unexpected literal in nested attribute, expected ident"
    );
    assert_eq!(
        args_error("#").to_text(),
        "unexpected token in nested attribute, expected ident"
    );
    assert_eq!(args_error("a::").to_text(), "unexpected end of input, expected ident");
    assert_eq!(args_error("a::=").to_text(), "expected ident");
    assert_eq!(args_error("api_id = \"x\"").to_text(), "expected integer literal");
    assert_eq!(args_error("api_id = 1 2").to_text(), "expected `,`");
    assert_eq!(
        args_error("api_id = 99999999999999999999999").to_text(),
        "number too large to fit in target type"
    );
}

#[test]
fn trait_errors_are_all_reported_in_order() {
    assert_eq!(
        errors("unsafe trait Greeter<T>: Send where T: Copy { const X: u8; fn f(self); }"),
        vec![
            ServiceError::TraitGenerics,
            ServiceError::TraitWhereClause,
            ServiceError::Supertraits,
            ServiceError::UnsafeTrait,
            ServiceError::NotNamedService,
            ServiceError::NotAFunction { item: 0 },
            ServiceError::Method { item: 1, fault: MethodFault::SelfByValue },
        ]
    );
    assert_eq!(errors("auto trait XService { }"), vec![ServiceError::AutoTrait]);
    assert_eq!(errors("trait Service { }"), vec![ServiceError::EmptyStem]);
}

fn faults(function: &str) -> Vec<MethodFault> {
    let source = format!("trait XService {{ {function} }}");
    errors(&source)
        .into_iter()
        .map(|e| match e {
            ServiceError::Method { item: 0, fault } => fault,
            other => panic!("{other:?}"),
        })
        .collect()
}

#[test]
fn each_method_fault_has_its_input() {
    assert_eq!(faults("fn f(&self) {}"), vec![MethodFault::DefaultBody]);
    assert_eq!(faults("const fn f(&self);"), vec![MethodFault::Const]);
    assert_eq!(faults("unsafe fn f(&self);"), vec![MethodFault::Unsafe]);
    assert_eq!(faults("extern \"C\" fn f(&self);"), vec![MethodFault::Abi]);
    assert_eq!(faults("fn f<T>(&self, x: T);"), vec![MethodFault::Generics]);
    assert_eq!(faults("fn f(&self) where Self: Sized;"), vec![MethodFault::WhereClause]);
    assert_eq!(faults("fn f(self);"), vec![MethodFault::SelfByValue]);
    assert_eq!(faults("fn f(&mut self);"), vec![MethodFault::SelfMutable]);
    assert_eq!(faults("fn f(&'static self);"), vec![MethodFault::SelfLifetime]);
    assert_eq!(
        faults("fn f(self: Box<Self>);"),
        vec![MethodFault::SelfByValue, MethodFault::SelfTyped]
    );
    assert_eq!(faults("fn f(x: u8);"), vec![MethodFault::FirstNotSelf]);
    assert_eq!(faults("fn f();"), vec![MethodFault::NoSelf]);
    assert_eq!(faults("fn f(&self, (a, b): (u8, u8));"), vec![MethodFault::NotAName { input: 1 }]);
    assert_eq!(
        faults("fn f(&self, a: u8, name: &str);"),
        vec![MethodFault::Borrowed { input: 2 }]
    );
    assert_eq!(
        faults("unsafe fn f(&mut self, mut a: &str) {}"),
        vec![
            MethodFault::DefaultBody,
            MethodFault::Unsafe,
            MethodFault::SelfMutable,
            MethodFault::NotAName { input: 1 },
            MethodFault::Borrowed { input: 1 },
        ]
    );
}

fn parsed(source: &str) -> ServiceTrait {
    let item: syn::ItemTrait = syn::parse_str(source).unwrap();
    ServiceTrait::parse(&item).unwrap()
}

#[test]
fn stems_are_names_without_the_suffix() {
    assert_eq!(parsed("trait GreeterService { }").stem, "Greeter");
    assert_eq!(parsed("trait ServiceService { }").stem, "Service");
    assert_eq!(errors("trait Greeter { }"), vec![ServiceError::NotNamedService]);
}

#[test]
fn hashed_ids_are_stable() {
    assert_eq!(emit::fnv1a16(""), 0x811c ^ 0x9dc5);
    assert_eq!(emit::fnv1a16("a"), 0xe40c ^ 0x292c);
    assert_ne!(emit::fnv1a16("GreeterService"), emit::fnv1a16("MathService"));
}

#[test]
fn names_change_their_case() {
    let svc = parsed("trait KeyValueService { fn get_all(&self) -> u8; }");
    assert!(emit::request_enum(&svc).contains("GetAll"));
    assert!(emit::dispatch_fn(&svc).contains("fn key_value_dispatch"));
    assert!(emit::api_id_const(&svc, Some(5)).contains("const KEY_VALUE_API_ID : u16 = 5u16"));
}

#[test]
fn names_that_are_no_identifiers_are_refused() {
    assert_eq!(errors("trait r#FooService { }"), vec![ServiceError::InvalidStem]);
    assert_eq!(errors("trait r#_1Service { }"), vec![ServiceError::InvalidStem]);
    assert_eq!(
        ServiceError::InvalidStem.to_text(),
        "myelin::service: the names derived from this trait would not be identifiers"
    );
    for function in ["fn r#type(&self);", "fn _1(&self);", "fn __(&self);"] {
        assert_eq!(faults(function), vec![MethodFault::InvalidVariant], "{function}");
    }
    assert_eq!(
        MethodFault::InvalidVariant.to_text(),
        "myelin::service: the variant name of this method would not be an identifier"
    );
    // Other faults come first.
    assert_eq!(faults("fn _1(self);"), vec![MethodFault::SelfByValue]);
    assert_eq!(
        errors("trait r#FooService<T> { }"),
        vec![ServiceError::TraitGenerics]
    );
}

#[test]
fn names_of_generated_items() {
    for name in ["Foo", "foo_bar", "_", "_x", "Self", "type", "\u{e9}t\u{e9}"] {
        assert!(can_name(name), "{name}");
    }
    for name in ["", "1", "1a", "r#foo", "R#foo", "a b", "a::b", "a-b"] {
        assert!(!can_name(name), "{name}");
    }
    assert_eq!(parsed("trait SelfService { fn put(&self, r#type: u8); }").stem, "Self");
}

#[test]
fn api_ids_fit_and_are_given_once() {
    assert_eq!(accept_api_id(None, 0).unwrap(), 0);
    assert_eq!(accept_api_id(None, 65535).unwrap(), 65535);
    assert!(matches!(accept_api_id(None, 65536), Err(ArgsError::TooLarge(65536))));
    assert!(matches!(accept_api_id(Some(1), 65536), Err(ArgsError::TooLarge(65536))));
    assert!(matches!(accept_api_id(Some(1), 2), Err(ArgsError::Duplicate)));
}

#[test]
fn literals_have_their_decimal_value() {
    for (literal, value) in [("0", 0u64), ("007", 7), ("0x10", 16), ("1_000", 1000), ("9u8", 9)] {
        let args = tokens(&format!("api_id = {literal}"));
        assert_eq!(ServiceArgs::parse(&args).unwrap().api_id, Some(value as u16));
    }
    assert!(matches!(
        args_error("api_id = 18446744073709551615"),
        ArgsError::TooLarge(u64::MAX)
    ));
    assert!(matches!(
        args_error("api_id = 18446744073709551616"),
        ArgsError::UnreadableInteger(_)
    ));
    assert!(matches!(args_error("api_id = -0"), ArgsError::UnreadableInteger(_)));
}
