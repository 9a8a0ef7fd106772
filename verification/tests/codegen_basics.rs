//! Shapes of the generated enums and traits, and what is rejected.

use myelin::codegen::emit;
use myelin::codegen::parse::ServiceTrait;
use myelin::error::ErrorText;

fn item(source: &str) -> syn::ItemTrait {
    syn::parse_str(source).unwrap()
}

fn canon(text: String) -> String {
    text
}

fn err(item: syn::ItemTrait) -> String {
    match ServiceTrait::parse(&item) {
        Ok(_) => panic!("expected parse error"),
        Err(e) => e[0].to_text(),
    }
}

#[test]
fn request_enum_shape() {
    let item: syn::ItemTrait = item("pub trait GreeterService { async fn greet(&self, name: String) -> String; async fn health(&self) -> bool; }");
    let svc = ServiceTrait::parse(&item).unwrap();
    let got = canon(emit::request_enum(&svc));
    assert!(got.contains("enum GreeterRequest"), "got: {got}");
    assert!(got.contains("Greet { name : String }"), "got: {got}");
    assert!(got.contains("Health"), "got: {got}");
    assert!(!got.contains("Health {"), "got: {got}");
    assert!(got.contains("derive (Debug)"), "got: {got}");
    assert!(
        got.contains("serde :: Serialize , serde :: Deserialize"),
        "got: {got}"
    );
}

#[test]
fn response_enum_shape() {
    let item: syn::ItemTrait = item("pub trait GreeterService { async fn greet(&self, name: String) -> String; async fn health(&self) -> bool; }");
    let svc = ServiceTrait::parse(&item).unwrap();
    let got = canon(emit::response_enum(&svc));
    assert!(got.contains("enum GreeterResponse"), "got: {got}");
    assert!(got.contains("Greet (String)"), "got: {got}");
    assert!(got.contains("Health (bool)"), "got: {got}");
}

#[test]
fn response_unit_variant_for_unit_return() {
    let item: syn::ItemTrait = item("pub trait PingService { fn ping(&self); }");
    let svc = ServiceTrait::parse(&item).unwrap();
    let got = canon(emit::response_enum(&svc));
    assert!(got.contains("enum PingResponse"), "got: {got}");
    assert!(got.contains("Ping"), "got: {got}");
    assert!(!got.contains("Ping ("), "got: {got}");
}

#[test]
fn async_trait_is_preserved_verbatim() {
    let item: syn::ItemTrait = item("pub trait GreeterService { async fn greet(&self, name: String) -> String; fn health(&self) -> bool; }");
    let svc = ServiceTrait::parse(&item).unwrap();
    let got = canon(emit::async_trait(&svc));
    assert!(got.contains("trait GreeterService"), "got: {got}");
    assert!(got.contains("async fn greet"), "got: {got}");
    assert!(got.contains("fn health"), "got: {got}");
}

#[test]
fn sync_trait_strips_async_and_renames() {
    let item: syn::ItemTrait = item("pub trait GreeterService { async fn greet(&self, name: String) -> String; fn health(&self) -> bool; }");
    let svc = ServiceTrait::parse(&item).unwrap();
    let got = canon(emit::sync_trait(&svc));
    assert!(got.contains("trait GreeterServiceSync"), "got: {got}");
    assert!(!got.contains("async fn"), "got: {got}");
    assert!(got.contains("fn greet"), "got: {got}");
    assert!(got.contains("fn health"), "got: {got}");
}

#[test]
fn snake_case_method_to_pascal_variant() {
    let item: syn::ItemTrait = item("pub trait FooService { async fn do_thing(&self, n: u32) -> u32; }");
    let svc = ServiceTrait::parse(&item).unwrap();
    let got = canon(emit::request_enum(&svc));
    assert!(got.contains("DoThing { n : u32 }"), "got: {got}");
}

#[test]
fn result_return_type_passed_through() {
    let item: syn::ItemTrait = item("pub trait FooService { async fn maybe(&self) -> Result<String, u32>; }");
    let svc = ServiceTrait::parse(&item).unwrap();
    let got = canon(emit::response_enum(&svc));
    assert!(got.contains("Maybe (Result < String , u32 >)"), "got: {got}");
}

#[test]
fn preserves_complex_arg_type_verbatim() {
    let item: syn::ItemTrait = item("pub trait FooService { async fn put(&self, s: heapless::String<64>) -> bool; }");
    let svc = ServiceTrait::parse(&item).unwrap();
    let got = canon(emit::request_enum(&svc));
    assert!(
        got.contains("Put { s : heapless :: String < 64 > }"),
        "got: {got}"
    );
}

#[test]
fn visibility_propagates_to_generated_items() {
    let item: syn::ItemTrait = item("pub(crate) trait FooService { fn a(&self) -> u32; }");
    let svc = ServiceTrait::parse(&item).unwrap();
    assert!(
        canon(emit::request_enum(&svc)).starts_with("# [derive"),
        "expected attrs before vis"
    );
    assert!(canon(emit::request_enum(&svc)).contains("pub (crate) enum FooRequest"));
    assert!(canon(emit::response_enum(&svc)).contains("pub (crate) enum FooResponse"));
    assert!(canon(emit::sync_trait(&svc)).contains("pub (crate) trait FooServiceSync"));
}

#[test]
fn rejects_non_service_trait_name() {
    let msg = err(item("pub trait Greeter { fn a(&self); }"));
    assert!(msg.contains("must end in `Service`"), "msg: {msg}");
}

#[test]
fn rejects_empty_stem() {
    let msg = err(item("pub trait Service { fn a(&self); }"));
    assert!(msg.contains("non-empty stem"), "msg: {msg}");
}

#[test]
fn rejects_mut_self() {
    let msg = err(item("pub trait FooService { fn a(&mut self); }"));
    assert!(msg.contains("&self"), "msg: {msg}");
}

#[test]
fn rejects_self_by_value() {
    let msg = err(item("pub trait FooService { fn a(self); }"));
    assert!(msg.contains("&self"), "msg: {msg}");
}

#[test]
fn rejects_missing_receiver() {
    let msg = err(item("pub trait FooService { fn a(x: u32); }"));
    assert!(msg.contains("&self"), "msg: {msg}");
}

#[test]
fn rejects_borrowed_arg() {
    let msg = err(item("pub trait FooService { fn a(&self, name: &str); }"));
    assert!(msg.contains("owned"), "msg: {msg}");
}

#[test]
fn rejects_destructured_arg() {
    let msg = err(item("pub trait FooService { fn a(&self, (x, y): (u32, u32)); }"));
    assert!(msg.contains("plain `ident: Type`"), "msg: {msg}");
}

#[test]
fn rejects_underscore_arg() {
    let msg = err(item("pub trait FooService { fn a(&self, _: u32); }"));
    assert!(msg.contains("plain `ident: Type`"), "msg: {msg}");
}

#[test]
fn rejects_mut_arg() {
    let msg = err(item("pub trait FooService { fn a(&self, mut x: u32); }"));
    assert!(msg.contains("plain `ident: Type`"), "msg: {msg}");
}

#[test]
fn rejects_trait_generics() {
    let msg = err(item("pub trait FooService<T> { fn a(&self) -> T; }"));
    assert!(msg.contains("trait generics"), "msg: {msg}");
}

#[test]
fn rejects_trait_lifetime() {
    let msg = err(item("pub trait FooService<'a> { fn a(&self); }"));
    assert!(msg.contains("trait generics"), "msg: {msg}");
}

#[test]
fn rejects_where_clause() {
    let msg = err(item("pub trait FooService where Self: Sized { fn a(&self); }"));
    assert!(msg.contains("where-clauses"), "msg: {msg}");
}

#[test]
fn rejects_supertraits() {
    let msg = err(item("pub trait FooService: Sized { fn a(&self); }"));
    assert!(msg.contains("supertraits"), "msg: {msg}");
}

#[test]
fn rejects_method_generics() {
    let msg = err(item("pub trait FooService { fn a<T>(&self, t: T); }"));
    assert!(msg.contains("method generics"), "msg: {msg}");
}

#[test]
fn rejects_default_body() {
    let msg = err(item("pub trait FooService { fn a(&self) -> u32 { 0 } }"));
    assert!(msg.contains("default body"), "msg: {msg}");
}

#[test]
fn rejects_non_fn_trait_items() {
    let msg = err(item("pub trait FooService { type Assoc; fn a(&self); }"));
    assert!(msg.contains("only `fn` items"), "msg: {msg}");
}
