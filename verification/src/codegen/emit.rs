//! Code generation for validated service traits.
//!
//! Every generator returns token text: tokens with single spaces between
//! them, which a tokenizer turns back into code.

use vstd::prelude::*;

use crate::codegen::casing::{to_case, WordCase};
use crate::codegen::parse::{ReturnKind, ServiceArg, ServiceMethod, ServiceTrait};
use crate::codegen::syntax::Attr;
use crate::text::{concat_texts, decimal_text, join_texts};

verus! {

/// `vis` with a space behind it; nothing for a private item.
pub open spec fn vis_prefix(vis: Seq<char>) -> Seq<char> {
    if vis.len() == 0 {
        Seq::empty()
    } else {
        vis + " "@
    }
}

/// `vis` with a space behind it; nothing for a private item.
fn vis_text(vis: &String) -> (text: String)
    ensures
        text@ == vis_prefix(vis@),
{
    if vis.as_str().unicode_len() == 0 {
        String::new()
    } else {
        let mut text = vis.clone();
        text.append(" ");
        text
    }
}

/// The parameters as declarations.
pub open spec fn argument_decls(args: Seq<ServiceArg>) -> Seq<Seq<char>> {
    Seq::new(args.len(), |i: int| args[i].ident@ + " : "@ + args[i].ty@)
}

/// The names of the parameters.
pub open spec fn argument_names(args: Seq<ServiceArg>) -> Seq<Seq<char>> {
    Seq::new(args.len(), |i: int| args[i].ident@)
}

/// The parameters as declarations.
fn decls(args: &Vec<ServiceArg>) -> (list: Vec<String>)
    ensures
        crate::text::texts(list@) == argument_decls(args@),
{
    let mut list: Vec<String> = Vec::new();
    let mut i: usize = 0;
    while i < args.len()
        invariant
            i <= args@.len(),
            list@.len() == i,
            forall|j: int|
                0 <= j < i ==> (#[trigger] list@[j])@ == args@[j].ident@ + " : "@ + args@[j].ty@,
        decreases args.len() - i,
    {
        let mut decl = args[i].ident.clone();
        decl.append(" : ");
        decl.append(args[i].ty.as_str());
        list.push(decl);
        i = i + 1;
    }
    assert(crate::text::texts(list@) =~= argument_decls(args@));
    list
}

/// The names of the parameters.
fn names(args: &Vec<ServiceArg>) -> (list: Vec<String>)
    ensures
        crate::text::texts(list@) == argument_names(args@),
{
    let mut list: Vec<String> = Vec::new();
    let mut i: usize = 0;
    while i < args.len()
        invariant
            i <= args@.len(),
            list@.len() == i,
            forall|j: int| 0 <= j < i ==> (#[trigger] list@[j])@ == args@[j].ident@,
        decreases args.len() - i,
    {
        list.push(args[i].ident.clone());
        i = i + 1;
    }
    assert(crate::text::texts(list@) =~= argument_names(args@));
    list
}

/// A return type; `()` for a function that returns nothing.
pub open spec fn return_type_text(ret: ReturnKind) -> Seq<char> {
    match ret {
        ReturnKind::Unit => "()"@,
        ReturnKind::Type(ty) => ty@,
    }
}

/// A return type; `()` for a function that returns nothing.
fn return_type(ret: &ReturnKind) -> (text: String)
    ensures
        text@ == return_type_text(*ret),
{
    match ret {
        ReturnKind::Unit => "()".to_owned(),
        ReturnKind::Type(ty) => ty.clone(),
    }
}

/// A variant of the request enum, with a comma.
pub open spec fn request_variant_text(svc: ServiceTrait, method: ServiceMethod) -> Seq<char> {
    if method.args@.len() == 0 {
        method.variant_ident@ +
            " , "@
    } else {
        method.variant_ident@ +
            " { "@ +
            crate::text::join(argument_decls(method.args@), " , "@) +
            " } , "@
    }
}

/// A variant of the request enum, with a comma.
fn request_variant(svc: &ServiceTrait, method: &ServiceMethod) -> (text: String)
    ensures
        text@ == request_variant_text(*svc, *method),
{
    if method.args.len() == 0 {
        let mut text = method.variant_ident.as_str().to_owned();
        text.append(" , ");
        text
    } else {
        let mut text = method.variant_ident.as_str().to_owned();
        text.append(" { ");
        text.append(join_texts(&decls(&method.args), " , ").as_str());
        text.append(" } , ");
        text
    }
}

/// A variant of the response enum, with a comma.
pub open spec fn response_variant_text(svc: ServiceTrait, method: ServiceMethod) -> Seq<char> {
    if method.ret is Unit {
        method.variant_ident@ +
            " , "@
    } else {
        method.variant_ident@ +
            " ("@ +
            return_type_text(method.ret) +
            ") , "@
    }
}

/// A variant of the response enum, with a comma.
fn response_variant(svc: &ServiceTrait, method: &ServiceMethod) -> (text: String)
    ensures
        text@ == response_variant_text(*svc, *method),
{
    if matches!(method.ret, ReturnKind::Unit) {
        let mut text = method.variant_ident.as_str().to_owned();
        text.append(" , ");
        text
    } else {
        let mut text = method.variant_ident.as_str().to_owned();
        text.append(" (");
        text.append(return_type(&method.ret).as_str());
        text.append(") , ");
        text
    }
}

/// A request as an expression or a pattern, by the names of its parameters.
pub open spec fn request_ctor_text(svc: ServiceTrait, method: ServiceMethod) -> Seq<char> {
    if method.args@.len() == 0 {
        svc.stem@ +
            "Request :: "@ +
            method.variant_ident@
    } else {
        svc.stem@ +
            "Request :: "@ +
            method.variant_ident@ +
            " { "@ +
            crate::text::join(argument_names(method.args@), " , "@) +
            " }"@
    }
}

/// A request as an expression or a pattern, by the names of its parameters.
fn request_ctor(svc: &ServiceTrait, method: &ServiceMethod) -> (text: String)
    ensures
        text@ == request_ctor_text(*svc, *method),
{
    if method.args.len() == 0 {
        let mut text = svc.stem.as_str().to_owned();
        text.append("Request :: ");
        text.append(method.variant_ident.as_str());
        text
    } else {
        let mut text = svc.stem.as_str().to_owned();
        text.append("Request :: ");
        text.append(method.variant_ident.as_str());
        text.append(" { ");
        text.append(join_texts(&names(&method.args), " , ").as_str());
        text.append(" }");
        text
    }
}

/// The parameter list of a client method.
pub open spec fn client_params_text(svc: ServiceTrait, method: ServiceMethod) -> Seq<char> {
    if method.args@.len() == 0 {
        "(& self ,)"@
    } else {
        "(& self , "@ +
            crate::text::join(argument_decls(method.args@), " , "@) +
            ")"@
    }
}

/// The parameter list of a client method.
fn client_params(svc: &ServiceTrait, method: &ServiceMethod) -> (text: String)
    ensures
        text@ == client_params_text(*svc, *method),
{
    if method.args.len() == 0 {
        let mut text = "(& self ,)".to_owned();
        text
    } else {
        let mut text = "(& self , ".to_owned();
        text.append(join_texts(&decls(&method.args), " , ").as_str());
        text.append(")");
        text
    }
}

/// The match arm of a client method for its response.
pub open spec fn response_arm_text(svc: ServiceTrait, method: ServiceMethod) -> Seq<char> {
    if method.ret is Unit {
        svc.stem@ +
            "Response :: "@ +
            method.variant_ident@ +
            " => ()"@
    } else {
        svc.stem@ +
            "Response :: "@ +
            method.variant_ident@ +
            " (v) => v"@
    }
}

/// The match arm of a client method for its response.
fn response_arm(svc: &ServiceTrait, method: &ServiceMethod) -> (text: String)
    ensures
        text@ == response_arm_text(*svc, *method),
{
    if matches!(method.ret, ReturnKind::Unit) {
        let mut text = svc.stem.as_str().to_owned();
        text.append("Response :: ");
        text.append(method.variant_ident.as_str());
        text.append(" => ()");
        text
    } else {
        let mut text = svc.stem.as_str().to_owned();
        text.append("Response :: ");
        text.append(method.variant_ident.as_str());
        text.append(" (v) => v");
        text
    }
}

/// A method of the client.
pub open spec fn client_method_text(svc: ServiceTrait, method: ServiceMethod) -> Seq<char> {
    vis_prefix(svc.vis@) +
        "async fn "@ +
        method.sig.ident@ +
        " "@ +
        client_params_text(svc, method) +
        " -> < T :: Error as :: myelin :: TransportResult < "@ +
        return_type_text(method.ret) +
        " >> :: Output where T :: Error : :: myelin :: TransportResult < "@ +
        return_type_text(method.ret) +
        " > , { let result = self . transport . call ("@ +
        request_ctor_text(svc, method) +
        ") . await ; :: myelin :: TransportResult :: into_output (result . map (| resp | match resp { "@ +
        response_arm_text(svc, method) +
        " , # [allow (unreachable_patterns)] _ => unreachable ! () , })) } "@
}

/// A method of the client.
fn client_method(svc: &ServiceTrait, method: &ServiceMethod) -> (text: String)
    ensures
        text@ == client_method_text(*svc, *method),
{
    let mut text = vis_text(&svc.vis);
    text.append("async fn ");
    text.append(method.sig.ident.as_str());
    text.append(" ");
    text.append(client_params(svc, method).as_str());
    text.append(" -> < T :: Error as :: myelin :: TransportResult < ");
    text.append(return_type(&method.ret).as_str());
    text.append(" >> :: Output where T :: Error : :: myelin :: TransportResult < ");
    text.append(return_type(&method.ret).as_str());
    text.append(" > , { let result = self . transport . call (");
    text.append(request_ctor(svc, method).as_str());
    text.append(") . await ; :: myelin :: TransportResult :: into_output (result . map (| resp | match resp { ");
    text.append(response_arm(svc, method).as_str());
    text.append(" , # [allow (unreachable_patterns)] _ => unreachable ! () , })) } ");
    text
}

/// A method of the blocking client.
pub open spec fn client_sync_method_text(svc: ServiceTrait, method: ServiceMethod) -> Seq<char> {
    vis_prefix(svc.vis@) +
        "fn "@ +
        method.sig.ident@ +
        " "@ +
        client_params_text(svc, method) +
        " -> < T :: Error as :: myelin :: TransportResult < "@ +
        return_type_text(method.ret) +
        " >> :: Output where T :: Error : :: myelin :: TransportResult < "@ +
        return_type_text(method.ret) +
        " > , { self . block_on . block_on (self . inner . "@ +
        method.sig.ident@ +
        " ("@ +
        crate::text::join(argument_names(method.args@), " , "@) +
        ")) } "@
}

/// A method of the blocking client.
fn client_sync_method(svc: &ServiceTrait, method: &ServiceMethod) -> (text: String)
    ensures
        text@ == client_sync_method_text(*svc, *method),
{
    let mut text = vis_text(&svc.vis);
    text.append("fn ");
    text.append(method.sig.ident.as_str());
    text.append(" ");
    text.append(client_params(svc, method).as_str());
    text.append(" -> < T :: Error as :: myelin :: TransportResult < ");
    text.append(return_type(&method.ret).as_str());
    text.append(" >> :: Output where T :: Error : :: myelin :: TransportResult < ");
    text.append(return_type(&method.ret).as_str());
    text.append(" > , { self . block_on . block_on (self . inner . ");
    text.append(method.sig.ident.as_str());
    text.append(" (");
    text.append(join_texts(&names(&method.args), " , ").as_str());
    text.append(")) } ");
    text
}

/// What follows a call that is awaited.
pub open spec fn await_suffix_text(awaited: bool) -> Seq<char> {
    if awaited {
        " . await"@
    } else {
        ""@
    }
}

/// What follows a call that is awaited.
fn await_suffix(awaited: bool) -> (text: &'static str)
    ensures
        text@ == await_suffix_text(awaited),
{
    if awaited {
        " . await"
    } else {
        ""
    }
}

/// A match arm of a dispatch function.
pub open spec fn dispatch_arm_text(svc: ServiceTrait, method: ServiceMethod, awaited: bool) -> Seq<char> {
    if method.ret is Unit {
        request_ctor_text(svc, method) +
            " => { svc . "@ +
            method.sig.ident@ +
            " ("@ +
            crate::text::join(argument_names(method.args@), " , "@) +
            ")"@ +
            await_suffix_text(awaited) +
            " ; "@ +
            svc.stem@ +
            "Response :: "@ +
            method.variant_ident@ +
            " } , "@
    } else {
        request_ctor_text(svc, method) +
            " => "@ +
            svc.stem@ +
            "Response :: "@ +
            method.variant_ident@ +
            " (svc . "@ +
            method.sig.ident@ +
            " ("@ +
            crate::text::join(argument_names(method.args@), " , "@) +
            ")"@ +
            await_suffix_text(awaited) +
            ") , "@
    }
}

/// A match arm of a dispatch function.
fn dispatch_arm(svc: &ServiceTrait, method: &ServiceMethod, awaited: bool) -> (text: String)
    ensures
        text@ == dispatch_arm_text(*svc, *method, awaited),
{
    if matches!(method.ret, ReturnKind::Unit) {
        let mut text = request_ctor(svc, method).as_str().to_owned();
        text.append(" => { svc . ");
        text.append(method.sig.ident.as_str());
        text.append(" (");
        text.append(join_texts(&names(&method.args), " , ").as_str());
        text.append(")");
        text.append(await_suffix(awaited));
        text.append(" ; ");
        text.append(svc.stem.as_str());
        text.append("Response :: ");
        text.append(method.variant_ident.as_str());
        text.append(" } , ");
        text
    } else {
        let mut text = request_ctor(svc, method).as_str().to_owned();
        text.append(" => ");
        text.append(svc.stem.as_str());
        text.append("Response :: ");
        text.append(method.variant_ident.as_str());
        text.append(" (svc . ");
        text.append(method.sig.ident.as_str());
        text.append(" (");
        text.append(join_texts(&names(&method.args), " , ").as_str());
        text.append(")");
        text.append(await_suffix(awaited));
        text.append(") , ");
        text
    }
}

/// The attributes that stand inside (or not) of what they belong to, each
/// with a space behind it.
pub open spec fn attrs_text(attrs: Seq<Attr>, inner: bool) -> Seq<char>
    decreases attrs.len(),
{
    if attrs.len() == 0 {
        Seq::empty()
    } else if attrs.last().inner == inner {
        attrs_text(attrs.drop_last(), inner) + attrs.last().text@ + " "@
    } else {
        attrs_text(attrs.drop_last(), inner)
    }
}

/// The attributes that stand inside (or not) of what they belong to.
fn attrs(list: &Vec<Attr>, inner: bool) -> (text: String)
    ensures
        text@ == attrs_text(list@, inner),
{
    let mut text = String::new();
    let mut i: usize = 0;
    while i < list.len()
        invariant
            i <= list@.len(),
            text@ == attrs_text(list@.take(i as int), inner),
        decreases list.len() - i,
    {
        assert(list@.take(i + 1).drop_last() =~= list@.take(i as int));
        if list[i].inner == inner {
            text.append(list[i].text.as_str());
            text.append(" ");
        }
        i = i + 1;
    }
    assert(list@.take(list@.len() as int) =~= list@);
    text
}

/// The arrow and the return type of a signature.
pub open spec fn arrow_output_text(ret: ReturnKind) -> Seq<char> {
    match ret {
        ReturnKind::Unit => ""@,
        ReturnKind::Type(ty) => " -> "@ + ty@,
    }
}

/// The arrow and the return type of a signature.
fn arrow_output(ret: &ReturnKind) -> (text: String)
    ensures
        text@ == arrow_output_text(*ret),
{
    match ret {
        ReturnKind::Unit => "".to_owned(),
        ReturnKind::Type(ty) => {
            let mut text = " -> ".to_owned();
            text.append(ty.as_str());
            text
        },
    }
}

/// A function of the synchronous trait.
pub open spec fn sync_method_text(svc: ServiceTrait, method: ServiceMethod) -> Seq<char> {
    attrs_text(method.sig.attrs@, false) +
        "fn "@ +
        method.sig.ident@ +
        " ("@ +
        method.sig.params@ +
        ")"@ +
        arrow_output_text(method.ret) +
        " ; "@
}

/// A function of the synchronous trait.
fn sync_method(svc: &ServiceTrait, method: &ServiceMethod) -> (text: String)
    ensures
        text@ == sync_method_text(*svc, *method),
{
    let mut text = attrs(&method.sig.attrs, false);
    text.append("fn ");
    text.append(method.sig.ident.as_str());
    text.append(" (");
    text.append(method.sig.params.as_str());
    text.append(")");
    text.append(arrow_output(&method.ret).as_str());
    text.append(" ; ");
    text
}

/// What is generated once for every function of a service.
#[derive(Clone, Copy, PartialEq, Eq, Structural)]
pub enum Part {
    /// A variant of the request enum.
    RequestVariant,
    /// A variant of the response enum.
    ResponseVariant,
    /// A method of the client.
    Client,
    /// A method of the blocking client.
    ClientSync,
    /// An arm of the dispatch function.
    Dispatch,
    /// An arm of the synchronous dispatch function.
    DispatchSync,
    /// A function of the synchronous trait.
    SyncTrait,
}

/// What is generated for one function.
pub open spec fn part_text(part: Part, svc: ServiceTrait, method: ServiceMethod) -> Seq<char> {
    match part {
        Part::RequestVariant => request_variant_text(svc, method),
        Part::ResponseVariant => response_variant_text(svc, method),
        Part::Client => client_method_text(svc, method),
        Part::ClientSync => client_sync_method_text(svc, method),
        Part::Dispatch => dispatch_arm_text(svc, method, method.is_async),
        Part::DispatchSync => dispatch_arm_text(svc, method, false),
        Part::SyncTrait => sync_method_text(svc, method),
    }
}

/// What is generated for the functions of a service, in their order.
pub open spec fn parts_text(part: Part, svc: ServiceTrait) -> Seq<char> {
    crate::text::concat(
        Seq::new(svc.methods@.len(), |i: int| part_text(part, svc, svc.methods@[i])),
    )
}

/// What is generated for the functions of a service.
fn parts(part: Part, svc: &ServiceTrait) -> (text: String)
    ensures
        text@ == parts_text(part, *svc),
{
    let mut list: Vec<String> = Vec::new();
    let mut i: usize = 0;
    while i < svc.methods.len()
        invariant
            i <= svc.methods@.len(),
            list@.len() == i,
            forall|j: int|
                0 <= j < i ==> (#[trigger] list@[j])@ == part_text(part, *svc, svc.methods@[j]),
        decreases svc.methods.len() - i,
    {
        let method = &svc.methods[i];
        let piece = match part {
            Part::RequestVariant => request_variant(svc, method),
            Part::ResponseVariant => response_variant(svc, method),
            Part::Client => client_method(svc, method),
            Part::ClientSync => client_sync_method(svc, method),
            Part::Dispatch => dispatch_arm(svc, method, method.is_async),
            Part::DispatchSync => dispatch_arm(svc, method, false),
            Part::SyncTrait => sync_method(svc, method),
        };
        list.push(piece);
        i = i + 1;
    }
    assert(crate::text::texts(list@) =~= Seq::new(
        svc.methods@.len(),
        |i: int| part_text(part, *svc, svc.methods@[i]),
    ));
    concat_texts(&list)
}

/// The `{Stem}Request` enum.
pub open spec fn request_enum_text(svc: ServiceTrait) -> Seq<char> {
    "# [derive (Debug)] # [cfg_attr (feature = \"serde\" , derive (serde :: Serialize , serde :: Deserialize))] "@ +
        vis_prefix(svc.vis@) +
        "enum "@ +
        svc.stem@ +
        "Request { "@ +
        parts_text(Part::RequestVariant, svc) +
        "}"@
}

/// The `{Stem}Request` enum: one variant per function, with a field per parameter.
pub fn request_enum(svc: &ServiceTrait) -> (text: String)
    ensures
        text@ == request_enum_text(*svc),
{
    let mut text = "# [derive (Debug)] # [cfg_attr (feature = \"serde\" , derive (serde :: Serialize , serde :: Deserialize))] ".to_owned();
    text.append(vis_text(&svc.vis).as_str());
    text.append("enum ");
    text.append(svc.stem.as_str());
    text.append("Request { ");
    text.append(parts(Part::RequestVariant, svc).as_str());
    text.append("}");
    text
}

/// The `{Stem}Response` enum.
pub open spec fn response_enum_text(svc: ServiceTrait) -> Seq<char> {
    "# [derive (Debug)] # [cfg_attr (feature = \"serde\" , derive (serde :: Serialize , serde :: Deserialize))] "@ +
        vis_prefix(svc.vis@) +
        "enum "@ +
        svc.stem@ +
        "Response { "@ +
        parts_text(Part::ResponseVariant, svc) +
        "}"@
}

/// The `{Stem}Response` enum: one variant per function, around its return type.
pub fn response_enum(svc: &ServiceTrait) -> (text: String)
    ensures
        text@ == response_enum_text(*svc),
{
    let mut text = "# [derive (Debug)] # [cfg_attr (feature = \"serde\" , derive (serde :: Serialize , serde :: Deserialize))] ".to_owned();
    text.append(vis_text(&svc.vis).as_str());
    text.append("enum ");
    text.append(svc.stem.as_str());
    text.append("Response { ");
    text.append(parts(Part::ResponseVariant, svc).as_str());
    text.append("}");
    text
}

/// The trait as it was written.
pub open spec fn async_trait_text(svc: ServiceTrait) -> Seq<char> {
    svc.item.text@
}

/// The trait as it was written.
pub fn async_trait(svc: &ServiceTrait) -> (text: String)
    ensures
        text@ == async_trait_text(*svc),
{
    svc.item.text.clone()
}

/// The `{Stem}ServiceSync` trait.
pub open spec fn sync_trait_text(svc: ServiceTrait) -> Seq<char> {
    attrs_text(svc.item.attrs@, false) +
        vis_prefix(svc.vis@) +
        "trait "@ +
        svc.stem@ +
        "ServiceSync { "@ +
        attrs_text(svc.item.attrs@, true) +
        parts_text(Part::SyncTrait, svc) +
        "}"@
}

/// The `{Stem}ServiceSync` trait: the same functions, none of them `async`.
pub fn sync_trait(svc: &ServiceTrait) -> (text: String)
    ensures
        text@ == sync_trait_text(*svc),
{
    let mut text = attrs(&svc.item.attrs, false);
    text.append(vis_text(&svc.vis).as_str());
    text.append("trait ");
    text.append(svc.stem.as_str());
    text.append("ServiceSync { ");
    text.append(attrs(&svc.item.attrs, true).as_str());
    text.append(parts(Part::SyncTrait, svc).as_str());
    text.append("}");
    text
}

/// The `{Stem}Client` struct and its methods.
pub open spec fn client_struct_text(svc: ServiceTrait) -> Seq<char> {
    vis_prefix(svc.vis@) +
        "struct "@ +
        svc.stem@ +
        "Client < T > { transport : T , } impl < T > "@ +
        svc.stem@ +
        "Client < T > where T : :: myelin :: ClientTransport < "@ +
        svc.stem@ +
        "Request , "@ +
        svc.stem@ +
        "Response > , { "@ +
        vis_prefix(svc.vis@) +
        "fn new (transport : T) -> Self { Self { transport } } "@ +
        parts_text(Part::Client, svc) +
        "}"@
}

/// The `{Stem}Client` struct and its methods, which call through a transport.
pub fn client_struct(svc: &ServiceTrait) -> (text: String)
    ensures
        text@ == client_struct_text(*svc),
{
    let mut text = vis_text(&svc.vis);
    text.append("struct ");
    text.append(svc.stem.as_str());
    text.append("Client < T > { transport : T , } impl < T > ");
    text.append(svc.stem.as_str());
    text.append("Client < T > where T : :: myelin :: ClientTransport < ");
    text.append(svc.stem.as_str());
    text.append("Request , ");
    text.append(svc.stem.as_str());
    text.append("Response > , { ");
    text.append(vis_text(&svc.vis).as_str());
    text.append("fn new (transport : T) -> Self { Self { transport } } ");
    text.append(parts(Part::Client, svc).as_str());
    text.append("}");
    text
}

/// The `{Stem}ClientSync` struct and its methods.
pub open spec fn client_sync_struct_text(svc: ServiceTrait) -> Seq<char> {
    vis_prefix(svc.vis@) +
        "struct "@ +
        svc.stem@ +
        "ClientSync < T , B > { inner : "@ +
        svc.stem@ +
        "Client < T > , block_on : B , } impl < T , B > "@ +
        svc.stem@ +
        "ClientSync < T , B > where T : :: myelin :: ClientTransport < "@ +
        svc.stem@ +
        "Request , "@ +
        svc.stem@ +
        "Response > , B : :: myelin :: BlockOn , { "@ +
        vis_prefix(svc.vis@) +
        "fn new (inner : "@ +
        svc.stem@ +
        "Client < T > , block_on : B) -> Self { Self { inner , block_on } } "@ +
        parts_text(Part::ClientSync, svc) +
        "}"@
}

/// The `{Stem}ClientSync` struct and its methods, which block on the client's.
pub fn client_sync_struct(svc: &ServiceTrait) -> (text: String)
    ensures
        text@ == client_sync_struct_text(*svc),
{
    let mut text = vis_text(&svc.vis);
    text.append("struct ");
    text.append(svc.stem.as_str());
    text.append("ClientSync < T , B > { inner : ");
    text.append(svc.stem.as_str());
    text.append("Client < T > , block_on : B , } impl < T , B > ");
    text.append(svc.stem.as_str());
    text.append("ClientSync < T , B > where T : :: myelin :: ClientTransport < ");
    text.append(svc.stem.as_str());
    text.append("Request , ");
    text.append(svc.stem.as_str());
    text.append("Response > , B : :: myelin :: BlockOn , { ");
    text.append(vis_text(&svc.vis).as_str());
    text.append("fn new (inner : ");
    text.append(svc.stem.as_str());
    text.append("Client < T > , block_on : B) -> Self { Self { inner , block_on } } ");
    text.append(parts(Part::ClientSync, svc).as_str());
    text.append("}");
    text
}

/// The `{stem}_dispatch` function.
pub open spec fn dispatch_fn_text(svc: ServiceTrait) -> Seq<char> {
    vis_prefix(svc.vis@) +
        "async fn "@ +
        crate::codegen::casing::cased(svc.stem@, WordCase::Snake) +
        "_dispatch < S : "@ +
        svc.item.ident@ +
        " > (svc : & S , req : "@ +
        svc.stem@ +
        "Request) -> "@ +
        svc.stem@ +
        "Response { match req { "@ +
        parts_text(Part::Dispatch, svc) +
        "} }"@
}

/// The `{stem}_dispatch` function: from a request to its response.
pub fn dispatch_fn(svc: &ServiceTrait) -> (text: String)
    ensures
        text@ == dispatch_fn_text(*svc),
{
    let mut text = vis_text(&svc.vis);
    text.append("async fn ");
    text.append(to_case(svc.stem.as_str(), WordCase::Snake).as_str());
    text.append("_dispatch < S : ");
    text.append(svc.item.ident.as_str());
    text.append(" > (svc : & S , req : ");
    text.append(svc.stem.as_str());
    text.append("Request) -> ");
    text.append(svc.stem.as_str());
    text.append("Response { match req { ");
    text.append(parts(Part::Dispatch, svc).as_str());
    text.append("} }");
    text
}

/// The `{stem}_dispatch_sync` function.
pub open spec fn dispatch_sync_fn_text(svc: ServiceTrait) -> Seq<char> {
    vis_prefix(svc.vis@) +
        "fn "@ +
        crate::codegen::casing::cased(svc.stem@, WordCase::Snake) +
        "_dispatch_sync < S : "@ +
        svc.stem@ +
        "ServiceSync > (svc : & S , req : "@ +
        svc.stem@ +
        "Request) -> "@ +
        svc.stem@ +
        "Response { match req { "@ +
        parts_text(Part::DispatchSync, svc) +
        "} }"@
}

/// The `{stem}_dispatch_sync` function: from a request to its response, without awaiting.
pub fn dispatch_sync_fn(svc: &ServiceTrait) -> (text: String)
    ensures
        text@ == dispatch_sync_fn_text(*svc),
{
    let mut text = vis_text(&svc.vis);
    text.append("fn ");
    text.append(to_case(svc.stem.as_str(), WordCase::Snake).as_str());
    text.append("_dispatch_sync < S : ");
    text.append(svc.stem.as_str());
    text.append("ServiceSync > (svc : & S , req : ");
    text.append(svc.stem.as_str());
    text.append("Request) -> ");
    text.append(svc.stem.as_str());
    text.append("Response { match req { ");
    text.append(parts(Part::DispatchSync, svc).as_str());
    text.append("} }");
    text
}

/// The `{stem}_serve` function.
pub open spec fn serve_fn_text(svc: ServiceTrait) -> Seq<char> {
    vis_prefix(svc.vis@) +
        "async fn "@ +
        crate::codegen::casing::cased(svc.stem@, WordCase::Snake) +
        "_serve < S , T > (svc : & S , transport : & mut T) -> :: core :: result :: Result < () , T :: Error > where S : "@ +
        svc.item.ident@ +
        " , T : :: myelin :: ServerTransport < "@ +
        svc.stem@ +
        "Request , "@ +
        svc.stem@ +
        "Response > , { loop { let (req , token) = transport . recv () . await ? ; let resp = "@ +
        crate::codegen::casing::cased(svc.stem@, WordCase::Snake) +
        "_dispatch (svc , req) . await ; let _ = transport . reply (token , resp) . await ; } }"@
}

/// The `{stem}_serve` function: receives, dispatches and replies until the transport fails.
pub fn serve_fn(svc: &ServiceTrait) -> (text: String)
    ensures
        text@ == serve_fn_text(*svc),
{
    let mut text = vis_text(&svc.vis);
    text.append("async fn ");
    text.append(to_case(svc.stem.as_str(), WordCase::Snake).as_str());
    text.append("_serve < S , T > (svc : & S , transport : & mut T) -> :: core :: result :: Result < () , T :: Error > where S : ");
    text.append(svc.item.ident.as_str());
    text.append(" , T : :: myelin :: ServerTransport < ");
    text.append(svc.stem.as_str());
    text.append("Request , ");
    text.append(svc.stem.as_str());
    text.append("Response > , { loop { let (req , token) = transport . recv () . await ? ; let resp = ");
    text.append(to_case(svc.stem.as_str(), WordCase::Snake).as_str());
    text.append("_dispatch (svc , req) . await ; let _ = transport . reply (token , resp) . await ; } }");
    text
}

/// The `{stem}_serve_sync` function.
pub open spec fn serve_sync_fn_text(svc: ServiceTrait) -> Seq<char> {
    vis_prefix(svc.vis@) +
        "fn "@ +
        crate::codegen::casing::cased(svc.stem@, WordCase::Snake) +
        "_serve_sync < S , T , B > (svc : & S , transport : & mut T , block_on : & B ,) -> :: core :: result :: Result < () , T :: Error > where S : "@ +
        svc.stem@ +
        "ServiceSync , T : :: myelin :: ServerTransport < "@ +
        svc.stem@ +
        "Request , "@ +
        svc.stem@ +
        "Response > , B : :: myelin :: BlockOn , { loop { let (req , token) = block_on . block_on (transport . recv ()) ? ; let resp = "@ +
        crate::codegen::casing::cased(svc.stem@, WordCase::Snake) +
        "_dispatch_sync (svc , req) ; let _ = block_on . block_on (transport . reply (token , resp)) ; } }"@
}

/// The `{stem}_serve_sync` function: the serve loop on a blocking executor.
pub fn serve_sync_fn(svc: &ServiceTrait) -> (text: String)
    ensures
        text@ == serve_sync_fn_text(*svc),
{
    let mut text = vis_text(&svc.vis);
    text.append("fn ");
    text.append(to_case(svc.stem.as_str(), WordCase::Snake).as_str());
    text.append("_serve_sync < S , T , B > (svc : & S , transport : & mut T , block_on : & B ,) -> :: core :: result :: Result < () , T :: Error > where S : ");
    text.append(svc.stem.as_str());
    text.append("ServiceSync , T : :: myelin :: ServerTransport < ");
    text.append(svc.stem.as_str());
    text.append("Request , ");
    text.append(svc.stem.as_str());
    text.append("Response > , B : :: myelin :: BlockOn , { loop { let (req , token) = block_on . block_on (transport . recv ()) ? ; let resp = ");
    text.append(to_case(svc.stem.as_str(), WordCase::Snake).as_str());
    text.append("_dispatch_sync (svc , req) ; let _ = block_on . block_on (transport . reply (token , resp)) ; } }");
    text
}

/// The `{Stem}TokioService` alias.
pub open spec fn tokio_transport_alias_text(svc: ServiceTrait) -> Seq<char> {
    vis_prefix(svc.vis@) +
        "type "@ +
        svc.stem@ +
        "TokioService = :: myelin :: transport_tokio :: TokioService < "@ +
        svc.stem@ +
        "Request , "@ +
        svc.stem@ +
        "Response > ;"@
}

/// The `{Stem}TokioService` alias.
pub fn tokio_transport_alias(svc: &ServiceTrait) -> (text: String)
    ensures
        text@ == tokio_transport_alias_text(*svc),
{
    let mut text = vis_text(&svc.vis);
    text.append("type ");
    text.append(svc.stem.as_str());
    text.append("TokioService = :: myelin :: transport_tokio :: TokioService < ");
    text.append(svc.stem.as_str());
    text.append("Request , ");
    text.append(svc.stem.as_str());
    text.append("Response > ;");
    text
}

/// The aliases for embassy transports.
pub open spec fn embassy_transport_aliases_text(svc: ServiceTrait) -> Seq<char> {
    vis_prefix(svc.vis@) +
        "type "@ +
        svc.stem@ +
        "EmbassyService < M , const CHANNEL_DEPTH : usize > = :: myelin :: transport_embassy :: EmbassyService < M , "@ +
        svc.stem@ +
        "Request , "@ +
        svc.stem@ +
        "Response , CHANNEL_DEPTH > ; "@ +
        vis_prefix(svc.vis@) +
        "type "@ +
        svc.stem@ +
        "EmbassyClientTransport < 'a , M , const CHANNEL_DEPTH : usize > = :: myelin :: transport_embassy :: EmbassyClient < 'a , M , "@ +
        svc.stem@ +
        "Request , "@ +
        svc.stem@ +
        "Response , CHANNEL_DEPTH > ;"@
}

/// The `{Stem}EmbassyService` and `{Stem}EmbassyClientTransport` aliases.
pub fn embassy_transport_aliases(svc: &ServiceTrait) -> (text: String)
    ensures
        text@ == embassy_transport_aliases_text(*svc),
{
    let mut text = vis_text(&svc.vis);
    text.append("type ");
    text.append(svc.stem.as_str());
    text.append("EmbassyService < M , const CHANNEL_DEPTH : usize > = :: myelin :: transport_embassy :: EmbassyService < M , ");
    text.append(svc.stem.as_str());
    text.append("Request , ");
    text.append(svc.stem.as_str());
    text.append("Response , CHANNEL_DEPTH > ; ");
    text.append(vis_text(&svc.vis).as_str());
    text.append("type ");
    text.append(svc.stem.as_str());
    text.append("EmbassyClientTransport < 'a , M , const CHANNEL_DEPTH : usize > = :: myelin :: transport_embassy :: EmbassyClient < 'a , M , ");
    text.append(svc.stem.as_str());
    text.append("Request , ");
    text.append(svc.stem.as_str());
    text.append("Response , CHANNEL_DEPTH > ;");
    text
}

/// The static that holds an embassy service.
pub open spec fn static_service_text(svc: ServiceTrait) -> Seq<char> {
    "[< __"@ +
        crate::codegen::casing::cased(svc.stem@, WordCase::Constant) +
        "_SERVICE_ $ name : upper >]"@
}

/// The static that holds an embassy service.
fn static_service(svc: &ServiceTrait) -> (text: String)
    ensures
        text@ == static_service_text(*svc),
{
    let mut text = "[< __".to_owned();
    text.append(to_case(svc.stem.as_str(), WordCase::Constant).as_str());
    text.append("_SERVICE_ $ name : upper >]");
    text
}

/// A client of an embassy service, in a cell of its own.
pub open spec fn embassy_client_text(svc: ServiceTrait) -> Seq<char> {
    "static CELL : :: myelin :: static_cell :: StaticCell < :: myelin :: transport_embassy :: EmbassyClient < 'static , $ mutex , "@ +
        svc.stem@ +
        "Request , "@ +
        svc.stem@ +
        "Response , $ depth , > , > = :: myelin :: static_cell :: StaticCell :: new () ; "@
}

/// A client of an embassy service, in a cell of its own.
fn embassy_client(svc: &ServiceTrait) -> (text: String)
    ensures
        text@ == embassy_client_text(*svc),
{
    let mut text = "static CELL : :: myelin :: static_cell :: StaticCell < :: myelin :: transport_embassy :: EmbassyClient < 'static , $ mutex , ".to_owned();
    text.append(svc.stem.as_str());
    text.append("Request , ");
    text.append(svc.stem.as_str());
    text.append("Response , $ depth , > , > = :: myelin :: static_cell :: StaticCell :: new () ; ");
    text
}

/// The `{stem}_embassy_service!` macro.
pub open spec fn embassy_instantiation_text(svc: ServiceTrait) -> Seq<char> {
    "# [macro_export] macro_rules ! "@ +
        crate::codegen::casing::cased(svc.stem@, WordCase::Snake) +
        "_embassy_service { ($ name : ident , $ mutex : ty , $ depth : expr) => { :: myelin :: paste :: paste ! { static "@ +
        static_service_text(svc) +
        " : :: myelin :: transport_embassy :: EmbassyService < $ mutex , "@ +
        svc.stem@ +
        "Request , "@ +
        svc.stem@ +
        "Response , $ depth , > = :: myelin :: transport_embassy :: EmbassyService :: new () ; macro_rules ! [< $ name _client >] { () => { { "@ +
        embassy_client_text(svc) +
        svc.stem@ +
        "Client :: new (& * CELL . init ("@ +
        static_service_text(svc) +
        " . client () ,) ,) } } ; } macro_rules ! [< $ name _server >] { () => { "@ +
        static_service_text(svc) +
        " . server () } ; } macro_rules ! [< $ name _client_sync >] { ($ block_on : expr) => { { "@ +
        embassy_client_text(svc) +
        svc.stem@ +
        "ClientSync :: new ("@ +
        svc.stem@ +
        "Client :: new (& * CELL . init ("@ +
        static_service_text(svc) +
        " . client () ,) ,) , $ block_on ,) } } ; } } } ; }"@
}

/// The `{stem}_embassy_service!` macro: a static service, and macros for its ends.
pub fn embassy_instantiation(svc: &ServiceTrait) -> (text: String)
    ensures
        text@ == embassy_instantiation_text(*svc),
{
    let mut text = "# [macro_export] macro_rules ! ".to_owned();
    text.append(to_case(svc.stem.as_str(), WordCase::Snake).as_str());
    text.append("_embassy_service { ($ name : ident , $ mutex : ty , $ depth : expr) => { :: myelin :: paste :: paste ! { static ");
    text.append(static_service(svc).as_str());
    text.append(" : :: myelin :: transport_embassy :: EmbassyService < $ mutex , ");
    text.append(svc.stem.as_str());
    text.append("Request , ");
    text.append(svc.stem.as_str());
    text.append("Response , $ depth , > = :: myelin :: transport_embassy :: EmbassyService :: new () ; macro_rules ! [< $ name _client >] { () => { { ");
    text.append(embassy_client(svc).as_str());
    text.append(svc.stem.as_str());
    text.append("Client :: new (& * CELL . init (");
    text.append(static_service(svc).as_str());
    text.append(" . client () ,) ,) } } ; } macro_rules ! [< $ name _server >] { () => { ");
    text.append(static_service(svc).as_str());
    text.append(" . server () } ; } macro_rules ! [< $ name _client_sync >] { ($ block_on : expr) => { { ");
    text.append(embassy_client(svc).as_str());
    text.append(svc.stem.as_str());
    text.append("ClientSync :: new (");
    text.append(svc.stem.as_str());
    text.append("Client :: new (& * CELL . init (");
    text.append(static_service(svc).as_str());
    text.append(" . client () ,) ,) , $ block_on ,) } } ; } } } ; }");
    text
}

/// The 32-bit FNV-1a hash of `bytes`.
pub open spec fn fnv1a32(bytes: Seq<u8>) -> u32
    decreases bytes.len(),
{
    if bytes.len() == 0 {
        0x811c_9dc5
    } else {
        (((fnv1a32(bytes.drop_last()) ^ (bytes.last() as u32)) * 0x0100_0193) % 0x1_0000_0000) as u32
    }
}

/// The 32-bit FNV-1a hash, its halves folded together.
pub open spec fn fnv1a16_hash(bytes: Seq<u8>) -> u16 {
    ((fnv1a32(bytes) >> 16) ^ (fnv1a32(bytes) & 0xffff)) as u16
}

/// The 16-bit FNV-1a hash of a name.
pub fn fnv1a16(name: &str) -> (hash: u16)
    ensures
        hash == fnv1a16_hash(vstd::utf8::encode_utf8(name@)),
{
    let bytes = name.as_bytes();
    let mut hash: u32 = 0x811c_9dc5;
    let mut i: usize = 0;
    while i < bytes.len()
        invariant
            i <= bytes@.len(),
            bytes@ == vstd::utf8::encode_utf8(name@),
            hash == fnv1a32(bytes@.take(i as int)),
        decreases bytes.len() - i,
    {
        assert(bytes@.take(i + 1).drop_last() =~= bytes@.take(i as int));
        hash = (((hash ^ (bytes[i] as u32)) as u64 * 0x0100_0193) % 0x1_0000_0000) as u32;
        i = i + 1;
    }
    assert(bytes@.take(bytes@.len() as int) =~= bytes@);
    ((hash >> 16) ^ (hash & 0xffff)) as u16
}

/// The api id of a service: the one that was given, else a hash of the trait's
/// name.
pub open spec fn chosen_api_id(ident: Seq<char>, given: Option<u16>) -> u16 {
    match given {
        Some(id) => id,
        None => fnv1a16_hash(vstd::utf8::encode_utf8(ident)),
    }
}

/// The api id of a service.
pub fn choose_api_id(svc: &ServiceTrait, given: Option<u16>) -> (id: u16)
    ensures
        id == chosen_api_id(svc.item.ident@, given),
{
    match given {
        Some(id) => id,
        None => fnv1a16(svc.item.ident.as_str()),
    }
}

/// The `{STEM}_API_ID` constant.
pub open spec fn api_id_const_text(svc: ServiceTrait, api_id: Option<u16>) -> Seq<char> {
    "# [doc = \" Wire-level API identifier for the "@ +
        svc.stem@ +
        " service.\"] # [doc = \"\"] # [doc = \" A hash of the trait name, unless it is fixed with `#[myelin::service(api_id = 0x0001)]`.\"] "@ +
        vis_prefix(svc.vis@) +
        "const "@ +
        crate::codegen::casing::cased(svc.stem@, WordCase::Constant) +
        "_API_ID : u16 = "@ +
        crate::text::decimal(chosen_api_id(svc.item.ident@, api_id) as nat) +
        "u16 ;"@
}

/// The `{STEM}_API_ID` constant.
pub fn api_id_const(svc: &ServiceTrait, api_id: Option<u16>) -> (text: String)
    ensures
        text@ == api_id_const_text(*svc, api_id),
{
    let mut text = "# [doc = \" Wire-level API identifier for the ".to_owned();
    text.append(svc.stem.as_str());
    text.append(" service.\"] # [doc = \"\"] # [doc = \" A hash of the trait name, unless it is fixed with `#[myelin::service(api_id = 0x0001)]`.\"] ");
    text.append(vis_text(&svc.vis).as_str());
    text.append("const ");
    text.append(to_case(svc.stem.as_str(), WordCase::Constant).as_str());
    text.append("_API_ID : u16 = ");
    text.append(decimal_text(choose_api_id(svc, api_id) as u64).as_str());
    text.append("u16 ;");
    text
}

/// Which transports the generated code has aliases for.
#[derive(Clone, Copy, PartialEq, Eq, Structural)]
pub struct Transports {
    /// Whether there is a tokio transport.
    pub tokio: bool,
    /// Whether there is an embassy transport.
    pub embassy: bool,
}

/// `text` with a space behind it if it is `wanted`, else nothing.
pub open spec fn optional_text(wanted: bool, text: Seq<char>) -> Seq<char> {
    if wanted {
        text + " "@
    } else {
        Seq::empty()
    }
}

/// `text` with a space behind it.
fn spaced(text: String) -> (spaced: String)
    ensures
        spaced@ == text@ + " "@,
{
    let mut spaced = text;
    spaced.append(" ");
    spaced
}

/// All the code that is generated for a service.
pub open spec fn expansion_text(
    svc: ServiceTrait,
    api_id: Option<u16>,
    transports: Transports,
) -> Seq<char> {
    (request_enum_text(svc) + " "@) + (response_enum_text(svc) + " "@) + (async_trait_text(svc)
        + " "@) + (sync_trait_text(svc) + " "@) + (client_struct_text(svc) + " "@) + (
    client_sync_struct_text(svc) + " "@) + (dispatch_fn_text(svc) + " "@) + (dispatch_sync_fn_text(
        svc,
    ) + " "@) + (serve_fn_text(svc) + " "@) + (serve_sync_fn_text(svc) + " "@) + optional_text(
        transports.tokio,
        tokio_transport_alias_text(svc),
    ) + optional_text(transports.embassy, embassy_transport_aliases_text(svc)) + optional_text(
        transports.embassy,
        embassy_instantiation_text(svc),
    ) + api_id_const_text(svc, api_id)
}

/// Generates all the code for a service.
pub fn expansion(svc: &ServiceTrait, api_id: Option<u16>, transports: Transports) -> (text: String)
    ensures
        text@ == expansion_text(*svc, api_id, transports),
{
    let mut text = spaced(request_enum(svc));
    text.append(spaced(response_enum(svc)).as_str());
    text.append(spaced(async_trait(svc)).as_str());
    text.append(spaced(sync_trait(svc)).as_str());
    text.append(spaced(client_struct(svc)).as_str());
    text.append(spaced(client_sync_struct(svc)).as_str());
    text.append(spaced(dispatch_fn(svc)).as_str());
    text.append(spaced(dispatch_sync_fn(svc)).as_str());
    text.append(spaced(serve_fn(svc)).as_str());
    text.append(spaced(serve_sync_fn(svc)).as_str());
    let ghost aliases = optional_text(transports.tokio, tokio_transport_alias_text(*svc));
    let ghost before = text@;
    if transports.tokio {
        text.append(spaced(tokio_transport_alias(svc)).as_str());
    }
    assert(text@ =~= before + aliases);
    let ghost aliases = optional_text(transports.embassy, embassy_transport_aliases_text(*svc));
    let ghost instances = optional_text(transports.embassy, embassy_instantiation_text(*svc));
    let ghost before = text@;
    if transports.embassy {
        text.append(spaced(embassy_transport_aliases(svc)).as_str());
        text.append(spaced(embassy_instantiation(svc)).as_str());
    }
    assert(text@ =~= before + aliases + instances);
    text.append(api_id_const(svc, api_id).as_str());
    text
}

/// An api id that is given takes the place of the hash.
pub proof fn law_given_id_is_used(ident: Seq<char>, id: u16)
    ensures
        chosen_api_id(ident, Some(id)) == id,
        chosen_api_id(ident, None) == fnv1a16_hash(vstd::utf8::encode_utf8(ident)),
{
}

/// Dispatch awaits exactly the functions that are `async`: for any other one
/// both dispatch functions make the same call.
pub proof fn law_only_async_functions_are_awaited(svc: ServiceTrait, method: ServiceMethod)
    ensures
        part_text(Part::Dispatch, svc, method) == dispatch_arm_text(svc, method, method.is_async),
        part_text(Part::DispatchSync, svc, method) == dispatch_arm_text(svc, method, false),
        !method.is_async ==> part_text(Part::Dispatch, svc, method) == part_text(
            Part::DispatchSync,
            svc,
            method,
        ),
{
}

/// Whether `states` is what a 32-bit FNV-1a hash goes through on `bytes`: from
/// the offset basis, and for every byte, to the exclusive-or of the state and
/// the byte, times the FNV prime.
pub open spec fn hash_states(bytes: Seq<u8>, states: Seq<u32>) -> bool {
    &&& states.len() == bytes.len() + 1
    &&& states[0] == 2166136261
    &&& forall|i: int|
        0 <= i < bytes.len() ==> #[trigger] states[i + 1] == ((states[i] ^ (bytes[i] as u32))
            * 16777619) % 4294967296
}

/// The hash of a name takes in every byte of it, whatever its length: it is the
/// exclusive-or of the halves of the state behind the last byte.
pub proof fn law_hash_takes_in_every_byte(bytes: Seq<u8>)
    ensures
        exists|states: Seq<u32>| #[trigger] hash_states(bytes, states),
        forall|states: Seq<u32>| #[trigger]
            hash_states(bytes, states) ==> fnv1a16_hash(bytes) as u32 == (states.last() / 65536u32)
                as u32 ^ (states.last() % 65536u32) as u32,
{
    lemma_hash_states(bytes);
    assert forall|states: Seq<u32>| #[trigger] hash_states(bytes, states) implies fnv1a16_hash(
        bytes,
    ) as u32 == (states.last() / 65536u32) as u32 ^ (states.last() % 65536u32) as u32 by {
        let h = states.last();
        assert(h == fnv1a32(bytes));
        assert((((h >> 16) ^ (h & 0xffff)) as u16) as u32 == (h / 65536u32) ^ (h % 65536u32))
            by (bit_vector);
    }
}

proof fn lemma_hash_states(bytes: Seq<u8>)
    ensures
        exists|states: Seq<u32>| #[trigger] hash_states(bytes, states),
        forall|states: Seq<u32>| #[trigger]
            hash_states(bytes, states) ==> states.last() == fnv1a32(bytes),
    decreases bytes.len(),
{
    if bytes.len() == 0 {
        let states = seq![2166136261u32];
        assert(hash_states(bytes, states));
    } else {
        let front = bytes.drop_last();
        lemma_hash_states(front);
        let before = choose|states: Seq<u32>| #[trigger] hash_states(front, states);
        let states = before.push(fnv1a32(bytes));
        assert forall|i: int| 0 <= i < bytes.len() implies #[trigger] states[i + 1] == ((states[i]
            ^ (bytes[i] as u32)) * 16777619) % 4294967296 by {
            if i < front.len() {
                assert(before[i + 1] == ((before[i] ^ (front[i] as u32)) * 16777619) % 4294967296);
            } else {
                assert(before.last() == fnv1a32(front));
            }
        }
        assert(hash_states(bytes, states));
        assert forall|states: Seq<u32>| #[trigger] hash_states(bytes, states) implies states.last()
            == fnv1a32(bytes) by {
            let before = states.drop_last();
            assert forall|i: int| 0 <= i < front.len() implies #[trigger] before[i + 1] == ((
            before[i] ^ (front[i] as u32)) * 16777619) % 4294967296 by {
                assert(states[i + 1] == ((states[i] ^ (bytes[i] as u32)) * 16777619) % 4294967296);
            }
            assert(hash_states(front, before));
            let n = bytes.len() - 1;
            assert(states[n + 1] == ((states[n] ^ (bytes[n] as u32)) * 16777619) % 4294967296);
        }
    }
}

/// Names that differ in one byte have different 32-bit hashes, whatever stands
/// before and after it.
pub proof fn law_no_byte_is_lost(before: Seq<u8>, one: u8, other: u8, after: Seq<u8>)
    requires
        one != other,
    ensures
        fnv1a32(before.push(one) + after) != fnv1a32(before.push(other) + after),
    decreases after.len(),
{
    if after.len() == 0 {
        let a = before.push(one);
        let b = before.push(other);
        assert(a + after =~= a);
        assert(b + after =~= b);
        assert(a.drop_last() =~= before);
        assert(b.drop_last() =~= before);
        let h = fnv1a32(before);
        lemma_step_is_injective(h, one, h, other);
    } else {
        let a = before.push(one) + after;
        let b = before.push(other) + after;
        let front = after.drop_last();
        law_no_byte_is_lost(before, one, other, front);
        assert(a.drop_last() =~= before.push(one) + front);
        assert(b.drop_last() =~= before.push(other) + front);
        lemma_step_is_injective(
            fnv1a32(a.drop_last()),
            after.last(),
            fnv1a32(b.drop_last()),
            after.last(),
        );
    }
}

proof fn lemma_step_is_injective(h: u32, x: u8, k: u32, y: u8)
    requires
        (h == k) != (x == y),
    ensures
        ((h ^ (x as u32)) * 0x0100_0193) % 0x1_0000_0000 != ((k ^ (y as u32)) * 0x0100_0193)
            % 0x1_0000_0000,
{
    let a = h ^ (x as u32);
    let b = k ^ (y as u32);
    assert(a != b) by {
        assert(h == k && x != y ==> h ^ (x as u32) != k ^ (y as u32)) by (bit_vector);
        assert(h != k && x == y ==> h ^ (x as u32) != k ^ (y as u32)) by (bit_vector);
    }
    // The prime times 0x359c_449b is one more than 3513497 times 2^32.
    let p: int = 0x0100_0193;
    let q: int = 0x359c_449b;
    let m: int = 0x1_0000_0000;
    assert(p * q == 1 + 3513497 * m);
    if (a * p) % m == (b * p) % m {
        let u = (a * p) / m;
        let v = (b * p) / m;
        let d = a - b;
        assert(d * p == (u - v) * m) by (nonlinear_arith)
            requires
                a * p == u * m + (a * p) % m,
                b * p == v * m + (b * p) % m,
                (a * p) % m == (b * p) % m,
                d == a - b,
        ;
        assert(d + 3513497 * m * d == (u - v) * q * m) by (nonlinear_arith)
            requires
                d * p == (u - v) * m,
                p * q == 1 + 3513497 * m,
        ;
        let w = (u - v) * q - 3513497 * d;
        assert(d == w * m) by (nonlinear_arith)
            requires
                d + 3513497 * m * d == (u - v) * q * m,
                w == (u - v) * q - 3513497 * d,
        ;
        assert(-m < d < m);
        assert(w == 0) by (nonlinear_arith)
            requires
                d == w * m,
                -m < d < m,
                m == 0x1_0000_0000,
        ;
    }
}

} // verus!
