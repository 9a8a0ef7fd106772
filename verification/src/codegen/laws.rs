//! What generated code does, stated over the tokens that are read from it.

use vstd::prelude::*;

use crate::codegen::casing::WordCase;
use crate::codegen::emit::{
    api_id_const_text, chosen_api_id, client_struct_text, client_sync_struct_text,
    dispatch_arm_text, dispatch_fn_text, dispatch_sync_fn_text, embassy_instantiation_text,
    embassy_transport_aliases_text, expansion_text, fnv1a16_hash, optional_text, part_text,
    request_enum_text, response_enum_text, serve_fn_text, serve_sync_fn_text,
    sync_trait_text, tokio_transport_alias_text, vis_prefix, Part, Transports,
};
use crate::codegen::parse::{ReturnKind, ServiceArg, ServiceMethod, ServiceTrait};
use crate::codegen::phrases::{
    cell_tokens, in_order, lemma_client_method, lemma_client_struct,
    lemma_client_sync_method, lemma_client_sync_struct, lemma_dispatch_arm,
    lemma_dispatch_fn, lemma_dispatch_sync_fn, lemma_embassy_instantiation,
    lemma_embassy_transport_aliases, lemma_request_enum, lemma_request_variant,
    lemma_response_enum, lemma_response_variant, lemma_serve_fn, lemma_serve_sync_fn,
    lemma_sync_method, lemma_sync_trait, lemma_tokio_transport_alias, named,
    named_function, payload, request_tokens, response_tokens, static_tokens,
};
use crate::codegen::syntax::MethodShape;
use crate::codegen::tokens::{
    all_tokens, attributes, awaiting, declared, edge, is_break, is_word, lemma_edged,
    lemma_read_joined, lemma_space, lemma_tokens_add, lemma_vis, passed, spread, tokens,
};

verus! {

/// Whether `t` can leave a function or a loop before its end.
pub open spec fn is_exit(t: Seq<char>) -> bool {
    t == "?"@ || t == "return"@ || t == "break"@ || t == "continue"@
}

/// A call of a transport, run to its end: awaited, or by a blocking executor.
pub open spec fn run(call: Seq<Seq<char>>, awaited: bool) -> Seq<Seq<char>> {
    if awaited {
        call + seq!["."@, "await"@]
    } else {
        seq!["block_on"@, "."@, "block_on"@, "("@] + call + seq![")"@]
    }
}

/// The names that a serve loop gives to what it handles.
pub struct ServeNames {
    /// The request.
    pub request: Seq<char>,
    /// The token to answer it.
    pub token: Seq<char>,
    /// The response.
    pub response: Seq<char>,
}

/// Receives a request and the token to answer it; a failure ends the loop.
pub open spec fn receive_statement(names: ServeNames, awaited: bool) -> Seq<Seq<char>> {
    seq!["let"@, "("@, names.request, ","@, names.token, ")"@, "="@] + run(
        seq!["transport"@, "."@, "recv"@, "("@, ")"@],
        awaited,
    ) + seq!["?"@, ";"@]
}

/// Hands the request to `dispatch`.
pub open spec fn dispatch_statement(
    names: ServeNames,
    dispatch: Seq<char>,
    awaited: bool,
) -> Seq<Seq<char>> {
    seq!["let"@, names.response, "="@, dispatch, "("@, "svc"@, ","@, names.request, ")"@]
        + awaiting(awaited) + seq![";"@]
}

/// Answers with the response; a failure is ignored.
pub open spec fn reply_statement(names: ServeNames, awaited: bool) -> Seq<Seq<char>> {
    seq!["let"@, "_"@, "="@] + run(
        seq!["transport"@, "."@, "reply"@, "("@, names.token, ","@, names.response, ")"@],
        awaited,
    ) + seq![";"@]
}

/// Whether `body` does nothing but receive, dispatch and reply, over and over.
pub open spec fn is_serve_loop(
    body: Seq<Seq<char>>,
    names: ServeNames,
    dispatch: Seq<char>,
    awaited: bool,
) -> bool {
    &&& names.request != names.token
    &&& names.response != names.token
    &&& body == seq!["{"@, "loop"@, "{"@] + receive_statement(names, awaited)
        + dispatch_statement(names, dispatch, awaited) + reply_statement(names, awaited) + seq![
        "}"@,
        "}"@,
    ]
}

/// Whether `body` can be left at the token `at` and nowhere else.
pub open spec fn leaves_only_at(body: Seq<Seq<char>>, at: int) -> bool {
    &&& 0 <= at < body.len()
    &&& forall|k: int| 0 <= k < body.len() ==> (is_exit(#[trigger] body[k]) <==> k == at)
}

/// Whether `ts` starts with `head`.
pub open spec fn starts_with(ts: Seq<Seq<char>>, head: Seq<Seq<char>>) -> bool {
    ts.len() >= head.len() && ts.take(head.len() as int) == head
}

/// A dispatch function and the serve function that calls it: `serve` is a loop
/// that hands every request to the function that `dispatch` declares, and that
/// ends with a failed receipt only.
pub open spec fn serves_with(
    serve: Seq<Seq<char>>,
    dispatch: Seq<Seq<char>>,
    vis: Seq<Seq<char>>,
    awaited: bool,
    head: Seq<Seq<char>>,
    body: Seq<Seq<char>>,
    names: ServeNames,
    name: Seq<char>,
) -> bool {
    &&& serve == vis + head + body
    &&& is_serve_loop(body, names, name, awaited)
    &&& leaves_only_at(body, 2 + receive_statement(names, awaited).len() - 1)
    &&& starts_with(
        dispatch,
        vis + if awaited {
            seq!["async"@, "fn"@, name]
        } else {
            seq!["fn"@, name]
        },
    )
}

/// What a serve function takes and returns: the service and the transport by
/// reference, and the error of the transport.
pub open spec fn serve_head(svc: ServiceTrait) -> Seq<Seq<char>> {
    seq![
        "async"@,
        "fn"@,
        crate::codegen::casing::cased(svc.stem@, WordCase::Snake) + "_serve"@,
        "<"@,
        "S"@,
        ","@,
        "T"@,
        ">"@,
        "("@,
        "svc"@,
        ":"@,
        "&"@,
        "S"@,
        ","@,
        "transport"@,
        ":"@,
        "&"@,
        "mut"@,
        "T"@,
        ")"@,
        "->"@,
        "::"@,
        "core"@,
        "::"@,
        "result"@,
        "::"@,
        "Result"@,
        "<"@,
        "("@,
        ")"@,
        ","@,
        "T"@,
        "::"@,
        "Error"@,
        ">"@,
        "where"@,
        "S"@,
        ":"@,
        svc.item.ident@,
        ","@,
        "T"@,
        ":"@,
        "::"@,
        "myelin"@,
        "::"@,
        "ServerTransport"@,
        "<"@,
        svc.stem@ + "Request"@,
        ","@,
        svc.stem@ + "Response"@,
        ">"@,
        ","@,
    ]
}

proof fn lemma_no_exits()
    ensures
        is_exit("?"@),
        !is_exit("{"@),
        !is_exit("}"@),
        !is_exit("loop"@),
        !is_exit("let"@),
        !is_exit("("@),
        !is_exit(")"@),
        !is_exit(","@),
        !is_exit(";"@),
        !is_exit("="@),
        !is_exit("."@),
        !is_exit("_"@),
        !is_exit("svc"@),
        !is_exit("await"@),
        !is_exit("recv"@),
        !is_exit("reply"@),
        !is_exit("block_on"@),
        !is_exit("transport"@),
{
    reveal_strlit("?");
    reveal_strlit("return");
    reveal_strlit("break");
    reveal_strlit("continue");
    reveal_strlit("{");
    reveal_strlit("}");
    reveal_strlit("loop");
    reveal_strlit("let");
    reveal_strlit("(");
    reveal_strlit(")");
    reveal_strlit(",");
    reveal_strlit(";");
    reveal_strlit("=");
    reveal_strlit(".");
    reveal_strlit("_");
    reveal_strlit("svc");
    reveal_strlit("await");
    reveal_strlit("recv");
    reveal_strlit("reply");
    reveal_strlit("block_on");
    reveal_strlit("transport");
    assert("?"@.len() == 1);
    assert("return"@.len() == 6);
    assert("break"@.len() == 5);
    assert("continue"@.len() == 8);
    assert("{"@.len() == 1);
    assert("}"@.len() == 1);
    assert("loop"@.len() == 4);
    assert("let"@.len() == 3);
    assert("("@.len() == 1);
    assert(")"@.len() == 1);
    assert(","@.len() == 1);
    assert(";"@.len() == 1);
    assert("="@.len() == 1);
    assert("."@.len() == 1);
    assert("_"@.len() == 1);
    assert("svc"@.len() == 3);
    assert("await"@.len() == 5);
    assert("recv"@.len() == 4);
    assert("reply"@.len() == 5);
    assert("block_on"@.len() == 8);
    assert("transport"@.len() == 9);
    assert("{"@[0] != "?"@[0]);
    assert("}"@[0] != "?"@[0]);
    assert("("@[0] != "?"@[0]);
    assert(")"@[0] != "?"@[0]);
    assert(","@[0] != "?"@[0]);
    assert(";"@[0] != "?"@[0]);
    assert("="@[0] != "?"@[0]);
    assert("."@[0] != "?"@[0]);
    assert("_"@[0] != "?"@[0]);
    assert("await"@[0] != "break"@[0]);
    assert("reply"@[0] != "break"@[0]);
    assert("block_on"@[0] != "continue"@[0]);
}

#[verifier::rlimit(60)]
proof fn lemma_exits(names: ServeNames, name: Seq<char>, awaited: bool, body: Seq<Seq<char>>)
    requires
        is_serve_loop(body, names, name, awaited),
        !is_exit(names.request),
        !is_exit(names.token),
        !is_exit(names.response),
        !is_exit(name),
    ensures
        leaves_only_at(body, 2 + receive_statement(names, awaited).len() - 1),
{
    lemma_no_exits();
    let open = seq!["{"@, "loop"@, "{"@];
    let receive = receive_statement(names, awaited);
    let at = receive.len() - 2;
    assert(receive[at] == "?"@);
    assert forall|k: int| 0 <= k < receive.len() implies (is_exit(#[trigger] receive[k]) <==> k
        == at) by {}
    let rest = dispatch_statement(names, name, awaited) + reply_statement(names, awaited) + seq![
        "}"@,
        "}"@,
    ];
    assert forall|k: int| 0 <= k < rest.len() implies !is_exit(#[trigger] rest[k]) by {}
    assert(body =~= open + receive + rest);
    assert forall|k: int| 0 <= k < body.len() implies (is_exit(#[trigger] body[k]) <==> k == 3
        + at) by {
        if k < 3 {
            assert(body[k] == open[k]);
        } else if k < 3 + receive.len() {
            assert(body[k] == receive[k - 3]);
        } else {
            assert(body[k] == rest[k - 3 - receive.len()]);
        }
    }
}

/// What a blocking serve function takes and returns: the synchronous service,
/// the transport and the executor by reference, and the error of the transport.
pub open spec fn serve_sync_head(svc: ServiceTrait) -> Seq<Seq<char>> {
    seq![
        "fn"@, crate::codegen::casing::cased(svc.stem@, WordCase::Snake) + "_serve_sync"@,
        "<"@, "S"@, ","@, "T"@, ","@, "B"@, ">"@, "("@, "svc"@, ":"@, "&"@, "S"@, ","@,
        "transport"@, ":"@, "&"@, "mut"@, "T"@, ","@, "block_on"@, ":"@, "&"@, "B"@, ","@,
        ")"@, "->"@, "::"@, "core"@, "::"@, "result"@, "::"@, "Result"@, "<"@, "("@, ")"@,
        ","@, "T"@, "::"@, "Error"@, ">"@, "where"@, "S"@, ":"@,
        svc.stem@ + "ServiceSync"@, ","@, "T"@, ":"@, "::"@, "myelin"@, "::"@,
        "ServerTransport"@, "<"@, svc.stem@ + "Request"@, ","@, svc.stem@ + "Response"@,
        ">"@, ","@, "B"@, ":"@, "::"@, "myelin"@, "::"@, "BlockOn"@, ","@,
    ]
}

/// The names that the generated serve loops use.
pub open spec fn serve_names() -> ServeNames {
    ServeNames { request: "req"@, token: "token"@, response: "resp"@ }
}

proof fn lemma_serve_names(svc: ServiceTrait)
    requires
        named(svc),
    ensures
        serve_names().request != serve_names().token,
        serve_names().response != serve_names().token,
        !is_exit(serve_names().request),
        !is_exit(serve_names().token),
        !is_exit(serve_names().response),
        !is_exit(crate::codegen::casing::cased(svc.stem@, WordCase::Snake) + "_dispatch"@),
        !is_exit(crate::codegen::casing::cased(svc.stem@, WordCase::Snake) + "_dispatch_sync"@),
{
    reveal_strlit("req");
    reveal_strlit("token");
    reveal_strlit("resp");
    reveal_strlit("_dispatch");
    reveal_strlit("_dispatch_sync");
    reveal_strlit("?");
    reveal_strlit("return");
    reveal_strlit("break");
    reveal_strlit("continue");
    assert("req"@.len() == 3);
    assert("token"@.len() == 5);
    assert("resp"@.len() == 4);
    assert("_dispatch"@.len() == 9);
    assert("_dispatch_sync"@.len() == 14);
    assert("?"@.len() == 1);
    assert("return"@.len() == 6);
    assert("break"@.len() == 5);
    assert("continue"@.len() == 8);
    assert("token"@[0] != "break"@[0]);
}

/// The serve function answers every request that it receives: it receives,
/// hands the request to the dispatch function of the service and replies with
/// what comes back, over and over, until a receipt fails. Nothing else ends it,
/// a reply that fails least of all.
#[verifier::rlimit(60)]
pub proof fn law_serve_ends_only_with_a_failed_receipt(svc: ServiceTrait)
    requires
        named(svc),
    ensures
        exists|body: Seq<Seq<char>>, names: ServeNames, name: Seq<char>| #[trigger]
            serves_with(
                tokens(serve_fn_text(svc)),
                tokens(dispatch_fn_text(svc)),
                tokens(svc.vis@),
                true,
                serve_head(svc),
                body,
                names,
                name,
            ),
{
    lemma_serve_fn(svc);
    lemma_dispatch_fn(svc);
    lemma_serve_names(svc);
    let name = crate::codegen::casing::cased(svc.stem@, WordCase::Snake) + "_dispatch"@;
    let names = serve_names();
    let body = seq!["{"@, "loop"@, "{"@] + receive_statement(names, true) + dispatch_statement(
        names,
        name,
        true,
    ) + reply_statement(names, true) + seq!["}"@, "}"@];
    lemma_exits(names, name, true, body);
    assert(tokens(serve_fn_text(svc)) =~= tokens(svc.vis@) + serve_head(svc) + body);
    let head = tokens(svc.vis@) + seq!["async"@, "fn"@, name];
    assert(tokens(dispatch_fn_text(svc)).take(head.len() as int) =~= head);
    assert(serves_with(
        tokens(serve_fn_text(svc)),
        tokens(dispatch_fn_text(svc)),
        tokens(svc.vis@),
        true,
        serve_head(svc),
        body,
        names,
        name,
    ));
}

/// The blocking serve function does as the other one, with the synchronous
/// dispatch function and a blocking executor.
#[verifier::rlimit(60)]
pub proof fn law_blocking_serve_ends_only_with_a_failed_receipt(svc: ServiceTrait)
    requires
        named(svc),
    ensures
        exists|body: Seq<Seq<char>>, names: ServeNames, name: Seq<char>| #[trigger]
            serves_with(
                tokens(serve_sync_fn_text(svc)),
                tokens(dispatch_sync_fn_text(svc)),
                tokens(svc.vis@),
                false,
                serve_sync_head(svc),
                body,
                names,
                name,
            ),
{
    lemma_serve_sync_fn(svc);
    lemma_dispatch_sync_fn(svc);
    lemma_serve_names(svc);
    let name = crate::codegen::casing::cased(svc.stem@, WordCase::Snake) + "_dispatch_sync"@;
    let names = serve_names();
    let body = seq!["{"@, "loop"@, "{"@] + receive_statement(names, false) + dispatch_statement(
        names,
        name,
        false,
    ) + reply_statement(names, false) + seq!["}"@, "}"@];
    lemma_exits(names, name, false, body);
    assert(tokens(serve_sync_fn_text(svc)) =~= tokens(svc.vis@) + serve_sync_head(svc) + body);
    let head = tokens(svc.vis@) + seq!["fn"@, name];
    assert(tokens(dispatch_sync_fn_text(svc)).take(head.len() as int) =~= head);
    assert(serves_with(
        tokens(serve_sync_fn_text(svc)),
        tokens(dispatch_sync_fn_text(svc)),
        tokens(svc.vis@),
        false,
        serve_sync_head(svc),
        body,
        names,
        name,
    ));
}

/// The arguments of a call are the names of the parameters, in their order,
/// with a comma between each two of them.
pub proof fn law_arguments_keep_their_order(args: Seq<ServiceArg>)
    ensures
        passed(args).len() == if args.len() == 0 {
            0
        } else {
            2 * args.len() - 1
        },
        forall|i: int| 0 <= i < args.len() ==> #[trigger] passed(args)[2 * i] == args[i].ident@,
        forall|i: int| 0 < i < args.len() ==> #[trigger] passed(args)[2 * i - 1] == ","@,
{
}

/// Every parameter is declared under its name and with its type, in its place:
/// behind those before it, with a comma between them.
pub proof fn law_parameters_keep_their_order(args: Seq<ServiceArg>, i: int)
    requires
        0 <= i < args.len(),
    ensures
        declared(args.take(i + 1)) == declared(args.take(i)) + if i == 0 {
            seq![args[i].ident@, ":"@]
        } else {
            seq![","@, args[i].ident@, ":"@]
        } + tokens(args[i].ty@),
{
    let upto = args.take(i + 1);
    assert(upto.drop_last() =~= args.take(i));
    assert(declared(upto) =~= declared(args.take(i)) + if i == 0 {
        seq![args[i].ident@, ":"@]
    } else {
        seq![","@, args[i].ident@, ":"@]
    } + tokens(args[i].ty@));
}

/// The request enum has a variant for every function, in their order, and the
/// variant of a function has a field for each of its parameters, of the same
/// name and type and in their order.
pub proof fn law_requests_hold_the_parameters(svc: ServiceTrait, method: ServiceMethod)
    requires
        named(svc),
        named_function(method),
    ensures
        tokens(part_text(Part::RequestVariant, svc, method)) == seq![method.variant_ident@] + (if method.args@.len()
            == 0 {
            Seq::empty()
        } else {
            seq!["{"@] + declared(method.args@) + seq!["}"@]
        }) + seq![","@],
        tokens(request_enum_text(svc)) == derives() + tokens(svc.vis@) + seq![
            "enum"@,
            svc.stem@ + "Request"@,
            "{"@,
        ] + in_order(Part::RequestVariant, svc, svc.methods@.len()) + seq!["}"@],
{
    lemma_request_variant(svc, method);
    assert(tokens(part_text(Part::RequestVariant, svc, method)) =~= seq![method.variant_ident@] + (if method.args@.len()
        == 0 {
        Seq::empty()
    } else {
        seq!["{"@] + declared(method.args@) + seq!["}"@]
    }) + seq![","@]);
    lemma_request_enum(svc);
    assert(tokens(request_enum_text(svc)) =~= derives() + tokens(svc.vis@) + seq![
        "enum"@,
        svc.stem@ + "Request"@,
        "{"@,
    ] + in_order(Part::RequestVariant, svc, svc.methods@.len()) + seq!["}"@]);
}

/// The attributes of the request and response enums.
pub open spec fn derives() -> Seq<Seq<char>> {
    seq![
        "#"@, "["@, "derive"@, "("@, "Debug"@, ")"@, "]"@, "#"@, "["@, "cfg_attr"@, "("@,
        "feature"@, "="@, "\"serde\""@, ","@, "derive"@, "("@, "serde"@, "::"@,
        "Serialize"@, ","@, "serde"@, "::"@, "Deserialize"@, ")"@, ")"@, "]"@,
    ]
}

/// The response enum has a variant for every function, in their order, and the
/// variant of a function holds what it returns: nothing for one that returns
/// nothing.
pub proof fn law_responses_hold_what_is_returned(svc: ServiceTrait, method: ServiceMethod)
    requires
        named(svc),
        named_function(method),
    ensures
        tokens(part_text(Part::ResponseVariant, svc, method)) == match method.ret {
            ReturnKind::Unit => seq![method.variant_ident@, ","@],
            ReturnKind::Type(ty) => seq![method.variant_ident@, "("@] + tokens(ty@) + seq![
                ")"@,
                ","@,
            ],
        },
        tokens(response_enum_text(svc)) == derives() + tokens(svc.vis@) + seq![
            "enum"@,
            svc.stem@ + "Response"@,
            "{"@,
        ] + in_order(Part::ResponseVariant, svc, svc.methods@.len()) + seq!["}"@],
{
    lemma_response_variant(svc, method);
    assert(tokens(part_text(Part::ResponseVariant, svc, method)) =~= match method.ret {
        ReturnKind::Unit => seq![method.variant_ident@, ","@],
        ReturnKind::Type(ty) => seq![method.variant_ident@, "("@] + tokens(ty@) + seq![")"@, ","@],
    });
    lemma_response_enum(svc);
    assert(tokens(response_enum_text(svc)) =~= derives() + tokens(svc.vis@) + seq![
        "enum"@,
        svc.stem@ + "Response"@,
        "{"@,
    ] + in_order(Part::ResponseVariant, svc, svc.methods@.len()) + seq!["}"@]);
}

/// A function of the synchronous trait has the attributes, the name, the
/// parameters and the return type of the function that it stands for, and it is
/// not `async`. What it returns is what the response of that function holds.
pub proof fn law_synchronous_function_keeps_its_signature(
    svc: ServiceTrait,
    method: ServiceMethod,
    shape: MethodShape,
)
    requires
        named(svc),
        named_function(method),
        method.is_method(shape),
    ensures
        tokens(part_text(Part::SyncTrait, svc, method)) == attributes(method.sig.attrs@, false)
            + seq!["fn"@, shape.ident, "("@] + tokens(shape.params) + seq![")"@] + (
        match shape.output {
            Some(ty) => seq!["->"@] + tokens(ty),
            None => Seq::empty(),
        }) + seq![";"@],
        match shape.output {
            Some(ty) => tokens(part_text(Part::ResponseVariant, svc, method)) == seq![
                method.variant_ident@,
                "("@,
            ] + tokens(ty) + seq![")"@, ","@],
            None => tokens(part_text(Part::ResponseVariant, svc, method)) == seq![
                method.variant_ident@,
                ","@,
            ],
        },
{
    lemma_sync_method(svc, method);
    law_responses_hold_what_is_returned(svc, method);
    assert(tokens(part_text(Part::SyncTrait, svc, method)) =~= attributes(method.sig.attrs@, false)
        + seq!["fn"@, shape.ident, "("@] + tokens(shape.params) + seq![")"@] + (
    match shape.output {
        Some(ty) => seq!["->"@] + tokens(ty),
        None => Seq::empty(),
    }) + seq![";"@]);
}

/// The synchronous trait has the attributes and the visibility of the trait,
/// and its functions, in their order.
pub proof fn law_synchronous_trait_has_the_same_functions(svc: ServiceTrait)
    requires
        named(svc),
    ensures
        tokens(sync_trait_text(svc)) == attributes(svc.item.attrs@, false) + tokens(svc.vis@)
            + seq!["trait"@, svc.stem@ + "ServiceSync"@, "{"@] + attributes(svc.item.attrs@, true)
            + in_order(Part::SyncTrait, svc, svc.methods@.len()) + seq!["}"@],
{
    lemma_sync_trait(svc);
    assert(tokens(sync_trait_text(svc)) =~= attributes(svc.item.attrs@, false) + tokens(svc.vis@)
        + seq!["trait"@, svc.stem@ + "ServiceSync"@, "{"@] + attributes(svc.item.attrs@, true)
        + in_order(Part::SyncTrait, svc, svc.methods@.len()) + seq!["}"@]);
}

/// A call of the function of a service with the parameters in their order.
pub open spec fn service_call(
    target: Seq<Seq<char>>,
    method: ServiceMethod,
) -> Seq<Seq<char>> {
    target + seq!["."@, method.sig.ident@, "("@] + passed(method.args@) + seq![")"@]
}

/// What a dispatch function does with a request of `method`: it calls the
/// function with what the request holds, and puts what comes back into the
/// response.
pub open spec fn dispatched(
    svc: ServiceTrait,
    method: ServiceMethod,
    awaited: bool,
) -> Seq<Seq<char>> {
    let call = service_call(seq!["svc"@], method) + awaiting(awaited);
    request_tokens(svc, method) + seq!["=>"@] + (match method.ret {
        ReturnKind::Unit => seq!["{"@] + call + seq![";"@] + response_tokens(svc, method) + seq![
            "}"@,
        ],
        ReturnKind::Type(_) => response_tokens(svc, method) + seq!["("@] + call + seq![")"@],
    }) + seq![","@]
}

proof fn lemma_unit_arm(
    request: Seq<Seq<char>>,
    name: Seq<char>,
    args: Seq<Seq<char>>,
    end: Seq<Seq<char>>,
    response: Seq<char>,
    variant: Seq<char>,
)
    ensures
        request + seq!["=>"@, "{"@, "svc"@, "."@] + seq![name] + seq!["("@] + args + seq![")"@]
            + end + seq![";"@] + seq![response] + seq!["::"@] + seq![variant] + seq!["}"@, ","@]
            == request + seq!["=>"@] + (seq!["{"@] + (seq!["svc"@] + seq!["."@, name, "("@] + args
            + seq![")"@] + end) + seq![";"@] + seq![response, "::"@, variant] + seq!["}"@])
            + seq![","@],
{
    let call = seq!["svc"@] + seq!["."@, name, "("@] + args + seq![")"@] + end;
    let start = request + seq!["=>"@, "{"@, "svc"@, "."@] + seq![name] + seq!["("@] + args + seq![
        ")"@,
    ] + end;
    assert(start =~= request + seq!["=>"@] + seq!["{"@] + call);
    assert(start + seq![";"@] + seq![response] + seq!["::"@] + seq![variant] + seq!["}"@, ","@]
        =~= request + seq!["=>"@] + (seq!["{"@] + call + seq![";"@] + seq![response, "::"@, variant]
        + seq!["}"@]) + seq![","@]);
}

proof fn lemma_value_arm(
    request: Seq<Seq<char>>,
    name: Seq<char>,
    args: Seq<Seq<char>>,
    end: Seq<Seq<char>>,
    response: Seq<char>,
    variant: Seq<char>,
)
    ensures
        request + seq!["=>"@] + seq![response] + seq!["::"@] + seq![variant] + seq![
            "("@,
            "svc"@,
            "."@,
        ] + seq![name] + seq!["("@] + args + seq![")"@] + end + seq![")"@, ","@] == request + seq![
            "=>"@,
        ] + (seq![response, "::"@, variant] + seq!["("@] + (seq!["svc"@] + seq!["."@, name, "("@]
            + args + seq![")"@] + end) + seq![")"@]) + seq![","@],
{
    let call = seq!["svc"@] + seq!["."@, name, "("@] + args + seq![")"@] + end;
    let start = request + seq!["=>"@] + seq![response] + seq!["::"@] + seq![variant] + seq![
        "("@,
        "svc"@,
        "."@,
    ];
    assert(start =~= request + seq!["=>"@] + seq![response, "::"@, variant] + seq!["("@] + seq![
        "svc"@,
        "."@,
    ]);
    assert(start + seq![name] + seq!["("@] + args + seq![")"@] + end =~= request + seq!["=>"@]
        + seq![response, "::"@, variant] + seq!["("@] + call);
    assert(start + seq![name] + seq!["("@] + args + seq![")"@] + end + seq![")"@, ","@] =~= request
        + seq!["=>"@] + (seq![response, "::"@, variant] + seq!["("@] + call + seq![")"@]) + seq![
        ","@,
    ]);
}

#[verifier::rlimit(60)]
proof fn lemma_dispatched(svc: ServiceTrait, method: ServiceMethod, awaited: bool)
    requires
        named(svc),
        named_function(method),
    ensures
        tokens(dispatch_arm_text(svc, method, awaited)) == dispatched(svc, method, awaited),
        starts_with(
            dispatched(svc, method, awaited),
            request_tokens(svc, method) + seq!["=>"@],
        ),
{
    lemma_dispatch_arm(svc, method, awaited);
    let request = request_tokens(svc, method);
    let args = passed(method.args@);
    let name = method.sig.ident@;
    let end = awaiting(awaited);
    let response = svc.stem@ + "Response"@;
    match method.ret {
        ReturnKind::Unit => {
            lemma_unit_arm(request, name, args, end, response, method.variant_ident@);
        },
        ReturnKind::Type(_) => {
            lemma_value_arm(request, name, args, end, response, method.variant_ident@);
        },
    }
    lemma_prefix(
        request + seq!["=>"@],
        match method.ret {
            ReturnKind::Unit => seq!["{"@] + (service_call(seq!["svc"@], method) + end) + seq![";"@]
                + response_tokens(svc, method) + seq!["}"@],
            ReturnKind::Type(_) => response_tokens(svc, method) + seq!["("@] + (service_call(
                seq!["svc"@],
                method,
            ) + end) + seq![")"@],
        },
        seq![","@],
    );
}

proof fn lemma_prefix(head: Seq<Seq<char>>, middle: Seq<Seq<char>>, end: Seq<Seq<char>>)
    ensures
        starts_with(head + middle + end, head),
{
    assert((head + middle + end).take(head.len() as int) =~= head);
}

/// Dispatch calls the function that the request names, with the fields of the
/// request as its arguments in the order of its parameters, and answers with the
/// response of that function. It awaits the call exactly if the function is
/// `async`; the synchronous one never does.
pub proof fn law_dispatch_calls_the_requested_function(svc: ServiceTrait, method: ServiceMethod)
    requires
        named(svc),
        named_function(method),
    ensures
        tokens(part_text(Part::Dispatch, svc, method)) == dispatched(svc, method, method.is_async),
        tokens(part_text(Part::DispatchSync, svc, method)) == dispatched(svc, method, false),
{
    lemma_dispatched(svc, method, method.is_async);
    lemma_dispatched(svc, method, false);
}

/// The dispatch functions take the service and a request, and match the request
/// against those of every function, in their order.
#[verifier::rlimit(60)]
pub proof fn law_dispatch_matches_every_function(svc: ServiceTrait)
    requires
        named(svc),
    ensures
        tokens(dispatch_fn_text(svc)) == tokens(svc.vis@) + seq![
            "async"@, "fn"@,
            crate::codegen::casing::cased(svc.stem@, WordCase::Snake) + "_dispatch"@, "<"@,
            "S"@, ":"@, svc.item.ident@, ">"@, "("@, "svc"@, ":"@, "&"@, "S"@, ","@,
            "req"@, ":"@, svc.stem@ + "Request"@, ")"@, "->"@, svc.stem@ + "Response"@,
            "{"@, "match"@, "req"@, "{"@,
        ] + in_order(Part::Dispatch, svc, svc.methods@.len()) + seq!["}"@, "}"@],
        tokens(dispatch_sync_fn_text(svc)) == tokens(svc.vis@) + seq![
            "fn"@,
            crate::codegen::casing::cased(svc.stem@, WordCase::Snake) + "_dispatch_sync"@,
            "<"@, "S"@, ":"@, svc.stem@ + "ServiceSync"@, ">"@, "("@, "svc"@, ":"@, "&"@,
            "S"@, ","@, "req"@, ":"@, svc.stem@ + "Request"@, ")"@, "->"@,
            svc.stem@ + "Response"@, "{"@, "match"@, "req"@, "{"@,
        ] + in_order(Part::DispatchSync, svc, svc.methods@.len()) + seq!["}"@, "}"@],
{
    lemma_dispatch_fn(svc);
    lemma_dispatch_sync_fn(svc);
    assert(tokens(dispatch_fn_text(svc)) =~= tokens(svc.vis@) + seq![
        "async"@, "fn"@,
        crate::codegen::casing::cased(svc.stem@, WordCase::Snake) + "_dispatch"@, "<"@,
        "S"@, ":"@, svc.item.ident@, ">"@, "("@, "svc"@, ":"@, "&"@, "S"@, ","@, "req"@,
        ":"@, svc.stem@ + "Request"@, ")"@, "->"@, svc.stem@ + "Response"@, "{"@, "match"@,
        "req"@, "{"@,
    ] + in_order(Part::Dispatch, svc, svc.methods@.len()) + seq!["}"@, "}"@]);
    assert(tokens(dispatch_sync_fn_text(svc)) =~= tokens(svc.vis@) + seq![
        "fn"@,
        crate::codegen::casing::cased(svc.stem@, WordCase::Snake) + "_dispatch_sync"@,
        "<"@, "S"@, ":"@, svc.stem@ + "ServiceSync"@, ">"@, "("@, "svc"@, ":"@, "&"@, "S"@,
        ","@, "req"@, ":"@, svc.stem@ + "Request"@, ")"@, "->"@, svc.stem@ + "Response"@,
        "{"@, "match"@, "req"@, "{"@,
    ] + in_order(Part::DispatchSync, svc, svc.methods@.len()) + seq!["}"@, "}"@]);
}

/// What a client method is called with and returns: the parameters of the
/// function, and what it returns, as the error of the transport has it.
pub open spec fn client_signature(method: ServiceMethod) -> Seq<Seq<char>> {
    seq!["fn"@, method.sig.ident@, "("@, "&"@, "self"@, ","@] + declared(method.args@) + seq![
        ")"@, "->"@, "<"@, "T"@, "::"@, "Error"@, "as"@, "::"@, "myelin"@, "::"@,
        "TransportResult"@, "<"@,
    ] + payload(method.ret) + seq![
        ">>"@, "::"@, "Output"@, "where"@, "T"@, "::"@, "Error"@, ":"@, "::"@, "myelin"@,
        "::"@, "TransportResult"@, "<"@,
    ] + payload(method.ret) + seq![">"@, ","@]
}

/// What a client method does: it sends the request of its function, with its
/// parameters, and hands out what the response holds.
pub open spec fn client_body(
    svc: ServiceTrait,
    method: ServiceMethod,
    result: Seq<char>,
    response: Seq<char>,
    held: Seq<char>,
) -> Seq<Seq<char>> {
    seq!["{"@, "let"@, result, "="@, "self"@, "."@, "transport"@, "."@, "call"@, "("@]
        + request_tokens(svc, method) + seq![
        ")"@, "."@, "await"@, ";"@, "::"@, "myelin"@, "::"@, "TransportResult"@, "::"@,
        "into_output"@, "("@, result, "."@, "map"@, "("@, "|"@, response, "|"@, "match"@,
        response, "{"@,
    ] + response_tokens(svc, method) + (match method.ret {
        ReturnKind::Unit => seq!["=>"@, "("@, ")"@],
        ReturnKind::Type(_) => seq!["("@, held, ")"@, "=>"@, held],
    }) + seq![
        ","@, "#"@, "["@, "allow"@, "("@, "unreachable_patterns"@, ")"@, "]"@, "_"@, "=>"@,
        "unreachable"@, "!"@, "("@, ")"@, ","@, "}"@, ")"@, ")"@, "}"@,
    ]
}

#[verifier::rlimit(60)]
proof fn lemma_client_parts(
    vis: Seq<Seq<char>>,
    name: Seq<char>,
    params: Seq<Seq<char>>,
    ret: Seq<Seq<char>>,
    request: Seq<Seq<char>>,
    response: Seq<Seq<char>>,
    arm: Seq<Seq<char>>,
)
    ensures
        vis + seq!["async"@, "fn"@] + seq![name] + Seq::<Seq<char>>::empty() + (seq!["("@, "&"@, "self"@, ","@] + params + seq![")"@]) + seq![
        "->"@, "<"@, "T"@, "::"@, "Error"@, "as"@, "::"@, "myelin"@, "::"@,
        "TransportResult"@, "<"@,
    ] + ret + seq![
        ">>"@, "::"@, "Output"@, "where"@, "T"@, "::"@, "Error"@, ":"@, "::"@, "myelin"@,
        "::"@, "TransportResult"@, "<"@,
    ] + ret + seq![
        ">"@, ","@, "{"@, "let"@, "result"@, "="@, "self"@, "."@, "transport"@, "."@,
        "call"@, "("@,
    ] + request + seq![
        ")"@, "."@, "await"@, ";"@, "::"@, "myelin"@, "::"@, "TransportResult"@, "::"@,
        "into_output"@, "("@, "result"@, "."@, "map"@, "("@, "|"@, "resp"@, "|"@, "match"@,
        "resp"@, "{"@,
    ] + (response + arm) + seq![
        ","@, "#"@, "["@, "allow"@, "("@, "unreachable_patterns"@, ")"@, "]"@, "_"@, "=>"@,
        "unreachable"@, "!"@, "("@, ")"@, ","@, "}"@, ")"@, ")"@, "}"@,
    ] == vis + seq!["async"@] + (seq!["fn"@, name, "("@, "&"@, "self"@, ","@] + params + seq![
        ")"@, "->"@, "<"@, "T"@, "::"@, "Error"@, "as"@, "::"@, "myelin"@, "::"@,
        "TransportResult"@, "<"@,
    ] + ret + seq![
        ">>"@, "::"@, "Output"@, "where"@, "T"@, "::"@, "Error"@, ":"@, "::"@, "myelin"@,
        "::"@, "TransportResult"@, "<"@,
    ] + ret + seq![">"@, ","@]) + (seq![
        "{"@, "let"@, "result"@, "="@, "self"@, "."@, "transport"@, "."@, "call"@, "("@,
    ] + request + seq![
        ")"@, "."@, "await"@, ";"@, "::"@, "myelin"@, "::"@, "TransportResult"@, "::"@,
        "into_output"@, "("@, "result"@, "."@, "map"@, "("@, "|"@, "resp"@, "|"@, "match"@,
        "resp"@, "{"@,
    ] + response + arm + seq![
        ","@, "#"@, "["@, "allow"@, "("@, "unreachable_patterns"@, ")"@, "]"@, "_"@, "=>"@,
        "unreachable"@, "!"@, "("@, ")"@, ","@, "}"@, ")"@, ")"@, "}"@,
    ]),
{
    let head = vis + seq!["async"@, "fn"@] + seq![name] + Seq::<Seq<char>>::empty() + (seq![
        "("@,
        "&"@,
        "self"@,
        ","@,
    ] + params + seq![")"@]);
    let open = vis + seq!["async"@] + seq!["fn"@, name, "("@, "&"@, "self"@, ","@] + params;
    assert(head =~= open + seq![")"@]);
    let l1 = head + seq![
        "->"@, "<"@, "T"@, "::"@, "Error"@, "as"@, "::"@, "myelin"@, "::"@,
        "TransportResult"@, "<"@,
    ] + ret + seq![
        ">>"@, "::"@, "Output"@, "where"@, "T"@, "::"@, "Error"@, ":"@, "::"@, "myelin"@,
        "::"@, "TransportResult"@, "<"@,
    ] + ret;
    let r1 = open + seq![
        ")"@, "->"@, "<"@, "T"@, "::"@, "Error"@, "as"@, "::"@, "myelin"@, "::"@,
        "TransportResult"@, "<"@,
    ] + ret + seq![
        ">>"@, "::"@, "Output"@, "where"@, "T"@, "::"@, "Error"@, ":"@, "::"@, "myelin"@,
        "::"@, "TransportResult"@, "<"@,
    ] + ret;
    assert(l1 =~= r1);
    let sig = seq!["fn"@, name, "("@, "&"@, "self"@, ","@] + params + seq![
        ")"@, "->"@, "<"@, "T"@, "::"@, "Error"@, "as"@, "::"@, "myelin"@, "::"@,
        "TransportResult"@, "<"@,
    ] + ret + seq![
        ">>"@, "::"@, "Output"@, "where"@, "T"@, "::"@, "Error"@, ":"@, "::"@, "myelin"@,
        "::"@, "TransportResult"@, "<"@,
    ] + ret + seq![">"@, ","@];
    assert(vis + seq!["async"@] + sig =~= r1 + seq![">"@, ","@]);
    let l2 = l1 + seq![
        ">"@, ","@, "{"@, "let"@, "result"@, "="@, "self"@, "."@, "transport"@, "."@,
        "call"@, "("@,
    ] + request + seq![
        ")"@, "."@, "await"@, ";"@, "::"@, "myelin"@, "::"@, "TransportResult"@, "::"@,
        "into_output"@, "("@, "result"@, "."@, "map"@, "("@, "|"@, "resp"@, "|"@, "match"@,
        "resp"@, "{"@,
    ];
    let r2 = r1 + seq![">"@, ","@] + seq![
        "{"@, "let"@, "result"@, "="@, "self"@, "."@, "transport"@, "."@, "call"@, "("@,
    ] + request + seq![
        ")"@, "."@, "await"@, ";"@, "::"@, "myelin"@, "::"@, "TransportResult"@, "::"@,
        "into_output"@, "("@, "result"@, "."@, "map"@, "("@, "|"@, "resp"@, "|"@, "match"@,
        "resp"@, "{"@,
    ];
    assert(l2 =~= r2);
    assert(l2 + (response + arm) + seq![
        ","@, "#"@, "["@, "allow"@, "("@, "unreachable_patterns"@, ")"@, "]"@, "_"@, "=>"@,
        "unreachable"@, "!"@, "("@, ")"@, ","@, "}"@, ")"@, ")"@, "}"@,
    ] =~= r2 + response + arm + seq![
        ","@, "#"@, "["@, "allow"@, "("@, "unreachable_patterns"@, ")"@, "]"@, "_"@, "=>"@,
        "unreachable"@, "!"@, "("@, ")"@, ","@, "}"@, ")"@, ")"@, "}"@,
    ]);
    assert(r2 + response + arm + seq![
        ","@, "#"@, "["@, "allow"@, "("@, "unreachable_patterns"@, ")"@, "]"@, "_"@, "=>"@,
        "unreachable"@, "!"@, "("@, ")"@, ","@, "}"@, ")"@, ")"@, "}"@,
    ] =~= vis + seq!["async"@] + sig + (seq![
        "{"@, "let"@, "result"@, "="@, "self"@, "."@, "transport"@, "."@, "call"@, "("@,
    ] + request + seq![
        ")"@, "."@, "await"@, ";"@, "::"@, "myelin"@, "::"@, "TransportResult"@, "::"@,
        "into_output"@, "("@, "result"@, "."@, "map"@, "("@, "|"@, "resp"@, "|"@, "match"@,
        "resp"@, "{"@,
    ] + response + arm + seq![
        ","@, "#"@, "["@, "allow"@, "("@, "unreachable_patterns"@, ")"@, "]"@, "_"@, "=>"@,
        "unreachable"@, "!"@, "("@, ")"@, ","@, "}"@, ")"@, ")"@, "}"@,
    ]));
}

/// A client method sends the request of its function, with all its parameters,
/// and returns what the response of that function holds. It is the request that
/// dispatch calls the function for, and the response that dispatch answers with.
#[verifier::rlimit(60)]
pub proof fn law_client_sends_what_dispatch_serves(svc: ServiceTrait, method: ServiceMethod)
    requires
        named(svc),
        named_function(method),
    ensures
        exists|result: Seq<char>, response: Seq<char>, held: Seq<char>|
            tokens(part_text(Part::Client, svc, method)) == tokens(svc.vis@) + seq!["async"@]
                + client_signature(method) + #[trigger] client_body(
                svc,
                method,
                result,
                response,
                held,
            ),
        starts_with(
            tokens(part_text(Part::Dispatch, svc, method)),
            request_tokens(svc, method) + seq!["=>"@],
        ),
{
    lemma_client_method(svc, method);
    lemma_dispatched(svc, method, method.is_async);
    let body = client_body(svc, method, "result"@, "resp"@, "v"@);
    assert(tokens(" "@) =~= Seq::empty()) by {
        lemma_space();
    }
    lemma_client_parts(
        tokens(svc.vis@),
        method.sig.ident@,
        declared(method.args@),
        payload(method.ret),
        request_tokens(svc, method),
        response_tokens(svc, method),
        match method.ret {
            ReturnKind::Unit => seq!["=>"@, "("@, ")"@],
            ReturnKind::Type(_) => seq!["("@, "v"@, ")"@, "=>"@, "v"@],
        },
    );
}

/// A method of the blocking client has the parameters and the return type of the
/// client's, and hands its parameters on to it in the order in which it declares
/// them.
#[verifier::rlimit(60)]
pub proof fn law_blocking_client_hands_its_parameters_on(svc: ServiceTrait, method: ServiceMethod)
    requires
        named(svc),
        named_function(method),
    ensures
        tokens(part_text(Part::ClientSync, svc, method)) == tokens(svc.vis@) + client_signature(
            method,
        ) + seq!["{"@, "self"@, "."@, "block_on"@, "."@, "block_on"@, "("@] + service_call(
            seq!["self"@, "."@, "inner"@],
            method,
        ) + seq![")"@, "}"@],
        forall|i: int|
            0 <= i < method.args@.len() ==> #[trigger] passed(method.args@)[2 * i]
                == method.args@[i].ident@,
{
    lemma_client_sync_method(svc, method);
    assert(tokens(" "@) =~= Seq::empty()) by {
        lemma_space();
    }
    assert(tokens(part_text(Part::ClientSync, svc, method)) =~= tokens(svc.vis@) + client_signature(
        method,
    ) + seq!["{"@, "self"@, "."@, "block_on"@, "."@, "block_on"@, "("@] + service_call(
        seq!["self"@, "."@, "inner"@],
        method,
    ) + seq![")"@, "}"@]);
}

/// The client holds a transport for the requests and responses of the service,
/// and has a method for every function, in their order.
#[verifier::rlimit(60)]
pub proof fn law_client_has_every_function(svc: ServiceTrait)
    requires
        named(svc),
    ensures
        tokens(client_struct_text(svc)) == tokens(svc.vis@) + seq![
            "struct"@, svc.stem@ + "Client"@, "<"@, "T"@, ">"@, "{"@, "transport"@, ":"@,
            "T"@, ","@, "}"@, "impl"@, "<"@, "T"@, ">"@, svc.stem@ + "Client"@, "<"@, "T"@,
            ">"@, "where"@, "T"@, ":"@, "::"@, "myelin"@, "::"@, "ClientTransport"@, "<"@,
            svc.stem@ + "Request"@, ","@, svc.stem@ + "Response"@, ">"@, ","@, "{"@,
        ] + tokens(svc.vis@) + seq![
            "fn"@, "new"@, "("@, "transport"@, ":"@, "T"@, ")"@, "->"@, "Self"@, "{"@,
            "Self"@, "{"@, "transport"@, "}"@, "}"@,
        ] + in_order(Part::Client, svc, svc.methods@.len()) + seq!["}"@],
{
    lemma_client_struct(svc);
    assert(tokens(client_struct_text(svc)) =~= tokens(svc.vis@) + seq![
        "struct"@, svc.stem@ + "Client"@, "<"@, "T"@, ">"@, "{"@, "transport"@, ":"@, "T"@,
        ","@, "}"@, "impl"@, "<"@, "T"@, ">"@, svc.stem@ + "Client"@, "<"@, "T"@, ">"@,
        "where"@, "T"@, ":"@, "::"@, "myelin"@, "::"@, "ClientTransport"@, "<"@,
        svc.stem@ + "Request"@, ","@, svc.stem@ + "Response"@, ">"@, ","@, "{"@,
    ] + tokens(svc.vis@) + seq![
        "fn"@, "new"@, "("@, "transport"@, ":"@, "T"@, ")"@, "->"@, "Self"@, "{"@, "Self"@,
        "{"@, "transport"@, "}"@, "}"@,
    ] + in_order(Part::Client, svc, svc.methods@.len()) + seq!["}"@]);
}

/// The blocking client holds a client and an executor, and has a method for
/// every function, in their order.
#[verifier::rlimit(60)]
pub proof fn law_blocking_client_has_every_function(svc: ServiceTrait)
    requires
        named(svc),
    ensures
        tokens(client_sync_struct_text(svc)) == tokens(svc.vis@) + seq![
            "struct"@, svc.stem@ + "ClientSync"@, "<"@, "T"@, ","@, "B"@, ">"@, "{"@,
            "inner"@, ":"@, svc.stem@ + "Client"@, "<"@, "T"@, ">"@, ","@, "block_on"@,
            ":"@, "B"@, ","@, "}"@, "impl"@, "<"@, "T"@, ","@, "B"@, ">"@,
            svc.stem@ + "ClientSync"@, "<"@, "T"@, ","@, "B"@, ">"@, "where"@, "T"@, ":"@,
            "::"@, "myelin"@, "::"@, "ClientTransport"@, "<"@, svc.stem@ + "Request"@,
            ","@, svc.stem@ + "Response"@, ">"@, ","@, "B"@, ":"@, "::"@, "myelin"@, "::"@,
            "BlockOn"@, ","@, "{"@,
        ] + tokens(svc.vis@) + seq![
            "fn"@, "new"@, "("@, "inner"@, ":"@, svc.stem@ + "Client"@, "<"@, "T"@, ">"@,
            ","@, "block_on"@, ":"@, "B"@, ")"@, "->"@, "Self"@, "{"@, "Self"@, "{"@,
            "inner"@, ","@, "block_on"@, "}"@, "}"@,
        ] + in_order(Part::ClientSync, svc, svc.methods@.len()) + seq!["}"@],
{
    lemma_client_sync_struct(svc);
    assert(tokens(client_sync_struct_text(svc)) =~= tokens(svc.vis@) + seq![
        "struct"@, svc.stem@ + "ClientSync"@, "<"@, "T"@, ","@, "B"@, ">"@, "{"@, "inner"@,
        ":"@, svc.stem@ + "Client"@, "<"@, "T"@, ">"@, ","@, "block_on"@, ":"@, "B"@, ","@,
        "}"@, "impl"@, "<"@, "T"@, ","@, "B"@, ">"@, svc.stem@ + "ClientSync"@, "<"@, "T"@,
        ","@, "B"@, ">"@, "where"@, "T"@, ":"@, "::"@, "myelin"@, "::"@,
        "ClientTransport"@, "<"@, svc.stem@ + "Request"@, ","@, svc.stem@ + "Response"@,
        ">"@, ","@, "B"@, ":"@, "::"@, "myelin"@, "::"@, "BlockOn"@, ","@, "{"@,
    ] + tokens(svc.vis@) + seq![
        "fn"@, "new"@, "("@, "inner"@, ":"@, svc.stem@ + "Client"@, "<"@, "T"@, ">"@, ","@,
        "block_on"@, ":"@, "B"@, ")"@, "->"@, "Self"@, "{"@, "Self"@, "{"@, "inner"@, ","@,
        "block_on"@, "}"@, "}"@,
    ] + in_order(Part::ClientSync, svc, svc.methods@.len()) + seq!["}"@]);
}

/// The transport aliases carry the requests and responses of the service.
#[verifier::rlimit(60)]
pub proof fn law_aliases_carry_the_service(svc: ServiceTrait)
    requires
        named(svc),
    ensures
        tokens(tokio_transport_alias_text(svc)) == tokens(svc.vis@) + seq![
            "type"@, svc.stem@ + "TokioService"@, "="@, "::"@, "myelin"@, "::"@,
            "transport_tokio"@, "::"@, "TokioService"@, "<"@, svc.stem@ + "Request"@, ","@,
            svc.stem@ + "Response"@, ">"@, ";"@,
        ],
        tokens(embassy_transport_aliases_text(svc)) == tokens(svc.vis@) + seq![
            "type"@, svc.stem@ + "EmbassyService"@, "<"@, "M"@, ","@, "const"@,
            "CHANNEL_DEPTH"@, ":"@, "usize"@, ">"@, "="@, "::"@, "myelin"@, "::"@,
            "transport_embassy"@, "::"@, "EmbassyService"@, "<"@, "M"@, ","@,
            svc.stem@ + "Request"@, ","@, svc.stem@ + "Response"@, ","@, "CHANNEL_DEPTH"@,
            ">"@, ";"@,
        ] + tokens(svc.vis@) + seq![
            "type"@, svc.stem@ + "EmbassyClientTransport"@, "<"@, "'a"@, ","@, "M"@, ","@,
            "const"@, "CHANNEL_DEPTH"@, ":"@, "usize"@, ">"@, "="@, "::"@, "myelin"@,
            "::"@, "transport_embassy"@, "::"@, "EmbassyClient"@, "<"@, "'a"@, ","@, "M"@,
            ","@, svc.stem@ + "Request"@, ","@, svc.stem@ + "Response"@, ","@,
            "CHANNEL_DEPTH"@, ">"@, ";"@,
        ],
{
    lemma_tokio_transport_alias(svc);
    lemma_embassy_transport_aliases(svc);
    assert(tokens(tokio_transport_alias_text(svc)) =~= tokens(svc.vis@) + seq![
        "type"@, svc.stem@ + "TokioService"@, "="@, "::"@, "myelin"@, "::"@,
        "transport_tokio"@, "::"@, "TokioService"@, "<"@, svc.stem@ + "Request"@, ","@,
        svc.stem@ + "Response"@, ">"@, ";"@,
    ]);
    assert(tokens(embassy_transport_aliases_text(svc)) =~= tokens(svc.vis@) + seq![
        "type"@, svc.stem@ + "EmbassyService"@, "<"@, "M"@, ","@, "const"@,
        "CHANNEL_DEPTH"@, ":"@, "usize"@, ">"@, "="@, "::"@, "myelin"@, "::"@,
        "transport_embassy"@, "::"@, "EmbassyService"@, "<"@, "M"@, ","@,
        svc.stem@ + "Request"@, ","@, svc.stem@ + "Response"@, ","@, "CHANNEL_DEPTH"@,
        ">"@, ";"@,
    ] + tokens(svc.vis@) + seq![
        "type"@, svc.stem@ + "EmbassyClientTransport"@, "<"@, "'a"@, ","@, "M"@, ","@,
        "const"@, "CHANNEL_DEPTH"@, ":"@, "usize"@, ">"@, "="@, "::"@, "myelin"@, "::"@,
        "transport_embassy"@, "::"@, "EmbassyClient"@, "<"@, "'a"@, ","@, "M"@, ","@,
        svc.stem@ + "Request"@, ","@, svc.stem@ + "Response"@, ","@, "CHANNEL_DEPTH"@,
        ">"@, ";"@,
    ]);
}

/// A macro that a macro defines, under the name that it was given and `suffix`.
pub open spec fn inner_macro(
    suffix: Seq<char>,
    params: Seq<Seq<char>>,
    body: Seq<Seq<char>>,
) -> Seq<Seq<char>> {
    seq!["macro_rules"@, "!"@, "["@, "<"@, "$"@, "name"@, suffix, ">"@, "]"@, "{"@, "("@] + params
        + seq![")"@, "=>"@, "{"@] + body + seq!["}"@, ";"@, "}"@]
}

/// A client in a cell of its own, on the client end of `service`.
pub open spec fn celled_client(svc: ServiceTrait, service: Seq<Seq<char>>) -> Seq<Seq<char>> {
    seq![svc.stem@ + "Client"@, "::"@, "new"@, "("@, "&"@, "*"@, "CELL"@, "."@, "init"@, "("@]
        + service + seq!["."@, "client"@, "("@, ")"@, ","@, ")"@, ","@, ")"@]
}

/// The embassy macro of a service: a static that holds it, and a macro for each
/// of its ends.
pub open spec fn embassy_macro(
    svc: ServiceTrait,
    service: Seq<Seq<char>>,
    cell: Seq<Seq<char>>,
) -> Seq<Seq<char>> {
    seq![
        "#"@, "["@, "macro_export"@, "]"@, "macro_rules"@, "!"@,
        crate::codegen::casing::cased(svc.stem@, WordCase::Snake) + "_embassy_service"@,
        "{"@, "("@, "$"@, "name"@, ":"@, "ident"@, ","@, "$"@, "mutex"@, ":"@, "ty"@, ","@,
        "$"@, "depth"@, ":"@, "expr"@, ")"@, "=>"@, "{"@, "::"@, "myelin"@, "::"@,
        "paste"@, "::"@, "paste"@, "!"@, "{"@, "static"@,
    ] + service + seq![
        ":"@, "::"@, "myelin"@, "::"@, "transport_embassy"@, "::"@, "EmbassyService"@,
        "<"@, "$"@, "mutex"@, ","@, svc.stem@ + "Request"@, ","@, svc.stem@ + "Response"@,
        ","@, "$"@, "depth"@, ","@, ">"@, "="@, "::"@, "myelin"@, "::"@,
        "transport_embassy"@, "::"@, "EmbassyService"@, "::"@, "new"@, "("@, ")"@, ";"@,
    ] + inner_macro(
        "_client"@,
        Seq::empty(),
        seq!["{"@] + cell + celled_client(svc, service) + seq!["}"@],
    ) + inner_macro(
        "_server"@,
        Seq::empty(),
        service + seq!["."@, "server"@, "("@, ")"@],
    ) + inner_macro(
        "_client_sync"@,
        seq!["$"@, "block_on"@, ":"@, "expr"@],
        seq!["{"@] + cell + seq![svc.stem@ + "ClientSync"@, "::"@, "new"@, "("@] + celled_client(
            svc,
            service,
        ) + seq![","@, "$"@, "block_on"@, ","@, ")"@, "}"@],
    ) + seq!["}"@, "}"@, ";"@, "}"@]
}

#[verifier::rlimit(60)]
proof fn lemma_embassy_macro(
    svc: ServiceTrait,
    service: Seq<Seq<char>>,
    cell: Seq<Seq<char>>,
)
    ensures
        embassy_macro(svc, service, cell) == seq!["#"@, "["@, "macro_export"@, "]"@, "macro_rules"@, "!"@]
        + seq![
            crate::codegen::casing::cased(svc.stem@, WordCase::Snake) + "_embassy_service"@,
        ]
        + seq![
            "{"@, "("@, "$"@, "name"@, ":"@, "ident"@, ","@, "$"@, "mutex"@, ":"@, "ty"@,
            ","@, "$"@, "depth"@, ":"@, "expr"@, ")"@, "=>"@, "{"@, "::"@, "myelin"@,
            "::"@, "paste"@, "::"@, "paste"@, "!"@, "{"@, "static"@,
        ]
        + service
        + seq![
            ":"@, "::"@, "myelin"@, "::"@, "transport_embassy"@, "::"@, "EmbassyService"@,
            "<"@, "$"@, "mutex"@, ","@,
        ]
        + seq![svc.stem@ + "Request"@]
        + seq![","@]
        + seq![svc.stem@ + "Response"@]
        + seq![
            ","@, "$"@, "depth"@, ","@, ">"@, "="@, "::"@, "myelin"@, "::"@,
            "transport_embassy"@, "::"@, "EmbassyService"@, "::"@, "new"@, "("@, ")"@,
            ";"@, "macro_rules"@, "!"@, "["@, "<"@, "$"@, "name"@, "_client"@, ">"@, "]"@,
            "{"@, "("@, ")"@, "=>"@, "{"@, "{"@,
        ]
        + cell
        + seq![svc.stem@ + "Client"@]
        + seq!["::"@, "new"@, "("@, "&"@, "*"@, "CELL"@, "."@, "init"@, "("@]
        + service
        + seq![
            "."@, "client"@, "("@, ")"@, ","@, ")"@, ","@, ")"@, "}"@, "}"@, ";"@, "}"@,
            "macro_rules"@, "!"@, "["@, "<"@, "$"@, "name"@, "_server"@, ">"@, "]"@, "{"@,
            "("@, ")"@, "=>"@, "{"@,
        ]
        + service
        + seq![
            "."@, "server"@, "("@, ")"@, "}"@, ";"@, "}"@, "macro_rules"@, "!"@, "["@,
            "<"@, "$"@, "name"@, "_client_sync"@, ">"@, "]"@, "{"@, "("@, "$"@,
            "block_on"@, ":"@, "expr"@, ")"@, "=>"@, "{"@, "{"@,
        ]
        + cell
        + seq![svc.stem@ + "ClientSync"@]
        + seq!["::"@, "new"@, "("@]
        + seq![svc.stem@ + "Client"@]
        + seq!["::"@, "new"@, "("@, "&"@, "*"@, "CELL"@, "."@, "init"@, "("@]
        + service
        + seq![
            "."@, "client"@, "("@, ")"@, ","@, ")"@, ","@, ")"@, ","@, "$"@, "block_on"@,
            ","@, ")"@, "}"@, "}"@, ";"@, "}"@, "}"@, "}"@, ";"@, "}"@,
        ],
{
    let start = seq![
        "#"@, "["@, "macro_export"@, "]"@, "macro_rules"@, "!"@,
        crate::codegen::casing::cased(svc.stem@, WordCase::Snake) + "_embassy_service"@,
        "{"@, "("@, "$"@, "name"@, ":"@, "ident"@, ","@, "$"@, "mutex"@, ":"@, "ty"@, ","@,
        "$"@, "depth"@, ":"@, "expr"@, ")"@, "=>"@, "{"@, "::"@, "myelin"@, "::"@,
        "paste"@, "::"@, "paste"@, "!"@, "{"@, "static"@,
    ] + service + seq![
        ":"@, "::"@, "myelin"@, "::"@, "transport_embassy"@, "::"@, "EmbassyService"@,
        "<"@, "$"@, "mutex"@, ","@, svc.stem@ + "Request"@, ","@, svc.stem@ + "Response"@,
        ","@, "$"@, "depth"@, ","@, ">"@, "="@, "::"@, "myelin"@, "::"@,
        "transport_embassy"@, "::"@, "EmbassyService"@, "::"@, "new"@, "("@, ")"@, ";"@,
    ];
    let start_flat = seq!["#"@, "["@, "macro_export"@, "]"@, "macro_rules"@, "!"@]
        + seq![
            crate::codegen::casing::cased(svc.stem@, WordCase::Snake) + "_embassy_service"@,
        ]
        + seq![
            "{"@, "("@, "$"@, "name"@, ":"@, "ident"@, ","@, "$"@, "mutex"@, ":"@, "ty"@,
            ","@, "$"@, "depth"@, ":"@, "expr"@, ")"@, "=>"@, "{"@, "::"@, "myelin"@,
            "::"@, "paste"@, "::"@, "paste"@, "!"@, "{"@, "static"@,
        ]
        + service
        + seq![
            ":"@, "::"@, "myelin"@, "::"@, "transport_embassy"@, "::"@, "EmbassyService"@,
            "<"@, "$"@, "mutex"@, ","@,
        ]
        + seq![svc.stem@ + "Request"@]
        + seq![","@]
        + seq![svc.stem@ + "Response"@]
        + seq![
        ","@, "$"@, "depth"@, ","@, ">"@, "="@, "::"@, "myelin"@, "::"@,
        "transport_embassy"@, "::"@, "EmbassyService"@, "::"@, "new"@, "("@, ")"@, ";"@,
    ];
    assert(start =~= start_flat);
    let client = inner_macro(
        "_client"@,
        Seq::empty(),
        seq!["{"@] + cell + celled_client(svc, service) + seq!["}"@],
    );
    let client_flat = seq![
        "macro_rules"@, "!"@, "["@, "<"@, "$"@, "name"@, "_client"@, ">"@, "]"@, "{"@,
        "("@, ")"@, "=>"@, "{"@, "{"@,
    ]
        + cell
        + seq![svc.stem@ + "Client"@]
        + seq!["::"@, "new"@, "("@, "&"@, "*"@, "CELL"@, "."@, "init"@, "("@]
        + service
        + seq![
        "."@, "client"@, "("@, ")"@, ","@, ")"@, ","@, ")"@, "}"@, "}"@, ";"@, "}"@,
    ];
    assert(client =~= client_flat);
    let server = inner_macro(
        "_server"@,
        Seq::empty(),
        service + seq!["."@, "server"@, "("@, ")"@],
    );
    let server_flat = seq![
        "macro_rules"@, "!"@, "["@, "<"@, "$"@, "name"@, "_server"@, ">"@, "]"@, "{"@,
        "("@, ")"@, "=>"@, "{"@,
    ]
        + service
        + seq![
        "."@, "server"@, "("@, ")"@, "}"@, ";"@, "}"@,
    ];
    assert(server =~= server_flat);
    let blocking = inner_macro(
        "_client_sync"@,
        seq!["$"@, "block_on"@, ":"@, "expr"@],
        seq!["{"@] + cell + seq![svc.stem@ + "ClientSync"@, "::"@, "new"@, "("@] + celled_client(
            svc,
            service,
        ) + seq![","@, "$"@, "block_on"@, ","@, ")"@, "}"@],
    );
    let blocking_flat = seq![
        "macro_rules"@, "!"@, "["@, "<"@, "$"@, "name"@, "_client_sync"@, ">"@, "]"@, "{"@,
        "("@, "$"@, "block_on"@, ":"@, "expr"@, ")"@, "=>"@, "{"@, "{"@,
    ]
        + cell
        + seq![svc.stem@ + "ClientSync"@]
        + seq!["::"@, "new"@, "("@]
        + seq![svc.stem@ + "Client"@]
        + seq!["::"@, "new"@, "("@, "&"@, "*"@, "CELL"@, "."@, "init"@, "("@]
        + service
        + seq![
        "."@, "client"@, "("@, ")"@, ","@, ")"@, ","@, ")"@, ","@, "$"@, "block_on"@, ","@,
        ")"@, "}"@, "}"@, ";"@, "}"@,
    ];
    assert(blocking =~= blocking_flat);
    let end = seq!["}"@, "}"@, ";"@, "}"@];
    let p1 = seq!["#"@, "["@, "macro_export"@, "]"@, "macro_rules"@, "!"@]
        + seq![
            crate::codegen::casing::cased(svc.stem@, WordCase::Snake) + "_embassy_service"@,
        ]
        + seq![
            "{"@, "("@, "$"@, "name"@, ":"@, "ident"@, ","@, "$"@, "mutex"@, ":"@, "ty"@,
            ","@, "$"@, "depth"@, ":"@, "expr"@, ")"@, "=>"@, "{"@, "::"@, "myelin"@,
            "::"@, "paste"@, "::"@, "paste"@, "!"@, "{"@, "static"@,
        ]
        + service
        + seq![
            ":"@, "::"@, "myelin"@, "::"@, "transport_embassy"@, "::"@, "EmbassyService"@,
            "<"@, "$"@, "mutex"@, ","@,
        ]
        + seq![svc.stem@ + "Request"@]
        + seq![","@]
        + seq![svc.stem@ + "Response"@]
        + seq![
            ","@, "$"@, "depth"@, ","@, ">"@, "="@, "::"@, "myelin"@, "::"@,
            "transport_embassy"@, "::"@, "EmbassyService"@, "::"@, "new"@, "("@, ")"@,
            ";"@, "macro_rules"@, "!"@, "["@, "<"@, "$"@, "name"@, "_client"@, ">"@, "]"@,
            "{"@, "("@, ")"@, "=>"@, "{"@, "{"@,
        ]
        + cell
        + seq![svc.stem@ + "Client"@]
        + seq!["::"@, "new"@, "("@, "&"@, "*"@, "CELL"@, "."@, "init"@, "("@]
        + service
        + seq![
        "."@, "client"@, "("@, ")"@, ","@, ")"@, ","@, ")"@, "}"@, "}"@, ";"@, "}"@,
    ];
    assert(p1 =~= start_flat + client_flat);
    let p2 = seq!["#"@, "["@, "macro_export"@, "]"@, "macro_rules"@, "!"@]
        + seq![
            crate::codegen::casing::cased(svc.stem@, WordCase::Snake) + "_embassy_service"@,
        ]
        + seq![
            "{"@, "("@, "$"@, "name"@, ":"@, "ident"@, ","@, "$"@, "mutex"@, ":"@, "ty"@,
            ","@, "$"@, "depth"@, ":"@, "expr"@, ")"@, "=>"@, "{"@, "::"@, "myelin"@,
            "::"@, "paste"@, "::"@, "paste"@, "!"@, "{"@, "static"@,
        ]
        + service
        + seq![
            ":"@, "::"@, "myelin"@, "::"@, "transport_embassy"@, "::"@, "EmbassyService"@,
            "<"@, "$"@, "mutex"@, ","@,
        ]
        + seq![svc.stem@ + "Request"@]
        + seq![","@]
        + seq![svc.stem@ + "Response"@]
        + seq![
            ","@, "$"@, "depth"@, ","@, ">"@, "="@, "::"@, "myelin"@, "::"@,
            "transport_embassy"@, "::"@, "EmbassyService"@, "::"@, "new"@, "("@, ")"@,
            ";"@, "macro_rules"@, "!"@, "["@, "<"@, "$"@, "name"@, "_client"@, ">"@, "]"@,
            "{"@, "("@, ")"@, "=>"@, "{"@, "{"@,
        ]
        + cell
        + seq![svc.stem@ + "Client"@]
        + seq!["::"@, "new"@, "("@, "&"@, "*"@, "CELL"@, "."@, "init"@, "("@]
        + service
        + seq![
            "."@, "client"@, "("@, ")"@, ","@, ")"@, ","@, ")"@, "}"@, "}"@, ";"@, "}"@,
            "macro_rules"@, "!"@, "["@, "<"@, "$"@, "name"@, "_server"@, ">"@, "]"@, "{"@,
            "("@, ")"@, "=>"@, "{"@,
        ]
        + service
        + seq![
        "."@, "server"@, "("@, ")"@, "}"@, ";"@, "}"@,
    ];
    assert(p2 =~= p1 + server_flat);
    let p3 = seq!["#"@, "["@, "macro_export"@, "]"@, "macro_rules"@, "!"@]
        + seq![
            crate::codegen::casing::cased(svc.stem@, WordCase::Snake) + "_embassy_service"@,
        ]
        + seq![
            "{"@, "("@, "$"@, "name"@, ":"@, "ident"@, ","@, "$"@, "mutex"@, ":"@, "ty"@,
            ","@, "$"@, "depth"@, ":"@, "expr"@, ")"@, "=>"@, "{"@, "::"@, "myelin"@,
            "::"@, "paste"@, "::"@, "paste"@, "!"@, "{"@, "static"@,
        ]
        + service
        + seq![
            ":"@, "::"@, "myelin"@, "::"@, "transport_embassy"@, "::"@, "EmbassyService"@,
            "<"@, "$"@, "mutex"@, ","@,
        ]
        + seq![svc.stem@ + "Request"@]
        + seq![","@]
        + seq![svc.stem@ + "Response"@]
        + seq![
            ","@, "$"@, "depth"@, ","@, ">"@, "="@, "::"@, "myelin"@, "::"@,
            "transport_embassy"@, "::"@, "EmbassyService"@, "::"@, "new"@, "("@, ")"@,
            ";"@, "macro_rules"@, "!"@, "["@, "<"@, "$"@, "name"@, "_client"@, ">"@, "]"@,
            "{"@, "("@, ")"@, "=>"@, "{"@, "{"@,
        ]
        + cell
        + seq![svc.stem@ + "Client"@]
        + seq!["::"@, "new"@, "("@, "&"@, "*"@, "CELL"@, "."@, "init"@, "("@]
        + service
        + seq![
            "."@, "client"@, "("@, ")"@, ","@, ")"@, ","@, ")"@, "}"@, "}"@, ";"@, "}"@,
            "macro_rules"@, "!"@, "["@, "<"@, "$"@, "name"@, "_server"@, ">"@, "]"@, "{"@,
            "("@, ")"@, "=>"@, "{"@,
        ]
        + service
        + seq![
            "."@, "server"@, "("@, ")"@, "}"@, ";"@, "}"@, "macro_rules"@, "!"@, "["@,
            "<"@, "$"@, "name"@, "_client_sync"@, ">"@, "]"@, "{"@, "("@, "$"@,
            "block_on"@, ":"@, "expr"@, ")"@, "=>"@, "{"@, "{"@,
        ]
        + cell
        + seq![svc.stem@ + "ClientSync"@]
        + seq!["::"@, "new"@, "("@]
        + seq![svc.stem@ + "Client"@]
        + seq!["::"@, "new"@, "("@, "&"@, "*"@, "CELL"@, "."@, "init"@, "("@]
        + service
        + seq![
            "."@, "client"@, "("@, ")"@, ","@, ")"@, ","@, ")"@, ","@, "$"@, "block_on"@,
            ","@, ")"@, "}"@, "}"@, ";"@, "}"@, "}"@, "}"@, ";"@, "}"@,
        ];
    assert(p3 =~= p2 + blocking_flat + end);
    assert(start + client + server + blocking + end == p3);
}

/// The embassy macro of a service makes one static that holds it, and macros
/// whose clients and server are the ends of that one static.
pub proof fn law_embassy_ends_belong_to_one_service(svc: ServiceTrait)
    requires
        named(svc),
    ensures
        tokens(embassy_instantiation_text(svc)) == embassy_macro(
            svc,
            static_tokens(svc),
            cell_tokens(svc),
        ),
{
    lemma_embassy_instantiation(svc);
    lemma_embassy_macro(svc, static_tokens(svc), cell_tokens(svc));
}

/// The code for a service is all its items, one after the other: the enums, the
/// traits, the clients, the dispatch and serve functions, the aliases and the
/// macro of the transports that are wanted, and the api id.
pub proof fn law_expansion_holds_every_item(
    svc: ServiceTrait,
    api_id: Option<u16>,
    transports: Transports,
)
    ensures
        tokens(expansion_text(svc, api_id, transports)) == tokens(request_enum_text(svc)) + tokens(
            response_enum_text(svc),
        ) + tokens(svc.item.text@) + tokens(sync_trait_text(svc)) + tokens(client_struct_text(svc))
            + tokens(client_sync_struct_text(svc)) + tokens(dispatch_fn_text(svc)) + tokens(
            dispatch_sync_fn_text(svc),
        ) + tokens(serve_fn_text(svc)) + tokens(serve_sync_fn_text(svc)) + (if transports.tokio {
            tokens(tokio_transport_alias_text(svc))
        } else {
            Seq::empty()
        }) + (if transports.embassy {
            tokens(embassy_transport_aliases_text(svc))
        } else {
            Seq::empty()
        }) + (if transports.embassy {
            tokens(embassy_instantiation_text(svc))
        } else {
            Seq::empty()
        }) + tokens(api_id_const_text(svc, api_id)),
{
    lemma_items(
        request_enum_text(svc),
        response_enum_text(svc),
        svc.item.text@,
        sync_trait_text(svc),
        client_struct_text(svc),
        client_sync_struct_text(svc),
        dispatch_fn_text(svc),
        dispatch_sync_fn_text(svc),
        serve_fn_text(svc),
        serve_sync_fn_text(svc),
    );
    let items = (request_enum_text(svc) + " "@) + (response_enum_text(svc) + " "@) + (
    svc.item.text@ + " "@) + (sync_trait_text(svc) + " "@) + (client_struct_text(svc) + " "@) + (
    client_sync_struct_text(svc) + " "@) + (dispatch_fn_text(svc) + " "@) + (dispatch_sync_fn_text(
        svc,
    ) + " "@) + (serve_fn_text(svc) + " "@) + (serve_sync_fn_text(svc) + " "@);
    lemma_extras(
        items,
        transports,
        tokio_transport_alias_text(svc),
        embassy_transport_aliases_text(svc),
        embassy_instantiation_text(svc),
        api_id_const_text(svc, api_id),
    );
}

#[verifier::rlimit(60)]
proof fn lemma_items(
    i1: Seq<char>,
    i2: Seq<char>,
    i3: Seq<char>,
    i4: Seq<char>,
    i5: Seq<char>,
    i6: Seq<char>,
    i7: Seq<char>,
    i8: Seq<char>,
    i9: Seq<char>,
    i10: Seq<char>,
)
    ensures
        ({
            let text = (i1 + " "@) + (i2 + " "@) + (i3 + " "@) + (i4 + " "@) + (i5 + " "@) + (i6 + " "@) + (i7 + " "@) + (i8 + " "@) + (i9 + " "@) + (i10 + " "@);
            &&& tokens(text) == tokens(i1) + tokens(i2) + tokens(i3) + tokens(i4) + tokens(i5) + tokens(i6) + tokens(i7) + tokens(i8) + tokens(i9) + tokens(i10)
            &&& text.len() > 0
            &&& is_break(text.last())
        }),
{
    let none = Seq::<char>::empty();
    assert(tokens(none) =~= Seq::empty());
    let t1 = i1 + " "@;
    lemma_item(none, i1);
    assert(none + t1 =~= t1);
    assert(tokens(none) + tokens(i1) =~= tokens(i1));
    let t2 = t1 + (i2 + " "@);
    lemma_item(t1, i2);
    let t3 = t2 + (i3 + " "@);
    lemma_item(t2, i3);
    let t4 = t3 + (i4 + " "@);
    lemma_item(t3, i4);
    let t5 = t4 + (i5 + " "@);
    lemma_item(t4, i5);
    let t6 = t5 + (i6 + " "@);
    lemma_item(t5, i6);
    let t7 = t6 + (i7 + " "@);
    lemma_item(t6, i7);
    let t8 = t7 + (i8 + " "@);
    lemma_item(t7, i8);
    let t9 = t8 + (i9 + " "@);
    lemma_item(t8, i9);
    let t10 = t9 + (i10 + " "@);
    lemma_item(t9, i10);
}

#[verifier::rlimit(60)]
proof fn lemma_extras(
    items: Seq<char>,
    transports: Transports,
    tokio: Seq<char>,
    aliases: Seq<char>,
    instances: Seq<char>,
    last: Seq<char>,
)
    requires
        items.len() > 0,
        is_break(items.last()),
    ensures
        tokens(
            items + optional_text(transports.tokio, tokio) + optional_text(
                transports.embassy,
                aliases,
            ) + optional_text(transports.embassy, instances) + last,
        ) == tokens(items) + (if transports.tokio {
            tokens(tokio)
        } else {
            Seq::empty()
        }) + (if transports.embassy {
            tokens(aliases)
        } else {
            Seq::empty()
        }) + (if transports.embassy {
            tokens(instances)
        } else {
            Seq::empty()
        }) + tokens(last),
{
    let t1 = items + optional_text(transports.tokio, tokio);
    lemma_optional_item(items, transports.tokio, tokio);
    let t2 = t1 + optional_text(transports.embassy, aliases);
    lemma_optional_item(t1, transports.embassy, aliases);
    let t3 = t2 + optional_text(transports.embassy, instances);
    lemma_optional_item(t2, transports.embassy, instances);
    lemma_tokens_add(t3, last);
}

proof fn lemma_item(before: Seq<char>, item: Seq<char>)
    requires
        before.len() > 0 ==> is_break(before.last()),
    ensures
        tokens(before + (item + " "@)) == tokens(before) + tokens(item),
        (before + (item + " "@)).len() > 0,
        is_break((before + (item + " "@)).last()),
{
    lemma_space();
    lemma_tokens_add(item, " "@);
    assert(tokens(item + " "@) =~= tokens(item));
    lemma_tokens_add(before, item + " "@);
    assert((before + (item + " "@)).last() == " "@[0]);
}

proof fn lemma_optional_item(before: Seq<char>, wanted: bool, item: Seq<char>)
    requires
        before.len() > 0,
        is_break(before.last()),
    ensures
        tokens(before + optional_text(wanted, item)) == tokens(before) + (if wanted {
            tokens(item)
        } else {
            Seq::empty()
        }),
        (before + optional_text(wanted, item)).len() > 0,
        is_break((before + optional_text(wanted, item)).last()),
{
    if wanted {
        lemma_item(before, item);
    } else {
        assert(before + optional_text(wanted, item) =~= before);
        assert(tokens(before) + Seq::<Seq<char>>::empty() =~= tokens(before));
    }
}

/// Whether `ts` declares the constant `name` with the value that `number` spells.
pub open spec fn declares_id(
    ts: Seq<Seq<char>>,
    docs: Seq<Seq<char>>,
    vis: Seq<Seq<char>>,
    name: Seq<char>,
    number: Seq<char>,
) -> bool {
    ts == docs + vis + seq!["const"@, name, ":"@, "u16"@, "="@, number + "u16"@, ";"@]
}

/// The api id constant of a service has the visibility of the trait, and its
/// value is the id that was given, else the hash of the whole name of the trait.
#[verifier::rlimit(60)]
pub proof fn law_constant_holds_the_api_id(svc: ServiceTrait, given: Option<u16>)
    requires
        named(svc),
    ensures
        exists|docs: Seq<Seq<char>>, number: Seq<char>|
            {
                &&& #[trigger] declares_id(
                    tokens(api_id_const_text(svc, given)),
                    docs,
                    tokens(svc.vis@),
                    crate::codegen::casing::cased(svc.stem@, WordCase::Constant) + "_API_ID"@,
                    number,
                )
                &&& crate::text::is_decimal(number)
                &&& match given {
                    Some(id) => crate::text::decimal_value(number) == id,
                    None => crate::text::decimal_value(number) == fnv1a16_hash(
                        vstd::utf8::encode_utf8(svc.item.ident@),
                    ),
                }
            },
{
    let name = crate::codegen::casing::cased(svc.stem@, WordCase::Constant);
    let id = chosen_api_id(svc.item.ident@, given);
    let number = crate::text::decimal(id as nat);
    crate::text::law_decimal_round_trip(id as nat);
    assert(is_word(number));
    let head = "# [doc = \" Wire-level API identifier for the "@ + svc.stem@
        + " service.\"] # [doc = \"\"] # [doc = \" A hash of the trait name, unless it is fixed with `#[myelin::service(api_id = 0x0001)]`.\"] "@;
    assert(is_break(head.last())) by {
        reveal_strlit(" service.\"] # [doc = \"\"] # [doc = \" A hash of the trait name, unless it is fixed with `#[myelin::service(api_id = 0x0001)]`.\"] ");
    }
    let t1 = head + vis_prefix(svc.vis@);
    lemma_vis(svc.vis@);
    lemma_tokens_add(head, vis_prefix(svc.vis@));
    lemma_id_phrases();
    let t2 = t1 + "const "@;
    lemma_tokens_add(t1, "const "@);
    let t3 = t2 + name + "_API_ID : u16 = "@;
    lemma_read_joined(t2, name, "_API_ID : u16 = "@, "_API_ID"@, " : u16 = "@);
    lemma_read_joined(t3, number, "u16 ;"@, "u16"@, " ;"@);
    assert(tokens(api_id_const_text(svc, given)) =~= tokens(head) + tokens(svc.vis@) + seq![
        "const"@,
        name + "_API_ID"@,
        ":"@,
        "u16"@,
        "="@,
        number + "u16"@,
        ";"@,
    ]);
    assert(declares_id(
        tokens(api_id_const_text(svc, given)),
        tokens(head),
        tokens(svc.vis@),
        name + "_API_ID"@,
        number,
    ));
}

proof fn lemma_id_phrases()
    ensures
        tokens("const "@) == seq!["const"@],
        "const "@.len() > 0,
        is_break("const "@.last()),
        "_API_ID : u16 = "@ == "_API_ID"@ + " : u16 = "@,
        is_word("_API_ID"@),
        tokens(" : u16 = "@) == seq![":"@, "u16"@, "="@],
        " : u16 = "@.len() > 0,
        is_break(" : u16 = "@[0]),
        is_break("_API_ID : u16 = "@.last()),
        "_API_ID : u16 = "@.len() > 0,
        "u16 ;"@ == "u16"@ + " ;"@,
        is_word("u16"@),
        tokens(" ;"@) == seq![";"@],
        " ;"@.len() > 0,
        is_break(" ;"@[0]),
{
    reveal_strlit("const ");
    reveal_strlit("const");
    reveal_strlit("_API_ID : u16 = ");
    reveal_strlit("_API_ID");
    reveal_strlit(" : u16 = ");
    reveal_strlit(":");
    reveal_strlit("u16");
    reveal_strlit("=");
    reveal_strlit("u16 ;");
    reveal_strlit(" ;");
    reveal_strlit(";");
    reveal_strlit(" ");
    reveal_with_fuel(spread, 4);
    reveal_with_fuel(all_tokens, 4);
    assert("_API_ID : u16 = "@ =~= "_API_ID"@ + " : u16 = "@);
    assert("u16 ;"@ =~= "u16"@ + " ;"@);
    let first = seq!["const"@];
    assert("const "@ =~= edge(false) + spread(first, 1) + edge(true));
    lemma_edged(first, 1, false, true);
    assert(first.take(1) =~= first);
    let middle = seq![":"@, "u16"@, "="@];
    assert(" : u16 = "@ =~= edge(true) + spread(middle, 3) + edge(true));
    lemma_edged(middle, 3, true, true);
    assert(middle.take(3) =~= middle);
    let last = seq![";"@];
    assert(" ;"@ =~= edge(true) + spread(last, 1) + edge(false));
    lemma_edged(last, 1, true, false);
    assert(last.take(1) =~= last);
}

/// Clients and dispatch name a request as the request enum declares it: the
/// enum, the variant of the function, and in braces the names of all its fields,
/// in their order. They name a response by the response enum and the variant of
/// the function.
pub proof fn law_requests_are_named_as_declared(svc: ServiceTrait, method: ServiceMethod)
    requires
        named(svc),
        named_function(method),
    ensures
        ({
            let request = request_tokens(svc, method);
            let response = response_tokens(svc, method);
            let n = method.args@.len();
            &&& request.len() == if n == 0 {
                3
            } else {
                2 * n + 4
            }
            &&& request[0] == svc.stem@ + "Request"@
            &&& request[1] == "::"@
            &&& request[2] == tokens(part_text(Part::RequestVariant, svc, method))[0]
            &&& n > 0 ==> request[3] == "{"@ && request.last() == "}"@
            &&& forall|i: int| 0 <= i < n ==> #[trigger] request[4 + 2 * i] == method.args@[i].ident@
            &&& response.len() == 3
            &&& response[0] == svc.stem@ + "Response"@
            &&& response[1] == "::"@
            &&& response[2] == tokens(part_text(Part::ResponseVariant, svc, method))[0]
        }),
{
    law_requests_hold_the_parameters(svc, method);
    law_responses_hold_what_is_returned(svc, method);
    let request = request_tokens(svc, method);
    let args = method.args@;
    assert forall|i: int| 0 <= i < args.len() implies #[trigger] request[4 + 2 * i]
        == args[i].ident@ by {
        assert(request[4 + 2 * i] == passed(args)[2 * i]);
    }
}

/// What stands for the functions of a service stands in their order, that of a
/// function behind that of all functions before it.
pub proof fn law_functions_keep_their_order(part: Part, svc: ServiceTrait, i: int)
    requires
        0 <= i < svc.methods@.len(),
    ensures
        in_order(part, svc, 0).len() == 0,
        in_order(part, svc, (i + 1) as nat) == in_order(part, svc, i as nat) + tokens(
            part_text(part, svc, svc.methods@[i]),
        ),
{
}

/// A return type is read as it was written, and no return type as `()`; a call is
/// awaited by the two tokens behind it, and not awaited by none.
pub proof fn law_types_and_awaits_are_read_as_written(ret: ReturnKind)
    ensures
        ret is Unit ==> payload(ret) == seq!["("@, ")"@],
        ret matches ReturnKind::Type(ty) ==> payload(ret) == tokens(ty@),
        awaiting(true) == seq!["."@, "await"@],
        awaiting(false).len() == 0,
{
}

} // verus!
