//! The tokens of each piece of generated code.

use vstd::prelude::*;

use crate::codegen::casing::WordCase;
use crate::codegen::emit::{
    Part, argument_decls, argument_names, arrow_output_text, attrs_text, await_suffix_text,
    client_method_text, client_params_text, client_struct_text, client_sync_method_text,
    client_sync_struct_text, dispatch_arm_text, dispatch_fn_text, dispatch_sync_fn_text,
    embassy_client_text, embassy_instantiation_text, embassy_transport_aliases_text,
    part_text, parts_text, request_ctor_text, request_enum_text, request_variant_text,
    response_arm_text, response_enum_text, response_variant_text, return_type_text,
    serve_fn_text, serve_sync_fn_text, static_service_text, sync_method_text,
    sync_trait_text, tokio_transport_alias_text, vis_prefix,
};
use crate::codegen::parse::{ReturnKind, ServiceMethod, ServiceTrait};
use crate::codegen::tokens::{
    all_tokens, attributes, awaiting, declared, edge, is_break, is_word, lemma_arrow, lemma_attrs,
    lemma_await_suffix, lemma_decls, lemma_edged, lemma_glued_word,
    lemma_names, lemma_read_joined, lemma_read_name,
    lemma_read_start, lemma_space, lemma_token, lemma_tokens_add, lemma_vis, named_arguments, output_of, passed, returning, spread, tokens,
};

verus! {

/// Whether the names of a function are names.
pub open spec fn named_function(method: ServiceMethod) -> bool {
    &&& is_word(method.sig.ident@)
    &&& is_word(method.variant_ident@)
    &&& named_arguments(method.args@)
}

/// Whether the names of a service, and of its functions, are names.
pub open spec fn named(svc: ServiceTrait) -> bool {
    &&& is_word(svc.stem@)
    &&& is_word(svc.item.ident@)
    &&& is_word(crate::codegen::casing::cased(svc.stem@, WordCase::Snake))
    &&& is_word(crate::codegen::casing::cased(svc.stem@, WordCase::Constant))
    &&& forall|i: int|
        0 <= i < svc.methods@.len() ==> named_function(#[trigger] svc.methods@[i])
}

/// The tokens of a return type; those of `()` for a function that returns
/// nothing.
pub open spec fn payload(ret: ReturnKind) -> Seq<Seq<char>> {
    match ret {
        ReturnKind::Unit => seq!["("@, ")"@],
        ReturnKind::Type(ty) => tokens(ty@),
    }
}

/// A request of `method`, by the names of its parameters.
pub open spec fn request_tokens(svc: ServiceTrait, method: ServiceMethod) -> Seq<Seq<char>> {
    seq![svc.stem@ + "Request"@, "::"@, method.variant_ident@] + if method.args@.len() == 0 {
        Seq::empty()
    } else {
        seq!["{"@] + passed(method.args@) + seq!["}"@]
    }
}

/// The name of a response of `method`.
pub open spec fn response_tokens(svc: ServiceTrait, method: ServiceMethod) -> Seq<Seq<char>> {
    seq![svc.stem@ + "Response"@, "::"@, method.variant_ident@]
}

/// What a response of `method` holds, out of it.
pub open spec fn unwrapping_tokens(svc: ServiceTrait, method: ServiceMethod) -> Seq<Seq<char>> {
    response_tokens(svc, method) + if method.ret is Unit {
        seq!["=>"@, "("@, ")"@]
    } else {
        seq!["("@, "v"@, ")"@, "=>"@, "v"@]
    }
}

/// The parameter list of a client method.
pub open spec fn parameter_tokens(method: ServiceMethod) -> Seq<Seq<char>> {
    seq!["("@, "&"@, "self"@, ","@] + declared(method.args@) + seq![")"@]
}

/// The tokens for the first `n` functions of a service, in their order.
pub open spec fn in_order(part: Part, svc: ServiceTrait, n: nat) -> Seq<Seq<char>>
    decreases n,
{
    if n == 0 {
        Seq::empty()
    } else {
        in_order(part, svc, (n - 1) as nat) + tokens(part_text(part, svc, svc.methods@[n - 1]))
    }
}

proof fn lemma_return_type(ret: ReturnKind)
    ensures
        tokens(return_type_text(ret)) == payload(ret),
{
    reveal_strlit("()");
    reveal_strlit("(");
    reveal_strlit(")");
    reveal_strlit(" ");
    let ts = seq!["("@, ")"@];
    reveal_with_fuel(spread, 3);
    reveal_with_fuel(all_tokens, 3);
    assert("()"@ =~= edge(false) + spread(ts, 2) + edge(false));
    lemma_edged(ts, 2, false, false);
    assert(ts.take(2) =~= ts);
}

proof fn lemma_request_variant_phrase_1()
    ensures
        tokens(" , "@) == seq![
            ","@,
        ],
        " , "@.len() > 0,
        is_break(" , "@[0]),
        is_break(" , "@.last()),
{
    reveal_strlit(" , ");
    reveal_strlit(" ");
    reveal_strlit(",");
    let ts = seq![
        ","@,
    ];
    reveal_with_fuel(spread, 2);
    reveal_with_fuel(all_tokens, 2);
    assert(" , "@ =~= edge(true) + spread(ts, 1) + edge(true));
    lemma_edged(ts, 1, true, true);
    assert(ts.take(1) =~= ts);
}

proof fn lemma_request_variant_phrase_2()
    ensures
        tokens(" { "@) == seq![
            "{"@,
        ],
        " { "@.len() > 0,
        is_break(" { "@[0]),
        is_break(" { "@.last()),
{
    reveal_strlit(" { ");
    reveal_strlit(" ");
    reveal_strlit("{");
    let ts = seq![
        "{"@,
    ];
    reveal_with_fuel(spread, 2);
    reveal_with_fuel(all_tokens, 2);
    assert(" { "@ =~= edge(true) + spread(ts, 1) + edge(true));
    lemma_edged(ts, 1, true, true);
    assert(ts.take(1) =~= ts);
}

proof fn lemma_request_variant_phrase_3()
    ensures
        tokens(" } , "@) == seq![
            "}"@, ","@,
        ],
        " } , "@.len() > 0,
        is_break(" } , "@[0]),
        is_break(" } , "@.last()),
{
    reveal_strlit(" } , ");
    reveal_strlit(" ");
    reveal_strlit(",");
    reveal_strlit("}");
    let ts = seq![
        "}"@, ","@,
    ];
    reveal_with_fuel(spread, 3);
    reveal_with_fuel(all_tokens, 3);
    assert(" } , "@ =~= edge(true) + spread(ts, 2) + edge(true));
    lemma_edged(ts, 2, true, true);
    assert(ts.take(2) =~= ts);
}

proof fn lemma_response_variant_phrase_1()
    ensures
        tokens(" ("@) == seq![
            "("@,
        ],
        " ("@.len() > 0,
        is_break(" ("@[0]),
        is_break(" ("@.last()),
{
    reveal_strlit(" (");
    reveal_strlit(" ");
    reveal_strlit("(");
    let ts = seq![
        "("@,
    ];
    reveal_with_fuel(spread, 2);
    reveal_with_fuel(all_tokens, 2);
    assert(" ("@ =~= edge(true) + spread(ts, 1) + edge(false));
    lemma_edged(ts, 1, true, false);
    assert(ts.take(1) =~= ts);
}

proof fn lemma_response_variant_phrase_2()
    ensures
        tokens(") , "@) == seq![
            ")"@, ","@,
        ],
        ") , "@.len() > 0,
        is_break(") , "@[0]),
        is_break(") , "@.last()),
{
    reveal_strlit(") , ");
    reveal_strlit(" ");
    reveal_strlit(")");
    reveal_strlit(",");
    let ts = seq![
        ")"@, ","@,
    ];
    reveal_with_fuel(spread, 3);
    reveal_with_fuel(all_tokens, 3);
    assert(") , "@ =~= edge(false) + spread(ts, 2) + edge(true));
    lemma_edged(ts, 2, false, true);
    assert(ts.take(2) =~= ts);
}

proof fn lemma_request_ctor_phrase_1()
    ensures
        tokens(" :: "@) == seq![
            "::"@,
        ],
        " :: "@.len() > 0,
        is_break(" :: "@[0]),
        is_break(" :: "@.last()),
{
    reveal_strlit(" :: ");
    reveal_strlit(" ");
    reveal_strlit("::");
    let ts = seq![
        "::"@,
    ];
    reveal_with_fuel(spread, 2);
    reveal_with_fuel(all_tokens, 2);
    assert(" :: "@ =~= edge(true) + spread(ts, 1) + edge(true));
    lemma_edged(ts, 1, true, true);
    assert(ts.take(1) =~= ts);
}

proof fn lemma_request_ctor_phrase_2()
    ensures
        tokens(" }"@) == seq![
            "}"@,
        ],
        " }"@.len() > 0,
        is_break(" }"@[0]),
{
    reveal_strlit(" }");
    reveal_strlit(" ");
    reveal_strlit("}");
    let ts = seq![
        "}"@,
    ];
    reveal_with_fuel(spread, 2);
    reveal_with_fuel(all_tokens, 2);
    assert(" }"@ =~= edge(true) + spread(ts, 1) + edge(false));
    lemma_edged(ts, 1, true, false);
    assert(ts.take(1) =~= ts);
}

proof fn lemma_client_params_phrase_1()
    ensures
        tokens("(& self ,)"@) == seq![
            "("@, "&"@, "self"@, ","@, ")"@,
        ],
        "(& self ,)"@.len() > 0,
        is_break("(& self ,)"@[0]),
        is_break("(& self ,)"@.last()),
{
    reveal_strlit("(& self ,)");
    reveal_strlit(" ");
    reveal_strlit("&");
    reveal_strlit("(");
    reveal_strlit(")");
    reveal_strlit(",");
    reveal_strlit("self");
    let ts = seq![
        "("@, "&"@, "self"@, ","@, ")"@,
    ];
    reveal_with_fuel(spread, 6);
    reveal_with_fuel(all_tokens, 6);
    assert("(& self ,)"@ =~= edge(false) + spread(ts, 5) + edge(false));
    lemma_edged(ts, 5, false, false);
    assert(ts.take(5) =~= ts);
}

proof fn lemma_client_params_phrase_2()
    ensures
        tokens("(& self , "@) == seq![
            "("@, "&"@, "self"@, ","@,
        ],
        "(& self , "@.len() > 0,
        is_break("(& self , "@[0]),
        is_break("(& self , "@.last()),
{
    reveal_strlit("(& self , ");
    reveal_strlit(" ");
    reveal_strlit("&");
    reveal_strlit("(");
    reveal_strlit(",");
    reveal_strlit("self");
    let ts = seq![
        "("@, "&"@, "self"@, ","@,
    ];
    reveal_with_fuel(spread, 5);
    reveal_with_fuel(all_tokens, 5);
    assert("(& self , "@ =~= edge(false) + spread(ts, 4) + edge(true));
    lemma_edged(ts, 4, false, true);
    assert(ts.take(4) =~= ts);
}

proof fn lemma_client_params_phrase_3()
    ensures
        tokens(")"@) == seq![
            ")"@,
        ],
        ")"@.len() > 0,
        is_break(")"@[0]),
        is_break(")"@.last()),
{
    reveal_strlit(")");
    reveal_strlit(" ");
    let ts = seq![
        ")"@,
    ];
    reveal_with_fuel(spread, 2);
    reveal_with_fuel(all_tokens, 2);
    assert(")"@ =~= edge(false) + spread(ts, 1) + edge(false));
    lemma_edged(ts, 1, false, false);
    assert(ts.take(1) =~= ts);
}

proof fn lemma_response_arm_phrase_1()
    ensures
        tokens(" => ()"@) == seq![
            "=>"@, "("@, ")"@,
        ],
        " => ()"@.len() > 0,
        is_break(" => ()"@[0]),
        is_break(" => ()"@.last()),
{
    reveal_strlit(" => ()");
    reveal_strlit(" ");
    reveal_strlit("(");
    reveal_strlit(")");
    reveal_strlit("=>");
    let ts = seq![
        "=>"@, "("@, ")"@,
    ];
    reveal_with_fuel(spread, 4);
    reveal_with_fuel(all_tokens, 4);
    assert(" => ()"@ =~= edge(true) + spread(ts, 3) + edge(false));
    lemma_edged(ts, 3, true, false);
    assert(ts.take(3) =~= ts);
}

proof fn lemma_response_arm_phrase_2()
    ensures
        tokens(" (v) => v"@) == seq![
            "("@, "v"@, ")"@, "=>"@, "v"@,
        ],
        " (v) => v"@.len() > 0,
        is_break(" (v) => v"@[0]),
{
    reveal_strlit(" (v) => v");
    reveal_strlit(" ");
    reveal_strlit("(");
    reveal_strlit(")");
    reveal_strlit("=>");
    reveal_strlit("v");
    let ts = seq![
        "("@, "v"@, ")"@, "=>"@, "v"@,
    ];
    reveal_with_fuel(spread, 6);
    reveal_with_fuel(all_tokens, 6);
    assert(" (v) => v"@ =~= edge(true) + spread(ts, 5) + edge(false));
    lemma_edged(ts, 5, true, false);
    assert(ts.take(5) =~= ts);
}

proof fn lemma_client_method_phrase_1()
    ensures
        tokens("async fn "@) == seq![
            "async"@, "fn"@,
        ],
        "async fn "@.len() > 0,
        is_break("async fn "@.last()),
{
    reveal_strlit("async fn ");
    reveal_strlit(" ");
    reveal_strlit("async");
    reveal_strlit("fn");
    let ts = seq![
        "async"@, "fn"@,
    ];
    reveal_with_fuel(spread, 3);
    reveal_with_fuel(all_tokens, 3);
    assert("async fn "@ =~= edge(false) + spread(ts, 2) + edge(true));
    lemma_edged(ts, 2, false, true);
    assert(ts.take(2) =~= ts);
}

proof fn lemma_client_method_phrase_2()
    ensures
        tokens(" -> < T :: Error as :: myelin :: TransportResult < "@) == seq![
            "->"@, "<"@, "T"@, "::"@, "Error"@, "as"@, "::"@, "myelin"@, "::"@,
            "TransportResult"@, "<"@,
        ],
        " -> < T :: Error as :: myelin :: TransportResult < "@.len() > 0,
        is_break(" -> < T :: Error as :: myelin :: TransportResult < "@[0]),
        is_break(" -> < T :: Error as :: myelin :: TransportResult < "@.last()),
{
    reveal_strlit(" -> < T :: Error as :: myelin :: TransportResult < ");
    reveal_strlit(" ");
    reveal_strlit("->");
    reveal_strlit("::");
    reveal_strlit("<");
    reveal_strlit("Error");
    reveal_strlit("T");
    reveal_strlit("TransportResult");
    reveal_strlit("as");
    reveal_strlit("myelin");
    let ts = seq![
        "->"@, "<"@, "T"@, "::"@, "Error"@, "as"@, "::"@, "myelin"@, "::"@,
        "TransportResult"@, "<"@,
    ];
    reveal_with_fuel(spread, 12);
    reveal_with_fuel(all_tokens, 12);
    assert(" -> < T :: Error as :: myelin :: TransportResult < "@ =~= edge(true) + spread(ts, 11) + edge(true));
    lemma_edged(ts, 11, true, true);
    assert(ts.take(11) =~= ts);
}

proof fn lemma_client_method_phrase_3()
    ensures
        tokens(" >> :: Output where T :: Error : :: myelin :: TransportResult < "@) == seq![
            ">>"@, "::"@, "Output"@, "where"@, "T"@, "::"@, "Error"@, ":"@, "::"@,
            "myelin"@, "::"@, "TransportResult"@, "<"@,
        ],
        " >> :: Output where T :: Error : :: myelin :: TransportResult < "@.len() > 0,
        is_break(" >> :: Output where T :: Error : :: myelin :: TransportResult < "@[0]),
        is_break(" >> :: Output where T :: Error : :: myelin :: TransportResult < "@.last()),
{
    reveal_strlit(" >> :: Output where T :: Error : :: myelin :: TransportResult < ");
    reveal_strlit(" ");
    reveal_strlit(":");
    reveal_strlit("::");
    reveal_strlit("<");
    reveal_strlit(">>");
    reveal_strlit("Error");
    reveal_strlit("Output");
    reveal_strlit("T");
    reveal_strlit("TransportResult");
    reveal_strlit("myelin");
    reveal_strlit("where");
    let ts = seq![
        ">>"@, "::"@, "Output"@, "where"@, "T"@, "::"@, "Error"@, ":"@, "::"@, "myelin"@,
        "::"@, "TransportResult"@, "<"@,
    ];
    reveal_with_fuel(spread, 14);
    reveal_with_fuel(all_tokens, 14);
    assert(" >> :: Output where T :: Error : :: myelin :: TransportResult < "@ =~= edge(true) + spread(ts, 13) + edge(true));
    lemma_edged(ts, 13, true, true);
    assert(ts.take(13) =~= ts);
}

proof fn lemma_client_method_phrase_4()
    ensures
        tokens(" > , { let result = self . transport . call ("@) == seq![
            ">"@, ","@, "{"@, "let"@, "result"@, "="@, "self"@, "."@, "transport"@, "."@,
            "call"@, "("@,
        ],
        " > , { let result = self . transport . call ("@.len() > 0,
        is_break(" > , { let result = self . transport . call ("@[0]),
        is_break(" > , { let result = self . transport . call ("@.last()),
{
    reveal_strlit(" > , { let result = self . transport . call (");
    reveal_strlit(" ");
    reveal_strlit("(");
    reveal_strlit(",");
    reveal_strlit(".");
    reveal_strlit("=");
    reveal_strlit(">");
    reveal_strlit("call");
    reveal_strlit("let");
    reveal_strlit("result");
    reveal_strlit("self");
    reveal_strlit("transport");
    reveal_strlit("{");
    let ts = seq![
        ">"@, ","@, "{"@, "let"@, "result"@, "="@, "self"@, "."@, "transport"@, "."@,
        "call"@, "("@,
    ];
    reveal_with_fuel(spread, 13);
    reveal_with_fuel(all_tokens, 13);
    assert(" > , { let result = self . transport . call ("@ =~= edge(true) + spread(ts, 12) + edge(false));
    lemma_edged(ts, 12, true, false);
    assert(ts.take(12) =~= ts);
}

proof fn lemma_client_method_phrase_6()
    ensures
        tokens(") . await ; :: myelin :: TransportResult :: into_output "@) == seq![
            ")"@, "."@, "await"@, ";"@, "::"@, "myelin"@, "::"@, "TransportResult"@, "::"@,
            "into_output"@,
        ],
        ") . await ; :: myelin :: TransportResult :: into_output "@.len() > 0,
        is_break(") . await ; :: myelin :: TransportResult :: into_output "@[0]),
        is_break(") . await ; :: myelin :: TransportResult :: into_output "@.last()),
{
    reveal_strlit(") . await ; :: myelin :: TransportResult :: into_output ");
    reveal_strlit(" ");
    reveal_strlit(")");
    reveal_strlit(".");
    reveal_strlit("::");
    reveal_strlit(";");
    reveal_strlit("TransportResult");
    reveal_strlit("await");
    reveal_strlit("into_output");
    reveal_strlit("myelin");
    let ts = seq![
        ")"@, "."@, "await"@, ";"@, "::"@, "myelin"@, "::"@, "TransportResult"@, "::"@,
        "into_output"@,
    ];
    reveal_with_fuel(spread, 11);
    reveal_with_fuel(all_tokens, 11);
    assert(") . await ; :: myelin :: TransportResult :: into_output "@ =~= edge(false) + spread(ts, 10) + edge(true));
    lemma_edged(ts, 10, false, true);
    assert(ts.take(10) =~= ts);
}

proof fn lemma_client_method_phrase_7()
    ensures
        tokens("(result . map (| resp | match resp { "@) == seq![
            "("@, "result"@, "."@, "map"@, "("@, "|"@, "resp"@, "|"@, "match"@, "resp"@,
            "{"@,
        ],
        "(result . map (| resp | match resp { "@.len() > 0,
        is_break("(result . map (| resp | match resp { "@[0]),
        is_break("(result . map (| resp | match resp { "@.last()),
{
    reveal_strlit("(result . map (| resp | match resp { ");
    reveal_strlit(" ");
    reveal_strlit("(");
    reveal_strlit(".");
    reveal_strlit("map");
    reveal_strlit("match");
    reveal_strlit("resp");
    reveal_strlit("result");
    reveal_strlit("{");
    reveal_strlit("|");
    let ts = seq![
        "("@, "result"@, "."@, "map"@, "("@, "|"@, "resp"@, "|"@, "match"@, "resp"@, "{"@,
    ];
    reveal_with_fuel(spread, 12);
    reveal_with_fuel(all_tokens, 12);
    assert("(result . map (| resp | match resp { "@ =~= edge(false) + spread(ts, 11) + edge(true));
    lemma_edged(ts, 11, false, true);
    assert(ts.take(11) =~= ts);
}

proof fn lemma_client_method_phrase_5()
    ensures
        tokens(") . await ; :: myelin :: TransportResult :: into_output (result . map (| resp | match resp { "@) == seq![
            ")"@, "."@, "await"@, ";"@, "::"@, "myelin"@, "::"@, "TransportResult"@, "::"@,
            "into_output"@, "("@, "result"@, "."@, "map"@, "("@, "|"@, "resp"@, "|"@,
            "match"@, "resp"@, "{"@,
        ],
        ") . await ; :: myelin :: TransportResult :: into_output (result . map (| resp | match resp { "@.len() > 0,
        is_break(") . await ; :: myelin :: TransportResult :: into_output (result . map (| resp | match resp { "@[0]),
        is_break(") . await ; :: myelin :: TransportResult :: into_output (result . map (| resp | match resp { "@.last()),
{
    let p0 = ") . await ; :: myelin :: TransportResult :: into_output "@;
    let p1 = "(result . map (| resp | match resp { "@;
    assert(") . await ; :: myelin :: TransportResult :: into_output (result . map (| resp | match resp { "@ =~= p0 + p1) by {
        reveal_strlit(") . await ; :: myelin :: TransportResult :: into_output (result . map (| resp | match resp { ");
        reveal_strlit(") . await ; :: myelin :: TransportResult :: into_output ");
        reveal_strlit("(result . map (| resp | match resp { ");
    }
    lemma_client_method_phrase_6();
    lemma_client_method_phrase_7();
    lemma_tokens_add(p0, p1);
    assert(tokens(") . await ; :: myelin :: TransportResult :: into_output (result . map (| resp | match resp { "@) =~= seq![
        ")"@, "."@, "await"@, ";"@, "::"@, "myelin"@, "::"@, "TransportResult"@, "::"@,
        "into_output"@, "("@, "result"@, "."@, "map"@, "("@, "|"@, "resp"@, "|"@, "match"@,
        "resp"@, "{"@,
    ]);
}

proof fn lemma_client_method_phrase_9()
    ensures
        tokens(" , # [allow (unreachable_patterns)] _ "@) == seq![
            ","@, "#"@, "["@, "allow"@, "("@, "unreachable_patterns"@, ")"@, "]"@, "_"@,
        ],
        " , # [allow (unreachable_patterns)] _ "@.len() > 0,
        is_break(" , # [allow (unreachable_patterns)] _ "@[0]),
        is_break(" , # [allow (unreachable_patterns)] _ "@.last()),
{
    reveal_strlit(" , # [allow (unreachable_patterns)] _ ");
    reveal_strlit(" ");
    reveal_strlit("#");
    reveal_strlit("(");
    reveal_strlit(")");
    reveal_strlit(",");
    reveal_strlit("[");
    reveal_strlit("]");
    reveal_strlit("_");
    reveal_strlit("allow");
    reveal_strlit("unreachable_patterns");
    let ts = seq![
        ","@, "#"@, "["@, "allow"@, "("@, "unreachable_patterns"@, ")"@, "]"@, "_"@,
    ];
    reveal_with_fuel(spread, 10);
    reveal_with_fuel(all_tokens, 10);
    assert(" , # [allow (unreachable_patterns)] _ "@ =~= edge(true) + spread(ts, 9) + edge(true));
    lemma_edged(ts, 9, true, true);
    assert(ts.take(9) =~= ts);
}

proof fn lemma_client_method_phrase_10()
    ensures
        tokens("=> unreachable ! () , })) } "@) == seq![
            "=>"@, "unreachable"@, "!"@, "("@, ")"@, ","@, "}"@, ")"@, ")"@, "}"@,
        ],
        "=> unreachable ! () , })) } "@.len() > 0,
        is_break("=> unreachable ! () , })) } "@.last()),
{
    reveal_strlit("=> unreachable ! () , })) } ");
    reveal_strlit(" ");
    reveal_strlit("!");
    reveal_strlit("(");
    reveal_strlit(")");
    reveal_strlit(",");
    reveal_strlit("=>");
    reveal_strlit("unreachable");
    reveal_strlit("}");
    let ts = seq![
        "=>"@, "unreachable"@, "!"@, "("@, ")"@, ","@, "}"@, ")"@, ")"@, "}"@,
    ];
    reveal_with_fuel(spread, 11);
    reveal_with_fuel(all_tokens, 11);
    assert("=> unreachable ! () , })) } "@ =~= edge(false) + spread(ts, 10) + edge(true));
    lemma_edged(ts, 10, false, true);
    assert(ts.take(10) =~= ts);
}

proof fn lemma_client_method_phrase_8()
    ensures
        tokens(" , # [allow (unreachable_patterns)] _ => unreachable ! () , })) } "@) == seq![
            ","@, "#"@, "["@, "allow"@, "("@, "unreachable_patterns"@, ")"@, "]"@, "_"@,
            "=>"@, "unreachable"@, "!"@, "("@, ")"@, ","@, "}"@, ")"@, ")"@, "}"@,
        ],
        " , # [allow (unreachable_patterns)] _ => unreachable ! () , })) } "@.len() > 0,
        is_break(" , # [allow (unreachable_patterns)] _ => unreachable ! () , })) } "@[0]),
        is_break(" , # [allow (unreachable_patterns)] _ => unreachable ! () , })) } "@.last()),
{
    let p0 = " , # [allow (unreachable_patterns)] _ "@;
    let p1 = "=> unreachable ! () , })) } "@;
    assert(" , # [allow (unreachable_patterns)] _ => unreachable ! () , })) } "@ =~= p0 + p1) by {
        reveal_strlit(" , # [allow (unreachable_patterns)] _ => unreachable ! () , })) } ");
        reveal_strlit(" , # [allow (unreachable_patterns)] _ ");
        reveal_strlit("=> unreachable ! () , })) } ");
    }
    lemma_client_method_phrase_9();
    lemma_client_method_phrase_10();
    lemma_tokens_add(p0, p1);
    assert(tokens(" , # [allow (unreachable_patterns)] _ => unreachable ! () , })) } "@) =~= seq![
        ","@, "#"@, "["@, "allow"@, "("@, "unreachable_patterns"@, ")"@, "]"@, "_"@, "=>"@,
        "unreachable"@, "!"@, "("@, ")"@, ","@, "}"@, ")"@, ")"@, "}"@,
    ]);
}

proof fn lemma_client_sync_method_phrase_1()
    ensures
        tokens("fn "@) == seq![
            "fn"@,
        ],
        "fn "@.len() > 0,
        is_break("fn "@.last()),
{
    reveal_strlit("fn ");
    reveal_strlit(" ");
    reveal_strlit("fn");
    let ts = seq![
        "fn"@,
    ];
    reveal_with_fuel(spread, 2);
    reveal_with_fuel(all_tokens, 2);
    assert("fn "@ =~= edge(false) + spread(ts, 1) + edge(true));
    lemma_edged(ts, 1, false, true);
    assert(ts.take(1) =~= ts);
}

proof fn lemma_client_sync_method_phrase_2()
    ensures
        tokens(" > , { self . block_on . block_on (self . inner . "@) == seq![
            ">"@, ","@, "{"@, "self"@, "."@, "block_on"@, "."@, "block_on"@, "("@, "self"@,
            "."@, "inner"@, "."@,
        ],
        " > , { self . block_on . block_on (self . inner . "@.len() > 0,
        is_break(" > , { self . block_on . block_on (self . inner . "@[0]),
        is_break(" > , { self . block_on . block_on (self . inner . "@.last()),
{
    reveal_strlit(" > , { self . block_on . block_on (self . inner . ");
    reveal_strlit(" ");
    reveal_strlit("(");
    reveal_strlit(",");
    reveal_strlit(".");
    reveal_strlit(">");
    reveal_strlit("block_on");
    reveal_strlit("inner");
    reveal_strlit("self");
    reveal_strlit("{");
    let ts = seq![
        ">"@, ","@, "{"@, "self"@, "."@, "block_on"@, "."@, "block_on"@, "("@, "self"@,
        "."@, "inner"@, "."@,
    ];
    reveal_with_fuel(spread, 14);
    reveal_with_fuel(all_tokens, 14);
    assert(" > , { self . block_on . block_on (self . inner . "@ =~= edge(true) + spread(ts, 13) + edge(true));
    lemma_edged(ts, 13, true, true);
    assert(ts.take(13) =~= ts);
}

proof fn lemma_client_sync_method_phrase_3()
    ensures
        tokens(")) } "@) == seq![
            ")"@, ")"@, "}"@,
        ],
        ")) } "@.len() > 0,
        is_break(")) } "@[0]),
        is_break(")) } "@.last()),
{
    reveal_strlit(")) } ");
    reveal_strlit(" ");
    reveal_strlit(")");
    reveal_strlit("}");
    let ts = seq![
        ")"@, ")"@, "}"@,
    ];
    reveal_with_fuel(spread, 4);
    reveal_with_fuel(all_tokens, 4);
    assert(")) } "@ =~= edge(false) + spread(ts, 3) + edge(true));
    lemma_edged(ts, 3, false, true);
    assert(ts.take(3) =~= ts);
}

proof fn lemma_dispatch_arm_phrase_1()
    ensures
        tokens(" => { svc . "@) == seq![
            "=>"@, "{"@, "svc"@, "."@,
        ],
        " => { svc . "@.len() > 0,
        is_break(" => { svc . "@[0]),
        is_break(" => { svc . "@.last()),
{
    reveal_strlit(" => { svc . ");
    reveal_strlit(" ");
    reveal_strlit(".");
    reveal_strlit("=>");
    reveal_strlit("svc");
    reveal_strlit("{");
    let ts = seq![
        "=>"@, "{"@, "svc"@, "."@,
    ];
    reveal_with_fuel(spread, 5);
    reveal_with_fuel(all_tokens, 5);
    assert(" => { svc . "@ =~= edge(true) + spread(ts, 4) + edge(true));
    lemma_edged(ts, 4, true, true);
    assert(ts.take(4) =~= ts);
}

proof fn lemma_dispatch_arm_phrase_2()
    ensures
        tokens(" ; "@) == seq![
            ";"@,
        ],
        " ; "@.len() > 0,
        is_break(" ; "@[0]),
        is_break(" ; "@.last()),
{
    reveal_strlit(" ; ");
    reveal_strlit(" ");
    reveal_strlit(";");
    let ts = seq![
        ";"@,
    ];
    reveal_with_fuel(spread, 2);
    reveal_with_fuel(all_tokens, 2);
    assert(" ; "@ =~= edge(true) + spread(ts, 1) + edge(true));
    lemma_edged(ts, 1, true, true);
    assert(ts.take(1) =~= ts);
}

proof fn lemma_dispatch_arm_phrase_3()
    ensures
        tokens(" => "@) == seq![
            "=>"@,
        ],
        " => "@.len() > 0,
        is_break(" => "@[0]),
        is_break(" => "@.last()),
{
    reveal_strlit(" => ");
    reveal_strlit(" ");
    reveal_strlit("=>");
    let ts = seq![
        "=>"@,
    ];
    reveal_with_fuel(spread, 2);
    reveal_with_fuel(all_tokens, 2);
    assert(" => "@ =~= edge(true) + spread(ts, 1) + edge(true));
    lemma_edged(ts, 1, true, true);
    assert(ts.take(1) =~= ts);
}

proof fn lemma_dispatch_arm_phrase_4()
    ensures
        tokens(" (svc . "@) == seq![
            "("@, "svc"@, "."@,
        ],
        " (svc . "@.len() > 0,
        is_break(" (svc . "@[0]),
        is_break(" (svc . "@.last()),
{
    reveal_strlit(" (svc . ");
    reveal_strlit(" ");
    reveal_strlit("(");
    reveal_strlit(".");
    reveal_strlit("svc");
    let ts = seq![
        "("@, "svc"@, "."@,
    ];
    reveal_with_fuel(spread, 4);
    reveal_with_fuel(all_tokens, 4);
    assert(" (svc . "@ =~= edge(true) + spread(ts, 3) + edge(true));
    lemma_edged(ts, 3, true, true);
    assert(ts.take(3) =~= ts);
}

proof fn lemma_request_enum_phrase_2()
    ensures
        tokens("# [derive (Debug)] # [cfg_attr "@) == seq![
            "#"@, "["@, "derive"@, "("@, "Debug"@, ")"@, "]"@, "#"@, "["@, "cfg_attr"@,
        ],
        "# [derive (Debug)] # [cfg_attr "@.len() > 0,
        is_break("# [derive (Debug)] # [cfg_attr "@.last()),
{
    reveal_strlit("# [derive (Debug)] # [cfg_attr ");
    reveal_strlit(" ");
    reveal_strlit("#");
    reveal_strlit("(");
    reveal_strlit(")");
    reveal_strlit("Debug");
    reveal_strlit("[");
    reveal_strlit("]");
    reveal_strlit("cfg_attr");
    reveal_strlit("derive");
    let ts = seq![
        "#"@, "["@, "derive"@, "("@, "Debug"@, ")"@, "]"@, "#"@, "["@, "cfg_attr"@,
    ];
    reveal_with_fuel(spread, 11);
    reveal_with_fuel(all_tokens, 11);
    assert("# [derive (Debug)] # [cfg_attr "@ =~= edge(false) + spread(ts, 10) + edge(true));
    lemma_edged(ts, 10, false, true);
    assert(ts.take(10) =~= ts);
}

proof fn lemma_request_enum_phrase_3()
    ensures
        tokens("(feature = \"serde\" , derive (serde "@) == seq![
            "("@, "feature"@, "="@, "\"serde\""@, ","@, "derive"@, "("@, "serde"@,
        ],
        "(feature = \"serde\" , derive (serde "@.len() > 0,
        is_break("(feature = \"serde\" , derive (serde "@[0]),
        is_break("(feature = \"serde\" , derive (serde "@.last()),
{
    reveal_strlit("(feature = \"serde\" , derive (serde ");
    reveal_strlit(" ");
    reveal_strlit("\"serde\"");
    reveal_strlit("(");
    reveal_strlit(",");
    reveal_strlit("=");
    reveal_strlit("derive");
    reveal_strlit("feature");
    reveal_strlit("serde");
    let ts = seq![
        "("@, "feature"@, "="@, "\"serde\""@, ","@, "derive"@, "("@, "serde"@,
    ];
    reveal_with_fuel(spread, 9);
    reveal_with_fuel(all_tokens, 9);
    assert("(feature = \"serde\" , derive (serde "@ =~= edge(false) + spread(ts, 8) + edge(true));
    lemma_edged(ts, 8, false, true);
    assert(ts.take(8) =~= ts);
}

proof fn lemma_request_enum_phrase_4()
    ensures
        tokens(":: Serialize , serde :: Deserialize))] "@) == seq![
            "::"@, "Serialize"@, ","@, "serde"@, "::"@, "Deserialize"@, ")"@, ")"@, "]"@,
        ],
        ":: Serialize , serde :: Deserialize))] "@.len() > 0,
        is_break(":: Serialize , serde :: Deserialize))] "@.last()),
{
    reveal_strlit(":: Serialize , serde :: Deserialize))] ");
    reveal_strlit(" ");
    reveal_strlit(")");
    reveal_strlit(",");
    reveal_strlit("::");
    reveal_strlit("Deserialize");
    reveal_strlit("Serialize");
    reveal_strlit("]");
    reveal_strlit("serde");
    let ts = seq![
        "::"@, "Serialize"@, ","@, "serde"@, "::"@, "Deserialize"@, ")"@, ")"@, "]"@,
    ];
    reveal_with_fuel(spread, 10);
    reveal_with_fuel(all_tokens, 10);
    assert(":: Serialize , serde :: Deserialize))] "@ =~= edge(false) + spread(ts, 9) + edge(true));
    lemma_edged(ts, 9, false, true);
    assert(ts.take(9) =~= ts);
}

proof fn lemma_request_enum_phrase_1()
    ensures
        tokens("# [derive (Debug)] # [cfg_attr (feature = \"serde\" , derive (serde :: Serialize , serde :: Deserialize))] "@) == seq![
            "#"@, "["@, "derive"@, "("@, "Debug"@, ")"@, "]"@, "#"@, "["@, "cfg_attr"@,
            "("@, "feature"@, "="@, "\"serde\""@, ","@, "derive"@, "("@, "serde"@, "::"@,
            "Serialize"@, ","@, "serde"@, "::"@, "Deserialize"@, ")"@, ")"@, "]"@,
        ],
        "# [derive (Debug)] # [cfg_attr (feature = \"serde\" , derive (serde :: Serialize , serde :: Deserialize))] "@.len() > 0,
        is_break("# [derive (Debug)] # [cfg_attr (feature = \"serde\" , derive (serde :: Serialize , serde :: Deserialize))] "@.last()),
{
    let p0 = "# [derive (Debug)] # [cfg_attr "@;
    let p1 = "(feature = \"serde\" , derive (serde "@;
    let p2 = ":: Serialize , serde :: Deserialize))] "@;
    assert("# [derive (Debug)] # [cfg_attr (feature = \"serde\" , derive (serde :: Serialize , serde :: Deserialize))] "@ =~= p0 + p1 + p2) by {
        reveal_strlit("# [derive (Debug)] # [cfg_attr (feature = \"serde\" , derive (serde :: Serialize , serde :: Deserialize))] ");
        reveal_strlit("# [derive (Debug)] # [cfg_attr ");
        reveal_strlit("(feature = \"serde\" , derive (serde ");
        reveal_strlit(":: Serialize , serde :: Deserialize))] ");
    }
    lemma_request_enum_phrase_2();
    lemma_request_enum_phrase_3();
    lemma_request_enum_phrase_4();
    lemma_tokens_add(p0, p1);
    lemma_tokens_add(p0 + p1, p2);
    assert(tokens("# [derive (Debug)] # [cfg_attr (feature = \"serde\" , derive (serde :: Serialize , serde :: Deserialize))] "@) =~= seq![
        "#"@, "["@, "derive"@, "("@, "Debug"@, ")"@, "]"@, "#"@, "["@, "cfg_attr"@, "("@,
        "feature"@, "="@, "\"serde\""@, ","@, "derive"@, "("@, "serde"@, "::"@,
        "Serialize"@, ","@, "serde"@, "::"@, "Deserialize"@, ")"@, ")"@, "]"@,
    ]);
}

proof fn lemma_request_enum_phrase_5()
    ensures
        tokens("enum "@) == seq![
            "enum"@,
        ],
        "enum "@.len() > 0,
        is_break("enum "@.last()),
{
    reveal_strlit("enum ");
    reveal_strlit(" ");
    reveal_strlit("enum");
    let ts = seq![
        "enum"@,
    ];
    reveal_with_fuel(spread, 2);
    reveal_with_fuel(all_tokens, 2);
    assert("enum "@ =~= edge(false) + spread(ts, 1) + edge(true));
    lemma_edged(ts, 1, false, true);
    assert(ts.take(1) =~= ts);
}

proof fn lemma_request_enum_phrase_6()
    ensures
        tokens("}"@) == seq![
            "}"@,
        ],
        "}"@.len() > 0,
{
    reveal_strlit("}");
    reveal_strlit(" ");
    let ts = seq![
        "}"@,
    ];
    reveal_with_fuel(spread, 2);
    reveal_with_fuel(all_tokens, 2);
    assert("}"@ =~= edge(false) + spread(ts, 1) + edge(false));
    lemma_edged(ts, 1, false, false);
    assert(ts.take(1) =~= ts);
}

proof fn lemma_sync_trait_phrase_1()
    ensures
        tokens("trait "@) == seq![
            "trait"@,
        ],
        "trait "@.len() > 0,
        is_break("trait "@.last()),
{
    reveal_strlit("trait ");
    reveal_strlit(" ");
    reveal_strlit("trait");
    let ts = seq![
        "trait"@,
    ];
    reveal_with_fuel(spread, 2);
    reveal_with_fuel(all_tokens, 2);
    assert("trait "@ =~= edge(false) + spread(ts, 1) + edge(true));
    lemma_edged(ts, 1, false, true);
    assert(ts.take(1) =~= ts);
}

proof fn lemma_client_struct_phrase_1()
    ensures
        tokens("struct "@) == seq![
            "struct"@,
        ],
        "struct "@.len() > 0,
        is_break("struct "@.last()),
{
    reveal_strlit("struct ");
    reveal_strlit(" ");
    reveal_strlit("struct");
    let ts = seq![
        "struct"@,
    ];
    reveal_with_fuel(spread, 2);
    reveal_with_fuel(all_tokens, 2);
    assert("struct "@ =~= edge(false) + spread(ts, 1) + edge(true));
    lemma_edged(ts, 1, false, true);
    assert(ts.take(1) =~= ts);
}

proof fn lemma_client_struct_phrase_2()
    ensures
        tokens(" < T > { transport : T , } impl < T > "@) == seq![
            "<"@, "T"@, ">"@, "{"@, "transport"@, ":"@, "T"@, ","@, "}"@, "impl"@, "<"@,
            "T"@, ">"@,
        ],
        " < T > { transport : T , } impl < T > "@.len() > 0,
        is_break(" < T > { transport : T , } impl < T > "@[0]),
        is_break(" < T > { transport : T , } impl < T > "@.last()),
{
    reveal_strlit(" < T > { transport : T , } impl < T > ");
    reveal_strlit(" ");
    reveal_strlit(",");
    reveal_strlit(":");
    reveal_strlit("<");
    reveal_strlit(">");
    reveal_strlit("T");
    reveal_strlit("impl");
    reveal_strlit("transport");
    reveal_strlit("{");
    reveal_strlit("}");
    let ts = seq![
        "<"@, "T"@, ">"@, "{"@, "transport"@, ":"@, "T"@, ","@, "}"@, "impl"@, "<"@, "T"@,
        ">"@,
    ];
    reveal_with_fuel(spread, 14);
    reveal_with_fuel(all_tokens, 14);
    assert(" < T > { transport : T , } impl < T > "@ =~= edge(true) + spread(ts, 13) + edge(true));
    lemma_edged(ts, 13, true, true);
    assert(ts.take(13) =~= ts);
}

proof fn lemma_client_struct_phrase_3()
    ensures
        tokens(" < T > where T : :: myelin :: ClientTransport < "@) == seq![
            "<"@, "T"@, ">"@, "where"@, "T"@, ":"@, "::"@, "myelin"@, "::"@,
            "ClientTransport"@, "<"@,
        ],
        " < T > where T : :: myelin :: ClientTransport < "@.len() > 0,
        is_break(" < T > where T : :: myelin :: ClientTransport < "@[0]),
        is_break(" < T > where T : :: myelin :: ClientTransport < "@.last()),
{
    reveal_strlit(" < T > where T : :: myelin :: ClientTransport < ");
    reveal_strlit(" ");
    reveal_strlit(":");
    reveal_strlit("::");
    reveal_strlit("<");
    reveal_strlit(">");
    reveal_strlit("ClientTransport");
    reveal_strlit("T");
    reveal_strlit("myelin");
    reveal_strlit("where");
    let ts = seq![
        "<"@, "T"@, ">"@, "where"@, "T"@, ":"@, "::"@, "myelin"@, "::"@,
        "ClientTransport"@, "<"@,
    ];
    reveal_with_fuel(spread, 12);
    reveal_with_fuel(all_tokens, 12);
    assert(" < T > where T : :: myelin :: ClientTransport < "@ =~= edge(true) + spread(ts, 11) + edge(true));
    lemma_edged(ts, 11, true, true);
    assert(ts.take(11) =~= ts);
}

proof fn lemma_client_struct_phrase_4()
    ensures
        tokens(" > , { "@) == seq![
            ">"@, ","@, "{"@,
        ],
        " > , { "@.len() > 0,
        is_break(" > , { "@[0]),
        is_break(" > , { "@.last()),
{
    reveal_strlit(" > , { ");
    reveal_strlit(" ");
    reveal_strlit(",");
    reveal_strlit(">");
    reveal_strlit("{");
    let ts = seq![
        ">"@, ","@, "{"@,
    ];
    reveal_with_fuel(spread, 4);
    reveal_with_fuel(all_tokens, 4);
    assert(" > , { "@ =~= edge(true) + spread(ts, 3) + edge(true));
    lemma_edged(ts, 3, true, true);
    assert(ts.take(3) =~= ts);
}

proof fn lemma_client_struct_phrase_5()
    ensures
        tokens("fn new (transport : T) -> Self { Self { transport } } "@) == seq![
            "fn"@, "new"@, "("@, "transport"@, ":"@, "T"@, ")"@, "->"@, "Self"@, "{"@,
            "Self"@, "{"@, "transport"@, "}"@, "}"@,
        ],
        "fn new (transport : T) -> Self { Self { transport } } "@.len() > 0,
        is_break("fn new (transport : T) -> Self { Self { transport } } "@.last()),
{
    reveal_strlit("fn new (transport : T) -> Self { Self { transport } } ");
    reveal_strlit(" ");
    reveal_strlit("(");
    reveal_strlit(")");
    reveal_strlit("->");
    reveal_strlit(":");
    reveal_strlit("Self");
    reveal_strlit("T");
    reveal_strlit("fn");
    reveal_strlit("new");
    reveal_strlit("transport");
    reveal_strlit("{");
    reveal_strlit("}");
    let ts = seq![
        "fn"@, "new"@, "("@, "transport"@, ":"@, "T"@, ")"@, "->"@, "Self"@, "{"@, "Self"@,
        "{"@, "transport"@, "}"@, "}"@,
    ];
    reveal_with_fuel(spread, 16);
    reveal_with_fuel(all_tokens, 16);
    assert("fn new (transport : T) -> Self { Self { transport } } "@ =~= edge(false) + spread(ts, 15) + edge(true));
    lemma_edged(ts, 15, false, true);
    assert(ts.take(15) =~= ts);
}

proof fn lemma_client_sync_struct_phrase_1()
    ensures
        tokens(" < T , B > { inner : "@) == seq![
            "<"@, "T"@, ","@, "B"@, ">"@, "{"@, "inner"@, ":"@,
        ],
        " < T , B > { inner : "@.len() > 0,
        is_break(" < T , B > { inner : "@[0]),
        is_break(" < T , B > { inner : "@.last()),
{
    reveal_strlit(" < T , B > { inner : ");
    reveal_strlit(" ");
    reveal_strlit(",");
    reveal_strlit(":");
    reveal_strlit("<");
    reveal_strlit(">");
    reveal_strlit("B");
    reveal_strlit("T");
    reveal_strlit("inner");
    reveal_strlit("{");
    let ts = seq![
        "<"@, "T"@, ","@, "B"@, ">"@, "{"@, "inner"@, ":"@,
    ];
    reveal_with_fuel(spread, 9);
    reveal_with_fuel(all_tokens, 9);
    assert(" < T , B > { inner : "@ =~= edge(true) + spread(ts, 8) + edge(true));
    lemma_edged(ts, 8, true, true);
    assert(ts.take(8) =~= ts);
}

proof fn lemma_client_sync_struct_phrase_2()
    ensures
        tokens(" < T > , block_on : B , } impl < T , B > "@) == seq![
            "<"@, "T"@, ">"@, ","@, "block_on"@, ":"@, "B"@, ","@, "}"@, "impl"@, "<"@,
            "T"@, ","@, "B"@, ">"@,
        ],
        " < T > , block_on : B , } impl < T , B > "@.len() > 0,
        is_break(" < T > , block_on : B , } impl < T , B > "@[0]),
        is_break(" < T > , block_on : B , } impl < T , B > "@.last()),
{
    reveal_strlit(" < T > , block_on : B , } impl < T , B > ");
    reveal_strlit(" ");
    reveal_strlit(",");
    reveal_strlit(":");
    reveal_strlit("<");
    reveal_strlit(">");
    reveal_strlit("B");
    reveal_strlit("T");
    reveal_strlit("block_on");
    reveal_strlit("impl");
    reveal_strlit("}");
    let ts = seq![
        "<"@, "T"@, ">"@, ","@, "block_on"@, ":"@, "B"@, ","@, "}"@, "impl"@, "<"@, "T"@,
        ","@, "B"@, ">"@,
    ];
    reveal_with_fuel(spread, 16);
    reveal_with_fuel(all_tokens, 16);
    assert(" < T > , block_on : B , } impl < T , B > "@ =~= edge(true) + spread(ts, 15) + edge(true));
    lemma_edged(ts, 15, true, true);
    assert(ts.take(15) =~= ts);
}

proof fn lemma_client_sync_struct_phrase_3()
    ensures
        tokens(" < T , B > where T : :: myelin :: ClientTransport < "@) == seq![
            "<"@, "T"@, ","@, "B"@, ">"@, "where"@, "T"@, ":"@, "::"@, "myelin"@, "::"@,
            "ClientTransport"@, "<"@,
        ],
        " < T , B > where T : :: myelin :: ClientTransport < "@.len() > 0,
        is_break(" < T , B > where T : :: myelin :: ClientTransport < "@[0]),
        is_break(" < T , B > where T : :: myelin :: ClientTransport < "@.last()),
{
    reveal_strlit(" < T , B > where T : :: myelin :: ClientTransport < ");
    reveal_strlit(" ");
    reveal_strlit(",");
    reveal_strlit(":");
    reveal_strlit("::");
    reveal_strlit("<");
    reveal_strlit(">");
    reveal_strlit("B");
    reveal_strlit("ClientTransport");
    reveal_strlit("T");
    reveal_strlit("myelin");
    reveal_strlit("where");
    let ts = seq![
        "<"@, "T"@, ","@, "B"@, ">"@, "where"@, "T"@, ":"@, "::"@, "myelin"@, "::"@,
        "ClientTransport"@, "<"@,
    ];
    reveal_with_fuel(spread, 14);
    reveal_with_fuel(all_tokens, 14);
    assert(" < T , B > where T : :: myelin :: ClientTransport < "@ =~= edge(true) + spread(ts, 13) + edge(true));
    lemma_edged(ts, 13, true, true);
    assert(ts.take(13) =~= ts);
}

proof fn lemma_client_sync_struct_phrase_4()
    ensures
        tokens(" > , B : :: myelin :: BlockOn , { "@) == seq![
            ">"@, ","@, "B"@, ":"@, "::"@, "myelin"@, "::"@, "BlockOn"@, ","@, "{"@,
        ],
        " > , B : :: myelin :: BlockOn , { "@.len() > 0,
        is_break(" > , B : :: myelin :: BlockOn , { "@[0]),
        is_break(" > , B : :: myelin :: BlockOn , { "@.last()),
{
    reveal_strlit(" > , B : :: myelin :: BlockOn , { ");
    reveal_strlit(" ");
    reveal_strlit(",");
    reveal_strlit(":");
    reveal_strlit("::");
    reveal_strlit(">");
    reveal_strlit("B");
    reveal_strlit("BlockOn");
    reveal_strlit("myelin");
    reveal_strlit("{");
    let ts = seq![
        ">"@, ","@, "B"@, ":"@, "::"@, "myelin"@, "::"@, "BlockOn"@, ","@, "{"@,
    ];
    reveal_with_fuel(spread, 11);
    reveal_with_fuel(all_tokens, 11);
    assert(" > , B : :: myelin :: BlockOn , { "@ =~= edge(true) + spread(ts, 10) + edge(true));
    lemma_edged(ts, 10, true, true);
    assert(ts.take(10) =~= ts);
}

proof fn lemma_client_sync_struct_phrase_5()
    ensures
        tokens("fn new (inner : "@) == seq![
            "fn"@, "new"@, "("@, "inner"@, ":"@,
        ],
        "fn new (inner : "@.len() > 0,
        is_break("fn new (inner : "@.last()),
{
    reveal_strlit("fn new (inner : ");
    reveal_strlit(" ");
    reveal_strlit("(");
    reveal_strlit(":");
    reveal_strlit("fn");
    reveal_strlit("inner");
    reveal_strlit("new");
    let ts = seq![
        "fn"@, "new"@, "("@, "inner"@, ":"@,
    ];
    reveal_with_fuel(spread, 6);
    reveal_with_fuel(all_tokens, 6);
    assert("fn new (inner : "@ =~= edge(false) + spread(ts, 5) + edge(true));
    lemma_edged(ts, 5, false, true);
    assert(ts.take(5) =~= ts);
}

proof fn lemma_client_sync_struct_phrase_7()
    ensures
        tokens(" < T > , block_on : B) -> "@) == seq![
            "<"@, "T"@, ">"@, ","@, "block_on"@, ":"@, "B"@, ")"@, "->"@,
        ],
        " < T > , block_on : B) -> "@.len() > 0,
        is_break(" < T > , block_on : B) -> "@[0]),
        is_break(" < T > , block_on : B) -> "@.last()),
{
    reveal_strlit(" < T > , block_on : B) -> ");
    reveal_strlit(" ");
    reveal_strlit(")");
    reveal_strlit(",");
    reveal_strlit("->");
    reveal_strlit(":");
    reveal_strlit("<");
    reveal_strlit(">");
    reveal_strlit("B");
    reveal_strlit("T");
    reveal_strlit("block_on");
    let ts = seq![
        "<"@, "T"@, ">"@, ","@, "block_on"@, ":"@, "B"@, ")"@, "->"@,
    ];
    reveal_with_fuel(spread, 10);
    reveal_with_fuel(all_tokens, 10);
    assert(" < T > , block_on : B) -> "@ =~= edge(true) + spread(ts, 9) + edge(true));
    lemma_edged(ts, 9, true, true);
    assert(ts.take(9) =~= ts);
}

proof fn lemma_client_sync_struct_phrase_8()
    ensures
        tokens("Self { Self { inner , block_on } } "@) == seq![
            "Self"@, "{"@, "Self"@, "{"@, "inner"@, ","@, "block_on"@, "}"@, "}"@,
        ],
        "Self { Self { inner , block_on } } "@.len() > 0,
        is_break("Self { Self { inner , block_on } } "@.last()),
{
    reveal_strlit("Self { Self { inner , block_on } } ");
    reveal_strlit(" ");
    reveal_strlit(",");
    reveal_strlit("Self");
    reveal_strlit("block_on");
    reveal_strlit("inner");
    reveal_strlit("{");
    reveal_strlit("}");
    let ts = seq![
        "Self"@, "{"@, "Self"@, "{"@, "inner"@, ","@, "block_on"@, "}"@, "}"@,
    ];
    reveal_with_fuel(spread, 10);
    reveal_with_fuel(all_tokens, 10);
    assert("Self { Self { inner , block_on } } "@ =~= edge(false) + spread(ts, 9) + edge(true));
    lemma_edged(ts, 9, false, true);
    assert(ts.take(9) =~= ts);
}

proof fn lemma_client_sync_struct_phrase_6()
    ensures
        tokens(" < T > , block_on : B) -> Self { Self { inner , block_on } } "@) == seq![
            "<"@, "T"@, ">"@, ","@, "block_on"@, ":"@, "B"@, ")"@, "->"@, "Self"@, "{"@,
            "Self"@, "{"@, "inner"@, ","@, "block_on"@, "}"@, "}"@,
        ],
        " < T > , block_on : B) -> Self { Self { inner , block_on } } "@.len() > 0,
        is_break(" < T > , block_on : B) -> Self { Self { inner , block_on } } "@[0]),
        is_break(" < T > , block_on : B) -> Self { Self { inner , block_on } } "@.last()),
{
    let p0 = " < T > , block_on : B) -> "@;
    let p1 = "Self { Self { inner , block_on } } "@;
    assert(" < T > , block_on : B) -> Self { Self { inner , block_on } } "@ =~= p0 + p1) by {
        reveal_strlit(" < T > , block_on : B) -> Self { Self { inner , block_on } } ");
        reveal_strlit(" < T > , block_on : B) -> ");
        reveal_strlit("Self { Self { inner , block_on } } ");
    }
    lemma_client_sync_struct_phrase_7();
    lemma_client_sync_struct_phrase_8();
    lemma_tokens_add(p0, p1);
    assert(tokens(" < T > , block_on : B) -> Self { Self { inner , block_on } } "@) =~= seq![
        "<"@, "T"@, ">"@, ","@, "block_on"@, ":"@, "B"@, ")"@, "->"@, "Self"@, "{"@,
        "Self"@, "{"@, "inner"@, ","@, "block_on"@, "}"@, "}"@,
    ]);
}

proof fn lemma_dispatch_fn_phrase_1()
    ensures
        tokens(" < S : "@) == seq![
            "<"@, "S"@, ":"@,
        ],
        " < S : "@.len() > 0,
        is_break(" < S : "@[0]),
        is_break(" < S : "@.last()),
{
    reveal_strlit(" < S : ");
    reveal_strlit(" ");
    reveal_strlit(":");
    reveal_strlit("<");
    reveal_strlit("S");
    let ts = seq![
        "<"@, "S"@, ":"@,
    ];
    reveal_with_fuel(spread, 4);
    reveal_with_fuel(all_tokens, 4);
    assert(" < S : "@ =~= edge(true) + spread(ts, 3) + edge(true));
    lemma_edged(ts, 3, true, true);
    assert(ts.take(3) =~= ts);
}

proof fn lemma_dispatch_fn_phrase_2()
    ensures
        tokens(" > (svc : & S , req : "@) == seq![
            ">"@, "("@, "svc"@, ":"@, "&"@, "S"@, ","@, "req"@, ":"@,
        ],
        " > (svc : & S , req : "@.len() > 0,
        is_break(" > (svc : & S , req : "@[0]),
        is_break(" > (svc : & S , req : "@.last()),
{
    reveal_strlit(" > (svc : & S , req : ");
    reveal_strlit(" ");
    reveal_strlit("&");
    reveal_strlit("(");
    reveal_strlit(",");
    reveal_strlit(":");
    reveal_strlit(">");
    reveal_strlit("S");
    reveal_strlit("req");
    reveal_strlit("svc");
    let ts = seq![
        ">"@, "("@, "svc"@, ":"@, "&"@, "S"@, ","@, "req"@, ":"@,
    ];
    reveal_with_fuel(spread, 10);
    reveal_with_fuel(all_tokens, 10);
    assert(" > (svc : & S , req : "@ =~= edge(true) + spread(ts, 9) + edge(true));
    lemma_edged(ts, 9, true, true);
    assert(ts.take(9) =~= ts);
}

proof fn lemma_dispatch_fn_phrase_3()
    ensures
        tokens(") -> "@) == seq![
            ")"@, "->"@,
        ],
        ") -> "@.len() > 0,
        is_break(") -> "@[0]),
        is_break(") -> "@.last()),
{
    reveal_strlit(") -> ");
    reveal_strlit(" ");
    reveal_strlit(")");
    reveal_strlit("->");
    let ts = seq![
        ")"@, "->"@,
    ];
    reveal_with_fuel(spread, 3);
    reveal_with_fuel(all_tokens, 3);
    assert(") -> "@ =~= edge(false) + spread(ts, 2) + edge(true));
    lemma_edged(ts, 2, false, true);
    assert(ts.take(2) =~= ts);
}

proof fn lemma_dispatch_fn_phrase_4()
    ensures
        tokens(" { match req { "@) == seq![
            "{"@, "match"@, "req"@, "{"@,
        ],
        " { match req { "@.len() > 0,
        is_break(" { match req { "@[0]),
        is_break(" { match req { "@.last()),
{
    reveal_strlit(" { match req { ");
    reveal_strlit(" ");
    reveal_strlit("match");
    reveal_strlit("req");
    reveal_strlit("{");
    let ts = seq![
        "{"@, "match"@, "req"@, "{"@,
    ];
    reveal_with_fuel(spread, 5);
    reveal_with_fuel(all_tokens, 5);
    assert(" { match req { "@ =~= edge(true) + spread(ts, 4) + edge(true));
    lemma_edged(ts, 4, true, true);
    assert(ts.take(4) =~= ts);
}

proof fn lemma_dispatch_fn_phrase_5()
    ensures
        tokens("} }"@) == seq![
            "}"@, "}"@,
        ],
        "} }"@.len() > 0,
{
    reveal_strlit("} }");
    reveal_strlit(" ");
    reveal_strlit("}");
    let ts = seq![
        "}"@, "}"@,
    ];
    reveal_with_fuel(spread, 3);
    reveal_with_fuel(all_tokens, 3);
    assert("} }"@ =~= edge(false) + spread(ts, 2) + edge(false));
    lemma_edged(ts, 2, false, false);
    assert(ts.take(2) =~= ts);
}

proof fn lemma_serve_fn_phrase_2()
    ensures
        tokens(" < S , T > (svc : & S , transport "@) == seq![
            "<"@, "S"@, ","@, "T"@, ">"@, "("@, "svc"@, ":"@, "&"@, "S"@, ","@,
            "transport"@,
        ],
        " < S , T > (svc : & S , transport "@.len() > 0,
        is_break(" < S , T > (svc : & S , transport "@[0]),
        is_break(" < S , T > (svc : & S , transport "@.last()),
{
    reveal_strlit(" < S , T > (svc : & S , transport ");
    reveal_strlit(" ");
    reveal_strlit("&");
    reveal_strlit("(");
    reveal_strlit(",");
    reveal_strlit(":");
    reveal_strlit("<");
    reveal_strlit(">");
    reveal_strlit("S");
    reveal_strlit("T");
    reveal_strlit("svc");
    reveal_strlit("transport");
    let ts = seq![
        "<"@, "S"@, ","@, "T"@, ">"@, "("@, "svc"@, ":"@, "&"@, "S"@, ","@, "transport"@,
    ];
    reveal_with_fuel(spread, 13);
    reveal_with_fuel(all_tokens, 13);
    assert(" < S , T > (svc : & S , transport "@ =~= edge(true) + spread(ts, 12) + edge(true));
    lemma_edged(ts, 12, true, true);
    assert(ts.take(12) =~= ts);
}

proof fn lemma_serve_fn_phrase_3()
    ensures
        tokens(": & mut T) -> :: core :: result :: "@) == seq![
            ":"@, "&"@, "mut"@, "T"@, ")"@, "->"@, "::"@, "core"@, "::"@, "result"@, "::"@,
        ],
        ": & mut T) -> :: core :: result :: "@.len() > 0,
        is_break(": & mut T) -> :: core :: result :: "@.last()),
{
    reveal_strlit(": & mut T) -> :: core :: result :: ");
    reveal_strlit(" ");
    reveal_strlit("&");
    reveal_strlit(")");
    reveal_strlit("->");
    reveal_strlit(":");
    reveal_strlit("::");
    reveal_strlit("T");
    reveal_strlit("core");
    reveal_strlit("mut");
    reveal_strlit("result");
    let ts = seq![
        ":"@, "&"@, "mut"@, "T"@, ")"@, "->"@, "::"@, "core"@, "::"@, "result"@, "::"@,
    ];
    reveal_with_fuel(spread, 12);
    reveal_with_fuel(all_tokens, 12);
    assert(": & mut T) -> :: core :: result :: "@ =~= edge(false) + spread(ts, 11) + edge(true));
    lemma_edged(ts, 11, false, true);
    assert(ts.take(11) =~= ts);
}

proof fn lemma_serve_fn_phrase_4()
    ensures
        tokens("Result < () , T :: Error > where S : "@) == seq![
            "Result"@, "<"@, "("@, ")"@, ","@, "T"@, "::"@, "Error"@, ">"@, "where"@, "S"@,
            ":"@,
        ],
        "Result < () , T :: Error > where S : "@.len() > 0,
        is_break("Result < () , T :: Error > where S : "@.last()),
{
    reveal_strlit("Result < () , T :: Error > where S : ");
    reveal_strlit(" ");
    reveal_strlit("(");
    reveal_strlit(")");
    reveal_strlit(",");
    reveal_strlit(":");
    reveal_strlit("::");
    reveal_strlit("<");
    reveal_strlit(">");
    reveal_strlit("Error");
    reveal_strlit("Result");
    reveal_strlit("S");
    reveal_strlit("T");
    reveal_strlit("where");
    let ts = seq![
        "Result"@, "<"@, "("@, ")"@, ","@, "T"@, "::"@, "Error"@, ">"@, "where"@, "S"@,
        ":"@,
    ];
    reveal_with_fuel(spread, 13);
    reveal_with_fuel(all_tokens, 13);
    assert("Result < () , T :: Error > where S : "@ =~= edge(false) + spread(ts, 12) + edge(true));
    lemma_edged(ts, 12, false, true);
    assert(ts.take(12) =~= ts);
}

proof fn lemma_serve_fn_phrase_1()
    ensures
        tokens(" < S , T > (svc : & S , transport : & mut T) -> :: core :: result :: Result < () , T :: Error > where S : "@) == seq![
            "<"@, "S"@, ","@, "T"@, ">"@, "("@, "svc"@, ":"@, "&"@, "S"@, ","@,
            "transport"@, ":"@, "&"@, "mut"@, "T"@, ")"@, "->"@, "::"@, "core"@, "::"@,
            "result"@, "::"@, "Result"@, "<"@, "("@, ")"@, ","@, "T"@, "::"@, "Error"@,
            ">"@, "where"@, "S"@, ":"@,
        ],
        " < S , T > (svc : & S , transport : & mut T) -> :: core :: result :: Result < () , T :: Error > where S : "@.len() > 0,
        is_break(" < S , T > (svc : & S , transport : & mut T) -> :: core :: result :: Result < () , T :: Error > where S : "@[0]),
        is_break(" < S , T > (svc : & S , transport : & mut T) -> :: core :: result :: Result < () , T :: Error > where S : "@.last()),
{
    let p0 = " < S , T > (svc : & S , transport "@;
    let p1 = ": & mut T) -> :: core :: result :: "@;
    let p2 = "Result < () , T :: Error > where S : "@;
    assert(" < S , T > (svc : & S , transport : & mut T) -> :: core :: result :: Result < () , T :: Error > where S : "@ =~= p0 + p1 + p2) by {
        reveal_strlit(" < S , T > (svc : & S , transport : & mut T) -> :: core :: result :: Result < () , T :: Error > where S : ");
        reveal_strlit(" < S , T > (svc : & S , transport ");
        reveal_strlit(": & mut T) -> :: core :: result :: ");
        reveal_strlit("Result < () , T :: Error > where S : ");
    }
    lemma_serve_fn_phrase_2();
    lemma_serve_fn_phrase_3();
    lemma_serve_fn_phrase_4();
    lemma_tokens_add(p0, p1);
    lemma_tokens_add(p0 + p1, p2);
    assert(tokens(" < S , T > (svc : & S , transport : & mut T) -> :: core :: result :: Result < () , T :: Error > where S : "@) =~= seq![
        "<"@, "S"@, ","@, "T"@, ">"@, "("@, "svc"@, ":"@, "&"@, "S"@, ","@, "transport"@,
        ":"@, "&"@, "mut"@, "T"@, ")"@, "->"@, "::"@, "core"@, "::"@, "result"@, "::"@,
        "Result"@, "<"@, "("@, ")"@, ","@, "T"@, "::"@, "Error"@, ">"@, "where"@, "S"@,
        ":"@,
    ]);
}

proof fn lemma_serve_fn_phrase_5()
    ensures
        tokens(" , T : :: myelin :: ServerTransport < "@) == seq![
            ","@, "T"@, ":"@, "::"@, "myelin"@, "::"@, "ServerTransport"@, "<"@,
        ],
        " , T : :: myelin :: ServerTransport < "@.len() > 0,
        is_break(" , T : :: myelin :: ServerTransport < "@[0]),
        is_break(" , T : :: myelin :: ServerTransport < "@.last()),
{
    reveal_strlit(" , T : :: myelin :: ServerTransport < ");
    reveal_strlit(" ");
    reveal_strlit(",");
    reveal_strlit(":");
    reveal_strlit("::");
    reveal_strlit("<");
    reveal_strlit("ServerTransport");
    reveal_strlit("T");
    reveal_strlit("myelin");
    let ts = seq![
        ","@, "T"@, ":"@, "::"@, "myelin"@, "::"@, "ServerTransport"@, "<"@,
    ];
    reveal_with_fuel(spread, 9);
    reveal_with_fuel(all_tokens, 9);
    assert(" , T : :: myelin :: ServerTransport < "@ =~= edge(true) + spread(ts, 8) + edge(true));
    lemma_edged(ts, 8, true, true);
    assert(ts.take(8) =~= ts);
}

proof fn lemma_serve_fn_phrase_7()
    ensures
        tokens(" > , { loop { let (req , token) = "@) == seq![
            ">"@, ","@, "{"@, "loop"@, "{"@, "let"@, "("@, "req"@, ","@, "token"@, ")"@,
            "="@,
        ],
        " > , { loop { let (req , token) = "@.len() > 0,
        is_break(" > , { loop { let (req , token) = "@[0]),
        is_break(" > , { loop { let (req , token) = "@.last()),
{
    reveal_strlit(" > , { loop { let (req , token) = ");
    reveal_strlit(" ");
    reveal_strlit("(");
    reveal_strlit(")");
    reveal_strlit(",");
    reveal_strlit("=");
    reveal_strlit(">");
    reveal_strlit("let");
    reveal_strlit("loop");
    reveal_strlit("req");
    reveal_strlit("token");
    reveal_strlit("{");
    let ts = seq![
        ">"@, ","@, "{"@, "loop"@, "{"@, "let"@, "("@, "req"@, ","@, "token"@, ")"@, "="@,
    ];
    reveal_with_fuel(spread, 13);
    reveal_with_fuel(all_tokens, 13);
    assert(" > , { loop { let (req , token) = "@ =~= edge(true) + spread(ts, 12) + edge(true));
    lemma_edged(ts, 12, true, true);
    assert(ts.take(12) =~= ts);
}

proof fn lemma_serve_fn_phrase_8()
    ensures
        tokens("transport . recv () . await ? ; let resp = "@) == seq![
            "transport"@, "."@, "recv"@, "("@, ")"@, "."@, "await"@, "?"@, ";"@, "let"@,
            "resp"@, "="@,
        ],
        "transport . recv () . await ? ; let resp = "@.len() > 0,
        is_break("transport . recv () . await ? ; let resp = "@.last()),
{
    reveal_strlit("transport . recv () . await ? ; let resp = ");
    reveal_strlit(" ");
    reveal_strlit("(");
    reveal_strlit(")");
    reveal_strlit(".");
    reveal_strlit(";");
    reveal_strlit("=");
    reveal_strlit("?");
    reveal_strlit("await");
    reveal_strlit("let");
    reveal_strlit("recv");
    reveal_strlit("resp");
    reveal_strlit("transport");
    let ts = seq![
        "transport"@, "."@, "recv"@, "("@, ")"@, "."@, "await"@, "?"@, ";"@, "let"@,
        "resp"@, "="@,
    ];
    reveal_with_fuel(spread, 13);
    reveal_with_fuel(all_tokens, 13);
    assert("transport . recv () . await ? ; let resp = "@ =~= edge(false) + spread(ts, 12) + edge(true));
    lemma_edged(ts, 12, false, true);
    assert(ts.take(12) =~= ts);
}

proof fn lemma_serve_fn_phrase_6()
    ensures
        tokens(" > , { loop { let (req , token) = transport . recv () . await ? ; let resp = "@) == seq![
            ">"@, ","@, "{"@, "loop"@, "{"@, "let"@, "("@, "req"@, ","@, "token"@, ")"@,
            "="@, "transport"@, "."@, "recv"@, "("@, ")"@, "."@, "await"@, "?"@, ";"@,
            "let"@, "resp"@, "="@,
        ],
        " > , { loop { let (req , token) = transport . recv () . await ? ; let resp = "@.len() > 0,
        is_break(" > , { loop { let (req , token) = transport . recv () . await ? ; let resp = "@[0]),
        is_break(" > , { loop { let (req , token) = transport . recv () . await ? ; let resp = "@.last()),
{
    let p0 = " > , { loop { let (req , token) = "@;
    let p1 = "transport . recv () . await ? ; let resp = "@;
    assert(" > , { loop { let (req , token) = transport . recv () . await ? ; let resp = "@ =~= p0 + p1) by {
        reveal_strlit(" > , { loop { let (req , token) = transport . recv () . await ? ; let resp = ");
        reveal_strlit(" > , { loop { let (req , token) = ");
        reveal_strlit("transport . recv () . await ? ; let resp = ");
    }
    lemma_serve_fn_phrase_7();
    lemma_serve_fn_phrase_8();
    lemma_tokens_add(p0, p1);
    assert(tokens(" > , { loop { let (req , token) = transport . recv () . await ? ; let resp = "@) =~= seq![
        ">"@, ","@, "{"@, "loop"@, "{"@, "let"@, "("@, "req"@, ","@, "token"@, ")"@, "="@,
        "transport"@, "."@, "recv"@, "("@, ")"@, "."@, "await"@, "?"@, ";"@, "let"@,
        "resp"@, "="@,
    ]);
}

proof fn lemma_serve_fn_phrase_10()
    ensures
        tokens(" (svc , req) . await ; let _ = transport "@) == seq![
            "("@, "svc"@, ","@, "req"@, ")"@, "."@, "await"@, ";"@, "let"@, "_"@, "="@,
            "transport"@,
        ],
        " (svc , req) . await ; let _ = transport "@.len() > 0,
        is_break(" (svc , req) . await ; let _ = transport "@[0]),
        is_break(" (svc , req) . await ; let _ = transport "@.last()),
{
    reveal_strlit(" (svc , req) . await ; let _ = transport ");
    reveal_strlit(" ");
    reveal_strlit("(");
    reveal_strlit(")");
    reveal_strlit(",");
    reveal_strlit(".");
    reveal_strlit(";");
    reveal_strlit("=");
    reveal_strlit("_");
    reveal_strlit("await");
    reveal_strlit("let");
    reveal_strlit("req");
    reveal_strlit("svc");
    reveal_strlit("transport");
    let ts = seq![
        "("@, "svc"@, ","@, "req"@, ")"@, "."@, "await"@, ";"@, "let"@, "_"@, "="@,
        "transport"@,
    ];
    reveal_with_fuel(spread, 13);
    reveal_with_fuel(all_tokens, 13);
    assert(" (svc , req) . await ; let _ = transport "@ =~= edge(true) + spread(ts, 12) + edge(true));
    lemma_edged(ts, 12, true, true);
    assert(ts.take(12) =~= ts);
}

proof fn lemma_serve_fn_phrase_11()
    ensures
        tokens(". reply (token , resp) . await ; } }"@) == seq![
            "."@, "reply"@, "("@, "token"@, ","@, "resp"@, ")"@, "."@, "await"@, ";"@,
            "}"@, "}"@,
        ],
        ". reply (token , resp) . await ; } }"@.len() > 0,
{
    reveal_strlit(". reply (token , resp) . await ; } }");
    reveal_strlit(" ");
    reveal_strlit("(");
    reveal_strlit(")");
    reveal_strlit(",");
    reveal_strlit(".");
    reveal_strlit(";");
    reveal_strlit("await");
    reveal_strlit("reply");
    reveal_strlit("resp");
    reveal_strlit("token");
    reveal_strlit("}");
    let ts = seq![
        "."@, "reply"@, "("@, "token"@, ","@, "resp"@, ")"@, "."@, "await"@, ";"@, "}"@,
        "}"@,
    ];
    reveal_with_fuel(spread, 13);
    reveal_with_fuel(all_tokens, 13);
    assert(". reply (token , resp) . await ; } }"@ =~= edge(false) + spread(ts, 12) + edge(false));
    lemma_edged(ts, 12, false, false);
    assert(ts.take(12) =~= ts);
}

proof fn lemma_serve_fn_phrase_9()
    ensures
        tokens(" (svc , req) . await ; let _ = transport . reply (token , resp) . await ; } }"@) == seq![
            "("@, "svc"@, ","@, "req"@, ")"@, "."@, "await"@, ";"@, "let"@, "_"@, "="@,
            "transport"@, "."@, "reply"@, "("@, "token"@, ","@, "resp"@, ")"@, "."@,
            "await"@, ";"@, "}"@, "}"@,
        ],
        " (svc , req) . await ; let _ = transport . reply (token , resp) . await ; } }"@.len() > 0,
        is_break(" (svc , req) . await ; let _ = transport . reply (token , resp) . await ; } }"@[0]),
{
    let p0 = " (svc , req) . await ; let _ = transport "@;
    let p1 = ". reply (token , resp) . await ; } }"@;
    assert(" (svc , req) . await ; let _ = transport . reply (token , resp) . await ; } }"@ =~= p0 + p1) by {
        reveal_strlit(" (svc , req) . await ; let _ = transport . reply (token , resp) . await ; } }");
        reveal_strlit(" (svc , req) . await ; let _ = transport ");
        reveal_strlit(". reply (token , resp) . await ; } }");
    }
    lemma_serve_fn_phrase_10();
    lemma_serve_fn_phrase_11();
    lemma_tokens_add(p0, p1);
    assert(tokens(" (svc , req) . await ; let _ = transport . reply (token , resp) . await ; } }"@) =~= seq![
        "("@, "svc"@, ","@, "req"@, ")"@, "."@, "await"@, ";"@, "let"@, "_"@, "="@,
        "transport"@, "."@, "reply"@, "("@, "token"@, ","@, "resp"@, ")"@, "."@, "await"@,
        ";"@, "}"@, "}"@,
    ]);
}

proof fn lemma_serve_sync_fn_phrase_2()
    ensures
        tokens(" < S , T , B > (svc : & "@) == seq![
            "<"@, "S"@, ","@, "T"@, ","@, "B"@, ">"@, "("@, "svc"@, ":"@, "&"@,
        ],
        " < S , T , B > (svc : & "@.len() > 0,
        is_break(" < S , T , B > (svc : & "@[0]),
        is_break(" < S , T , B > (svc : & "@.last()),
{
    reveal_strlit(" < S , T , B > (svc : & ");
    reveal_strlit(" ");
    reveal_strlit("&");
    reveal_strlit("(");
    reveal_strlit(",");
    reveal_strlit(":");
    reveal_strlit("<");
    reveal_strlit(">");
    reveal_strlit("B");
    reveal_strlit("S");
    reveal_strlit("T");
    reveal_strlit("svc");
    let ts = seq![
        "<"@, "S"@, ","@, "T"@, ","@, "B"@, ">"@, "("@, "svc"@, ":"@, "&"@,
    ];
    reveal_with_fuel(spread, 12);
    reveal_with_fuel(all_tokens, 12);
    assert(" < S , T , B > (svc : & "@ =~= edge(true) + spread(ts, 11) + edge(true));
    lemma_edged(ts, 11, true, true);
    assert(ts.take(11) =~= ts);
}

proof fn lemma_serve_sync_fn_phrase_3()
    ensures
        tokens("S , transport : & mut T , block_on : "@) == seq![
            "S"@, ","@, "transport"@, ":"@, "&"@, "mut"@, "T"@, ","@, "block_on"@, ":"@,
        ],
        "S , transport : & mut T , block_on : "@.len() > 0,
        is_break("S , transport : & mut T , block_on : "@.last()),
{
    reveal_strlit("S , transport : & mut T , block_on : ");
    reveal_strlit(" ");
    reveal_strlit("&");
    reveal_strlit(",");
    reveal_strlit(":");
    reveal_strlit("S");
    reveal_strlit("T");
    reveal_strlit("block_on");
    reveal_strlit("mut");
    reveal_strlit("transport");
    let ts = seq![
        "S"@, ","@, "transport"@, ":"@, "&"@, "mut"@, "T"@, ","@, "block_on"@, ":"@,
    ];
    reveal_with_fuel(spread, 11);
    reveal_with_fuel(all_tokens, 11);
    assert("S , transport : & mut T , block_on : "@ =~= edge(false) + spread(ts, 10) + edge(true));
    lemma_edged(ts, 10, false, true);
    assert(ts.take(10) =~= ts);
}

proof fn lemma_serve_sync_fn_phrase_4()
    ensures
        tokens("& B ,) -> :: core :: result :: Result "@) == seq![
            "&"@, "B"@, ","@, ")"@, "->"@, "::"@, "core"@, "::"@, "result"@, "::"@,
            "Result"@,
        ],
        "& B ,) -> :: core :: result :: Result "@.len() > 0,
        is_break("& B ,) -> :: core :: result :: Result "@.last()),
{
    reveal_strlit("& B ,) -> :: core :: result :: Result ");
    reveal_strlit(" ");
    reveal_strlit("&");
    reveal_strlit(")");
    reveal_strlit(",");
    reveal_strlit("->");
    reveal_strlit("::");
    reveal_strlit("B");
    reveal_strlit("Result");
    reveal_strlit("core");
    reveal_strlit("result");
    let ts = seq![
        "&"@, "B"@, ","@, ")"@, "->"@, "::"@, "core"@, "::"@, "result"@, "::"@, "Result"@,
    ];
    reveal_with_fuel(spread, 12);
    reveal_with_fuel(all_tokens, 12);
    assert("& B ,) -> :: core :: result :: Result "@ =~= edge(false) + spread(ts, 11) + edge(true));
    lemma_edged(ts, 11, false, true);
    assert(ts.take(11) =~= ts);
}

proof fn lemma_serve_sync_fn_phrase_5()
    ensures
        tokens("< () , T :: Error > where S : "@) == seq![
            "<"@, "("@, ")"@, ","@, "T"@, "::"@, "Error"@, ">"@, "where"@, "S"@, ":"@,
        ],
        "< () , T :: Error > where S : "@.len() > 0,
        is_break("< () , T :: Error > where S : "@.last()),
{
    reveal_strlit("< () , T :: Error > where S : ");
    reveal_strlit(" ");
    reveal_strlit("(");
    reveal_strlit(")");
    reveal_strlit(",");
    reveal_strlit(":");
    reveal_strlit("::");
    reveal_strlit("<");
    reveal_strlit(">");
    reveal_strlit("Error");
    reveal_strlit("S");
    reveal_strlit("T");
    reveal_strlit("where");
    let ts = seq![
        "<"@, "("@, ")"@, ","@, "T"@, "::"@, "Error"@, ">"@, "where"@, "S"@, ":"@,
    ];
    reveal_with_fuel(spread, 12);
    reveal_with_fuel(all_tokens, 12);
    assert("< () , T :: Error > where S : "@ =~= edge(false) + spread(ts, 11) + edge(true));
    lemma_edged(ts, 11, false, true);
    assert(ts.take(11) =~= ts);
}

proof fn lemma_serve_sync_fn_phrase_1()
    ensures
        tokens(" < S , T , B > (svc : & S , transport : & mut T , block_on : & B ,) -> :: core :: result :: Result < () , T :: Error > where S : "@) == seq![
            "<"@, "S"@, ","@, "T"@, ","@, "B"@, ">"@, "("@, "svc"@, ":"@, "&"@, "S"@, ","@,
            "transport"@, ":"@, "&"@, "mut"@, "T"@, ","@, "block_on"@, ":"@, "&"@, "B"@,
            ","@, ")"@, "->"@, "::"@, "core"@, "::"@, "result"@, "::"@, "Result"@, "<"@,
            "("@, ")"@, ","@, "T"@, "::"@, "Error"@, ">"@, "where"@, "S"@, ":"@,
        ],
        " < S , T , B > (svc : & S , transport : & mut T , block_on : & B ,) -> :: core :: result :: Result < () , T :: Error > where S : "@.len() > 0,
        is_break(" < S , T , B > (svc : & S , transport : & mut T , block_on : & B ,) -> :: core :: result :: Result < () , T :: Error > where S : "@[0]),
        is_break(" < S , T , B > (svc : & S , transport : & mut T , block_on : & B ,) -> :: core :: result :: Result < () , T :: Error > where S : "@.last()),
{
    let p0 = " < S , T , B > (svc : & "@;
    let p1 = "S , transport : & mut T , block_on : "@;
    let p2 = "& B ,) -> :: core :: result :: Result "@;
    let p3 = "< () , T :: Error > where S : "@;
    assert(" < S , T , B > (svc : & S , transport : & mut T , block_on : & B ,) -> :: core :: result :: Result < () , T :: Error > where S : "@ =~= p0 + p1 + p2 + p3) by {
        reveal_strlit(" < S , T , B > (svc : & S , transport : & mut T , block_on : & B ,) -> :: core :: result :: Result < () , T :: Error > where S : ");
        reveal_strlit(" < S , T , B > (svc : & ");
        reveal_strlit("S , transport : & mut T , block_on : ");
        reveal_strlit("& B ,) -> :: core :: result :: Result ");
        reveal_strlit("< () , T :: Error > where S : ");
    }
    lemma_serve_sync_fn_phrase_2();
    lemma_serve_sync_fn_phrase_3();
    lemma_serve_sync_fn_phrase_4();
    lemma_serve_sync_fn_phrase_5();
    lemma_tokens_add(p0, p1);
    lemma_tokens_add(p0 + p1, p2);
    lemma_tokens_add(p0 + p1 + p2, p3);
    assert(tokens(" < S , T , B > (svc : & S , transport : & mut T , block_on : & B ,) -> :: core :: result :: Result < () , T :: Error > where S : "@) =~= seq![
        "<"@, "S"@, ","@, "T"@, ","@, "B"@, ">"@, "("@, "svc"@, ":"@, "&"@, "S"@, ","@,
        "transport"@, ":"@, "&"@, "mut"@, "T"@, ","@, "block_on"@, ":"@, "&"@, "B"@, ","@,
        ")"@, "->"@, "::"@, "core"@, "::"@, "result"@, "::"@, "Result"@, "<"@, "("@, ")"@,
        ","@, "T"@, "::"@, "Error"@, ">"@, "where"@, "S"@, ":"@,
    ]);
}

proof fn lemma_serve_sync_fn_phrase_7()
    ensures
        tokens(" > , B : :: myelin :: BlockOn , { loop "@) == seq![
            ">"@, ","@, "B"@, ":"@, "::"@, "myelin"@, "::"@, "BlockOn"@, ","@, "{"@,
            "loop"@,
        ],
        " > , B : :: myelin :: BlockOn , { loop "@.len() > 0,
        is_break(" > , B : :: myelin :: BlockOn , { loop "@[0]),
        is_break(" > , B : :: myelin :: BlockOn , { loop "@.last()),
{
    reveal_strlit(" > , B : :: myelin :: BlockOn , { loop ");
    reveal_strlit(" ");
    reveal_strlit(",");
    reveal_strlit(":");
    reveal_strlit("::");
    reveal_strlit(">");
    reveal_strlit("B");
    reveal_strlit("BlockOn");
    reveal_strlit("loop");
    reveal_strlit("myelin");
    reveal_strlit("{");
    let ts = seq![
        ">"@, ","@, "B"@, ":"@, "::"@, "myelin"@, "::"@, "BlockOn"@, ","@, "{"@, "loop"@,
    ];
    reveal_with_fuel(spread, 12);
    reveal_with_fuel(all_tokens, 12);
    assert(" > , B : :: myelin :: BlockOn , { loop "@ =~= edge(true) + spread(ts, 11) + edge(true));
    lemma_edged(ts, 11, true, true);
    assert(ts.take(11) =~= ts);
}

proof fn lemma_serve_sync_fn_phrase_8()
    ensures
        tokens("{ let (req , token) = block_on . block_on (transport "@) == seq![
            "{"@, "let"@, "("@, "req"@, ","@, "token"@, ")"@, "="@, "block_on"@, "."@,
            "block_on"@, "("@, "transport"@,
        ],
        "{ let (req , token) = block_on . block_on (transport "@.len() > 0,
        is_break("{ let (req , token) = block_on . block_on (transport "@.last()),
{
    reveal_strlit("{ let (req , token) = block_on . block_on (transport ");
    reveal_strlit(" ");
    reveal_strlit("(");
    reveal_strlit(")");
    reveal_strlit(",");
    reveal_strlit(".");
    reveal_strlit("=");
    reveal_strlit("block_on");
    reveal_strlit("let");
    reveal_strlit("req");
    reveal_strlit("token");
    reveal_strlit("transport");
    reveal_strlit("{");
    let ts = seq![
        "{"@, "let"@, "("@, "req"@, ","@, "token"@, ")"@, "="@, "block_on"@, "."@,
        "block_on"@, "("@, "transport"@,
    ];
    reveal_with_fuel(spread, 14);
    reveal_with_fuel(all_tokens, 14);
    assert("{ let (req , token) = block_on . block_on (transport "@ =~= edge(false) + spread(ts, 13) + edge(true));
    lemma_edged(ts, 13, false, true);
    assert(ts.take(13) =~= ts);
}

proof fn lemma_serve_sync_fn_phrase_9()
    ensures
        tokens(". recv ()) ? ; let resp = "@) == seq![
            "."@, "recv"@, "("@, ")"@, ")"@, "?"@, ";"@, "let"@, "resp"@, "="@,
        ],
        ". recv ()) ? ; let resp = "@.len() > 0,
        is_break(". recv ()) ? ; let resp = "@.last()),
{
    reveal_strlit(". recv ()) ? ; let resp = ");
    reveal_strlit(" ");
    reveal_strlit("(");
    reveal_strlit(")");
    reveal_strlit(".");
    reveal_strlit(";");
    reveal_strlit("=");
    reveal_strlit("?");
    reveal_strlit("let");
    reveal_strlit("recv");
    reveal_strlit("resp");
    let ts = seq![
        "."@, "recv"@, "("@, ")"@, ")"@, "?"@, ";"@, "let"@, "resp"@, "="@,
    ];
    reveal_with_fuel(spread, 11);
    reveal_with_fuel(all_tokens, 11);
    assert(". recv ()) ? ; let resp = "@ =~= edge(false) + spread(ts, 10) + edge(true));
    lemma_edged(ts, 10, false, true);
    assert(ts.take(10) =~= ts);
}

proof fn lemma_serve_sync_fn_phrase_6()
    ensures
        tokens(" > , B : :: myelin :: BlockOn , { loop { let (req , token) = block_on . block_on (transport . recv ()) ? ; let resp = "@) == seq![
            ">"@, ","@, "B"@, ":"@, "::"@, "myelin"@, "::"@, "BlockOn"@, ","@, "{"@,
            "loop"@, "{"@, "let"@, "("@, "req"@, ","@, "token"@, ")"@, "="@, "block_on"@,
            "."@, "block_on"@, "("@, "transport"@, "."@, "recv"@, "("@, ")"@, ")"@, "?"@,
            ";"@, "let"@, "resp"@, "="@,
        ],
        " > , B : :: myelin :: BlockOn , { loop { let (req , token) = block_on . block_on (transport . recv ()) ? ; let resp = "@.len() > 0,
        is_break(" > , B : :: myelin :: BlockOn , { loop { let (req , token) = block_on . block_on (transport . recv ()) ? ; let resp = "@[0]),
        is_break(" > , B : :: myelin :: BlockOn , { loop { let (req , token) = block_on . block_on (transport . recv ()) ? ; let resp = "@.last()),
{
    let p0 = " > , B : :: myelin :: BlockOn , { loop "@;
    let p1 = "{ let (req , token) = block_on . block_on (transport "@;
    let p2 = ". recv ()) ? ; let resp = "@;
    assert(" > , B : :: myelin :: BlockOn , { loop { let (req , token) = block_on . block_on (transport . recv ()) ? ; let resp = "@ =~= p0 + p1 + p2) by {
        reveal_strlit(" > , B : :: myelin :: BlockOn , { loop { let (req , token) = block_on . block_on (transport . recv ()) ? ; let resp = ");
        reveal_strlit(" > , B : :: myelin :: BlockOn , { loop ");
        reveal_strlit("{ let (req , token) = block_on . block_on (transport ");
        reveal_strlit(". recv ()) ? ; let resp = ");
    }
    lemma_serve_sync_fn_phrase_7();
    lemma_serve_sync_fn_phrase_8();
    lemma_serve_sync_fn_phrase_9();
    lemma_tokens_add(p0, p1);
    lemma_tokens_add(p0 + p1, p2);
    assert(tokens(" > , B : :: myelin :: BlockOn , { loop { let (req , token) = block_on . block_on (transport . recv ()) ? ; let resp = "@) =~= seq![
        ">"@, ","@, "B"@, ":"@, "::"@, "myelin"@, "::"@, "BlockOn"@, ","@, "{"@, "loop"@,
        "{"@, "let"@, "("@, "req"@, ","@, "token"@, ")"@, "="@, "block_on"@, "."@,
        "block_on"@, "("@, "transport"@, "."@, "recv"@, "("@, ")"@, ")"@, "?"@, ";"@,
        "let"@, "resp"@, "="@,
    ]);
}

proof fn lemma_serve_sync_fn_phrase_11()
    ensures
        tokens(" (svc , req) ; let _ = block_on . block_on "@) == seq![
            "("@, "svc"@, ","@, "req"@, ")"@, ";"@, "let"@, "_"@, "="@, "block_on"@, "."@,
            "block_on"@,
        ],
        " (svc , req) ; let _ = block_on . block_on "@.len() > 0,
        is_break(" (svc , req) ; let _ = block_on . block_on "@[0]),
        is_break(" (svc , req) ; let _ = block_on . block_on "@.last()),
{
    reveal_strlit(" (svc , req) ; let _ = block_on . block_on ");
    reveal_strlit(" ");
    reveal_strlit("(");
    reveal_strlit(")");
    reveal_strlit(",");
    reveal_strlit(".");
    reveal_strlit(";");
    reveal_strlit("=");
    reveal_strlit("_");
    reveal_strlit("block_on");
    reveal_strlit("let");
    reveal_strlit("req");
    reveal_strlit("svc");
    let ts = seq![
        "("@, "svc"@, ","@, "req"@, ")"@, ";"@, "let"@, "_"@, "="@, "block_on"@, "."@,
        "block_on"@,
    ];
    reveal_with_fuel(spread, 13);
    reveal_with_fuel(all_tokens, 13);
    assert(" (svc , req) ; let _ = block_on . block_on "@ =~= edge(true) + spread(ts, 12) + edge(true));
    lemma_edged(ts, 12, true, true);
    assert(ts.take(12) =~= ts);
}

proof fn lemma_serve_sync_fn_phrase_12()
    ensures
        tokens("(transport . reply (token , resp)) ; } }"@) == seq![
            "("@, "transport"@, "."@, "reply"@, "("@, "token"@, ","@, "resp"@, ")"@, ")"@,
            ";"@, "}"@, "}"@,
        ],
        "(transport . reply (token , resp)) ; } }"@.len() > 0,
        is_break("(transport . reply (token , resp)) ; } }"@[0]),
{
    reveal_strlit("(transport . reply (token , resp)) ; } }");
    reveal_strlit(" ");
    reveal_strlit("(");
    reveal_strlit(")");
    reveal_strlit(",");
    reveal_strlit(".");
    reveal_strlit(";");
    reveal_strlit("reply");
    reveal_strlit("resp");
    reveal_strlit("token");
    reveal_strlit("transport");
    reveal_strlit("}");
    let ts = seq![
        "("@, "transport"@, "."@, "reply"@, "("@, "token"@, ","@, "resp"@, ")"@, ")"@,
        ";"@, "}"@, "}"@,
    ];
    reveal_with_fuel(spread, 14);
    reveal_with_fuel(all_tokens, 14);
    assert("(transport . reply (token , resp)) ; } }"@ =~= edge(false) + spread(ts, 13) + edge(false));
    lemma_edged(ts, 13, false, false);
    assert(ts.take(13) =~= ts);
}

proof fn lemma_serve_sync_fn_phrase_10()
    ensures
        tokens(" (svc , req) ; let _ = block_on . block_on (transport . reply (token , resp)) ; } }"@) == seq![
            "("@, "svc"@, ","@, "req"@, ")"@, ";"@, "let"@, "_"@, "="@, "block_on"@, "."@,
            "block_on"@, "("@, "transport"@, "."@, "reply"@, "("@, "token"@, ","@, "resp"@,
            ")"@, ")"@, ";"@, "}"@, "}"@,
        ],
        " (svc , req) ; let _ = block_on . block_on (transport . reply (token , resp)) ; } }"@.len() > 0,
        is_break(" (svc , req) ; let _ = block_on . block_on (transport . reply (token , resp)) ; } }"@[0]),
{
    let p0 = " (svc , req) ; let _ = block_on . block_on "@;
    let p1 = "(transport . reply (token , resp)) ; } }"@;
    assert(" (svc , req) ; let _ = block_on . block_on (transport . reply (token , resp)) ; } }"@ =~= p0 + p1) by {
        reveal_strlit(" (svc , req) ; let _ = block_on . block_on (transport . reply (token , resp)) ; } }");
        reveal_strlit(" (svc , req) ; let _ = block_on . block_on ");
        reveal_strlit("(transport . reply (token , resp)) ; } }");
    }
    lemma_serve_sync_fn_phrase_11();
    lemma_serve_sync_fn_phrase_12();
    lemma_tokens_add(p0, p1);
    assert(tokens(" (svc , req) ; let _ = block_on . block_on (transport . reply (token , resp)) ; } }"@) =~= seq![
        "("@, "svc"@, ","@, "req"@, ")"@, ";"@, "let"@, "_"@, "="@, "block_on"@, "."@,
        "block_on"@, "("@, "transport"@, "."@, "reply"@, "("@, "token"@, ","@, "resp"@,
        ")"@, ")"@, ";"@, "}"@, "}"@,
    ]);
}

proof fn lemma_tokio_transport_alias_phrase_1()
    ensures
        tokens("type "@) == seq![
            "type"@,
        ],
        "type "@.len() > 0,
        is_break("type "@.last()),
{
    reveal_strlit("type ");
    reveal_strlit(" ");
    reveal_strlit("type");
    let ts = seq![
        "type"@,
    ];
    reveal_with_fuel(spread, 2);
    reveal_with_fuel(all_tokens, 2);
    assert("type "@ =~= edge(false) + spread(ts, 1) + edge(true));
    lemma_edged(ts, 1, false, true);
    assert(ts.take(1) =~= ts);
}

proof fn lemma_tokio_transport_alias_phrase_2()
    ensures
        tokens(" = :: myelin :: transport_tokio :: TokioService < "@) == seq![
            "="@, "::"@, "myelin"@, "::"@, "transport_tokio"@, "::"@, "TokioService"@,
            "<"@,
        ],
        " = :: myelin :: transport_tokio :: TokioService < "@.len() > 0,
        is_break(" = :: myelin :: transport_tokio :: TokioService < "@[0]),
        is_break(" = :: myelin :: transport_tokio :: TokioService < "@.last()),
{
    reveal_strlit(" = :: myelin :: transport_tokio :: TokioService < ");
    reveal_strlit(" ");
    reveal_strlit("::");
    reveal_strlit("<");
    reveal_strlit("=");
    reveal_strlit("TokioService");
    reveal_strlit("myelin");
    reveal_strlit("transport_tokio");
    let ts = seq![
        "="@, "::"@, "myelin"@, "::"@, "transport_tokio"@, "::"@, "TokioService"@, "<"@,
    ];
    reveal_with_fuel(spread, 9);
    reveal_with_fuel(all_tokens, 9);
    assert(" = :: myelin :: transport_tokio :: TokioService < "@ =~= edge(true) + spread(ts, 8) + edge(true));
    lemma_edged(ts, 8, true, true);
    assert(ts.take(8) =~= ts);
}

proof fn lemma_tokio_transport_alias_phrase_3()
    ensures
        tokens(" > ;"@) == seq![
            ">"@, ";"@,
        ],
        " > ;"@.len() > 0,
        is_break(" > ;"@[0]),
{
    reveal_strlit(" > ;");
    reveal_strlit(" ");
    reveal_strlit(";");
    reveal_strlit(">");
    let ts = seq![
        ">"@, ";"@,
    ];
    reveal_with_fuel(spread, 3);
    reveal_with_fuel(all_tokens, 3);
    assert(" > ;"@ =~= edge(true) + spread(ts, 2) + edge(false));
    lemma_edged(ts, 2, true, false);
    assert(ts.take(2) =~= ts);
}

proof fn lemma_embassy_transport_aliases_phrase_2()
    ensures
        tokens(" < M , const CHANNEL_DEPTH : usize > = "@) == seq![
            "<"@, "M"@, ","@, "const"@, "CHANNEL_DEPTH"@, ":"@, "usize"@, ">"@, "="@,
        ],
        " < M , const CHANNEL_DEPTH : usize > = "@.len() > 0,
        is_break(" < M , const CHANNEL_DEPTH : usize > = "@[0]),
        is_break(" < M , const CHANNEL_DEPTH : usize > = "@.last()),
{
    reveal_strlit(" < M , const CHANNEL_DEPTH : usize > = ");
    reveal_strlit(" ");
    reveal_strlit(",");
    reveal_strlit(":");
    reveal_strlit("<");
    reveal_strlit("=");
    reveal_strlit(">");
    reveal_strlit("CHANNEL_DEPTH");
    reveal_strlit("M");
    reveal_strlit("const");
    reveal_strlit("usize");
    let ts = seq![
        "<"@, "M"@, ","@, "const"@, "CHANNEL_DEPTH"@, ":"@, "usize"@, ">"@, "="@,
    ];
    reveal_with_fuel(spread, 10);
    reveal_with_fuel(all_tokens, 10);
    assert(" < M , const CHANNEL_DEPTH : usize > = "@ =~= edge(true) + spread(ts, 9) + edge(true));
    lemma_edged(ts, 9, true, true);
    assert(ts.take(9) =~= ts);
}

proof fn lemma_embassy_transport_aliases_phrase_3()
    ensures
        tokens(":: myelin :: transport_embassy :: EmbassyService < M , "@) == seq![
            "::"@, "myelin"@, "::"@, "transport_embassy"@, "::"@, "EmbassyService"@, "<"@,
            "M"@, ","@,
        ],
        ":: myelin :: transport_embassy :: EmbassyService < M , "@.len() > 0,
        is_break(":: myelin :: transport_embassy :: EmbassyService < M , "@.last()),
{
    reveal_strlit(":: myelin :: transport_embassy :: EmbassyService < M , ");
    reveal_strlit(" ");
    reveal_strlit(",");
    reveal_strlit("::");
    reveal_strlit("<");
    reveal_strlit("EmbassyService");
    reveal_strlit("M");
    reveal_strlit("myelin");
    reveal_strlit("transport_embassy");
    let ts = seq![
        "::"@, "myelin"@, "::"@, "transport_embassy"@, "::"@, "EmbassyService"@, "<"@,
        "M"@, ","@,
    ];
    reveal_with_fuel(spread, 10);
    reveal_with_fuel(all_tokens, 10);
    assert(":: myelin :: transport_embassy :: EmbassyService < M , "@ =~= edge(false) + spread(ts, 9) + edge(true));
    lemma_edged(ts, 9, false, true);
    assert(ts.take(9) =~= ts);
}

proof fn lemma_embassy_transport_aliases_phrase_1()
    ensures
        tokens(" < M , const CHANNEL_DEPTH : usize > = :: myelin :: transport_embassy :: EmbassyService < M , "@) == seq![
            "<"@, "M"@, ","@, "const"@, "CHANNEL_DEPTH"@, ":"@, "usize"@, ">"@, "="@,
            "::"@, "myelin"@, "::"@, "transport_embassy"@, "::"@, "EmbassyService"@, "<"@,
            "M"@, ","@,
        ],
        " < M , const CHANNEL_DEPTH : usize > = :: myelin :: transport_embassy :: EmbassyService < M , "@.len() > 0,
        is_break(" < M , const CHANNEL_DEPTH : usize > = :: myelin :: transport_embassy :: EmbassyService < M , "@[0]),
        is_break(" < M , const CHANNEL_DEPTH : usize > = :: myelin :: transport_embassy :: EmbassyService < M , "@.last()),
{
    let p0 = " < M , const CHANNEL_DEPTH : usize > = "@;
    let p1 = ":: myelin :: transport_embassy :: EmbassyService < M , "@;
    assert(" < M , const CHANNEL_DEPTH : usize > = :: myelin :: transport_embassy :: EmbassyService < M , "@ =~= p0 + p1) by {
        reveal_strlit(" < M , const CHANNEL_DEPTH : usize > = :: myelin :: transport_embassy :: EmbassyService < M , ");
        reveal_strlit(" < M , const CHANNEL_DEPTH : usize > = ");
        reveal_strlit(":: myelin :: transport_embassy :: EmbassyService < M , ");
    }
    lemma_embassy_transport_aliases_phrase_2();
    lemma_embassy_transport_aliases_phrase_3();
    lemma_tokens_add(p0, p1);
    assert(tokens(" < M , const CHANNEL_DEPTH : usize > = :: myelin :: transport_embassy :: EmbassyService < M , "@) =~= seq![
        "<"@, "M"@, ","@, "const"@, "CHANNEL_DEPTH"@, ":"@, "usize"@, ">"@, "="@, "::"@,
        "myelin"@, "::"@, "transport_embassy"@, "::"@, "EmbassyService"@, "<"@, "M"@, ","@,
    ]);
}

proof fn lemma_embassy_transport_aliases_phrase_4()
    ensures
        tokens(" , CHANNEL_DEPTH > ; "@) == seq![
            ","@, "CHANNEL_DEPTH"@, ">"@, ";"@,
        ],
        " , CHANNEL_DEPTH > ; "@.len() > 0,
        is_break(" , CHANNEL_DEPTH > ; "@[0]),
        is_break(" , CHANNEL_DEPTH > ; "@.last()),
{
    reveal_strlit(" , CHANNEL_DEPTH > ; ");
    reveal_strlit(" ");
    reveal_strlit(",");
    reveal_strlit(";");
    reveal_strlit(">");
    reveal_strlit("CHANNEL_DEPTH");
    let ts = seq![
        ","@, "CHANNEL_DEPTH"@, ">"@, ";"@,
    ];
    reveal_with_fuel(spread, 5);
    reveal_with_fuel(all_tokens, 5);
    assert(" , CHANNEL_DEPTH > ; "@ =~= edge(true) + spread(ts, 4) + edge(true));
    lemma_edged(ts, 4, true, true);
    assert(ts.take(4) =~= ts);
}

proof fn lemma_embassy_transport_aliases_phrase_6()
    ensures
        tokens(" < 'a , M , const CHANNEL_DEPTH : usize > = "@) == seq![
            "<"@, "'a"@, ","@, "M"@, ","@, "const"@, "CHANNEL_DEPTH"@, ":"@, "usize"@,
            ">"@, "="@,
        ],
        " < 'a , M , const CHANNEL_DEPTH : usize > = "@.len() > 0,
        is_break(" < 'a , M , const CHANNEL_DEPTH : usize > = "@[0]),
        is_break(" < 'a , M , const CHANNEL_DEPTH : usize > = "@.last()),
{
    reveal_strlit(" < 'a , M , const CHANNEL_DEPTH : usize > = ");
    reveal_strlit(" ");
    reveal_strlit("'a");
    reveal_strlit(",");
    reveal_strlit(":");
    reveal_strlit("<");
    reveal_strlit("=");
    reveal_strlit(">");
    reveal_strlit("CHANNEL_DEPTH");
    reveal_strlit("M");
    reveal_strlit("const");
    reveal_strlit("usize");
    let ts = seq![
        "<"@, "'a"@, ","@, "M"@, ","@, "const"@, "CHANNEL_DEPTH"@, ":"@, "usize"@, ">"@,
        "="@,
    ];
    reveal_with_fuel(spread, 12);
    reveal_with_fuel(all_tokens, 12);
    assert(" < 'a , M , const CHANNEL_DEPTH : usize > = "@ =~= edge(true) + spread(ts, 11) + edge(true));
    lemma_edged(ts, 11, true, true);
    assert(ts.take(11) =~= ts);
}

proof fn lemma_embassy_transport_aliases_phrase_7()
    ensures
        tokens(":: myelin :: transport_embassy :: EmbassyClient < 'a , M , "@) == seq![
            "::"@, "myelin"@, "::"@, "transport_embassy"@, "::"@, "EmbassyClient"@, "<"@,
            "'a"@, ","@, "M"@, ","@,
        ],
        ":: myelin :: transport_embassy :: EmbassyClient < 'a , M , "@.len() > 0,
        is_break(":: myelin :: transport_embassy :: EmbassyClient < 'a , M , "@.last()),
{
    reveal_strlit(":: myelin :: transport_embassy :: EmbassyClient < 'a , M , ");
    reveal_strlit(" ");
    reveal_strlit("'a");
    reveal_strlit(",");
    reveal_strlit("::");
    reveal_strlit("<");
    reveal_strlit("EmbassyClient");
    reveal_strlit("M");
    reveal_strlit("myelin");
    reveal_strlit("transport_embassy");
    let ts = seq![
        "::"@, "myelin"@, "::"@, "transport_embassy"@, "::"@, "EmbassyClient"@, "<"@,
        "'a"@, ","@, "M"@, ","@,
    ];
    reveal_with_fuel(spread, 12);
    reveal_with_fuel(all_tokens, 12);
    assert(":: myelin :: transport_embassy :: EmbassyClient < 'a , M , "@ =~= edge(false) + spread(ts, 11) + edge(true));
    lemma_edged(ts, 11, false, true);
    assert(ts.take(11) =~= ts);
}

proof fn lemma_embassy_transport_aliases_phrase_5()
    ensures
        tokens(" < 'a , M , const CHANNEL_DEPTH : usize > = :: myelin :: transport_embassy :: EmbassyClient < 'a , M , "@) == seq![
            "<"@, "'a"@, ","@, "M"@, ","@, "const"@, "CHANNEL_DEPTH"@, ":"@, "usize"@,
            ">"@, "="@, "::"@, "myelin"@, "::"@, "transport_embassy"@, "::"@,
            "EmbassyClient"@, "<"@, "'a"@, ","@, "M"@, ","@,
        ],
        " < 'a , M , const CHANNEL_DEPTH : usize > = :: myelin :: transport_embassy :: EmbassyClient < 'a , M , "@.len() > 0,
        is_break(" < 'a , M , const CHANNEL_DEPTH : usize > = :: myelin :: transport_embassy :: EmbassyClient < 'a , M , "@[0]),
        is_break(" < 'a , M , const CHANNEL_DEPTH : usize > = :: myelin :: transport_embassy :: EmbassyClient < 'a , M , "@.last()),
{
    let p0 = " < 'a , M , const CHANNEL_DEPTH : usize > = "@;
    let p1 = ":: myelin :: transport_embassy :: EmbassyClient < 'a , M , "@;
    assert(" < 'a , M , const CHANNEL_DEPTH : usize > = :: myelin :: transport_embassy :: EmbassyClient < 'a , M , "@ =~= p0 + p1) by {
        reveal_strlit(" < 'a , M , const CHANNEL_DEPTH : usize > = :: myelin :: transport_embassy :: EmbassyClient < 'a , M , ");
        reveal_strlit(" < 'a , M , const CHANNEL_DEPTH : usize > = ");
        reveal_strlit(":: myelin :: transport_embassy :: EmbassyClient < 'a , M , ");
    }
    lemma_embassy_transport_aliases_phrase_6();
    lemma_embassy_transport_aliases_phrase_7();
    lemma_tokens_add(p0, p1);
    assert(tokens(" < 'a , M , const CHANNEL_DEPTH : usize > = :: myelin :: transport_embassy :: EmbassyClient < 'a , M , "@) =~= seq![
        "<"@, "'a"@, ","@, "M"@, ","@, "const"@, "CHANNEL_DEPTH"@, ":"@, "usize"@, ">"@,
        "="@, "::"@, "myelin"@, "::"@, "transport_embassy"@, "::"@, "EmbassyClient"@, "<"@,
        "'a"@, ","@, "M"@, ","@,
    ]);
}

proof fn lemma_embassy_transport_aliases_phrase_8()
    ensures
        tokens(" , CHANNEL_DEPTH > ;"@) == seq![
            ","@, "CHANNEL_DEPTH"@, ">"@, ";"@,
        ],
        " , CHANNEL_DEPTH > ;"@.len() > 0,
        is_break(" , CHANNEL_DEPTH > ;"@[0]),
{
    reveal_strlit(" , CHANNEL_DEPTH > ;");
    reveal_strlit(" ");
    reveal_strlit(",");
    reveal_strlit(";");
    reveal_strlit(">");
    reveal_strlit("CHANNEL_DEPTH");
    let ts = seq![
        ","@, "CHANNEL_DEPTH"@, ">"@, ";"@,
    ];
    reveal_with_fuel(spread, 5);
    reveal_with_fuel(all_tokens, 5);
    assert(" , CHANNEL_DEPTH > ;"@ =~= edge(true) + spread(ts, 4) + edge(false));
    lemma_edged(ts, 4, true, false);
    assert(ts.take(4) =~= ts);
}

proof fn lemma_embassy_client_phrase_2()
    ensures
        tokens("static CELL : :: myelin :: static_cell :: StaticCell < :: "@) == seq![
            "static"@, "CELL"@, ":"@, "::"@, "myelin"@, "::"@, "static_cell"@, "::"@,
            "StaticCell"@, "<"@, "::"@,
        ],
        "static CELL : :: myelin :: static_cell :: StaticCell < :: "@.len() > 0,
        is_break("static CELL : :: myelin :: static_cell :: StaticCell < :: "@.last()),
{
    reveal_strlit("static CELL : :: myelin :: static_cell :: StaticCell < :: ");
    reveal_strlit(" ");
    reveal_strlit(":");
    reveal_strlit("::");
    reveal_strlit("<");
    reveal_strlit("CELL");
    reveal_strlit("StaticCell");
    reveal_strlit("myelin");
    reveal_strlit("static");
    reveal_strlit("static_cell");
    let ts = seq![
        "static"@, "CELL"@, ":"@, "::"@, "myelin"@, "::"@, "static_cell"@, "::"@,
        "StaticCell"@, "<"@, "::"@,
    ];
    reveal_with_fuel(spread, 12);
    reveal_with_fuel(all_tokens, 12);
    assert("static CELL : :: myelin :: static_cell :: StaticCell < :: "@ =~= edge(false) + spread(ts, 11) + edge(true));
    lemma_edged(ts, 11, false, true);
    assert(ts.take(11) =~= ts);
}

proof fn lemma_embassy_client_phrase_3()
    ensures
        tokens("myelin :: transport_embassy :: EmbassyClient < 'static , $ mutex , "@) == seq![
            "myelin"@, "::"@, "transport_embassy"@, "::"@, "EmbassyClient"@, "<"@,
            "'static"@, ","@, "$"@, "mutex"@, ","@,
        ],
        "myelin :: transport_embassy :: EmbassyClient < 'static , $ mutex , "@.len() > 0,
        is_break("myelin :: transport_embassy :: EmbassyClient < 'static , $ mutex , "@.last()),
{
    reveal_strlit("myelin :: transport_embassy :: EmbassyClient < 'static , $ mutex , ");
    reveal_strlit(" ");
    reveal_strlit("$");
    reveal_strlit("'static");
    reveal_strlit(",");
    reveal_strlit("::");
    reveal_strlit("<");
    reveal_strlit("EmbassyClient");
    reveal_strlit("mutex");
    reveal_strlit("myelin");
    reveal_strlit("transport_embassy");
    let ts = seq![
        "myelin"@, "::"@, "transport_embassy"@, "::"@, "EmbassyClient"@, "<"@, "'static"@,
        ","@, "$"@, "mutex"@, ","@,
    ];
    reveal_with_fuel(spread, 12);
    reveal_with_fuel(all_tokens, 12);
    assert("myelin :: transport_embassy :: EmbassyClient < 'static , $ mutex , "@ =~= edge(false) + spread(ts, 11) + edge(true));
    lemma_edged(ts, 11, false, true);
    assert(ts.take(11) =~= ts);
}

proof fn lemma_embassy_client_phrase_1()
    ensures
        tokens("static CELL : :: myelin :: static_cell :: StaticCell < :: myelin :: transport_embassy :: EmbassyClient < 'static , $ mutex , "@) == seq![
            "static"@, "CELL"@, ":"@, "::"@, "myelin"@, "::"@, "static_cell"@, "::"@,
            "StaticCell"@, "<"@, "::"@, "myelin"@, "::"@, "transport_embassy"@, "::"@,
            "EmbassyClient"@, "<"@, "'static"@, ","@, "$"@, "mutex"@, ","@,
        ],
        "static CELL : :: myelin :: static_cell :: StaticCell < :: myelin :: transport_embassy :: EmbassyClient < 'static , $ mutex , "@.len() > 0,
        is_break("static CELL : :: myelin :: static_cell :: StaticCell < :: myelin :: transport_embassy :: EmbassyClient < 'static , $ mutex , "@.last()),
{
    let p0 = "static CELL : :: myelin :: static_cell :: StaticCell < :: "@;
    let p1 = "myelin :: transport_embassy :: EmbassyClient < 'static , $ mutex , "@;
    assert("static CELL : :: myelin :: static_cell :: StaticCell < :: myelin :: transport_embassy :: EmbassyClient < 'static , $ mutex , "@ =~= p0 + p1) by {
        reveal_strlit("static CELL : :: myelin :: static_cell :: StaticCell < :: myelin :: transport_embassy :: EmbassyClient < 'static , $ mutex , ");
        reveal_strlit("static CELL : :: myelin :: static_cell :: StaticCell < :: ");
        reveal_strlit("myelin :: transport_embassy :: EmbassyClient < 'static , $ mutex , ");
    }
    lemma_embassy_client_phrase_2();
    lemma_embassy_client_phrase_3();
    lemma_tokens_add(p0, p1);
    assert(tokens("static CELL : :: myelin :: static_cell :: StaticCell < :: myelin :: transport_embassy :: EmbassyClient < 'static , $ mutex , "@) =~= seq![
        "static"@, "CELL"@, ":"@, "::"@, "myelin"@, "::"@, "static_cell"@, "::"@,
        "StaticCell"@, "<"@, "::"@, "myelin"@, "::"@, "transport_embassy"@, "::"@,
        "EmbassyClient"@, "<"@, "'static"@, ","@, "$"@, "mutex"@, ","@,
    ]);
}

proof fn lemma_embassy_client_phrase_5()
    ensures
        tokens(" , $ depth , > , > = :: "@) == seq![
            ","@, "$"@, "depth"@, ","@, ">"@, ","@, ">"@, "="@, "::"@,
        ],
        " , $ depth , > , > = :: "@.len() > 0,
        is_break(" , $ depth , > , > = :: "@[0]),
        is_break(" , $ depth , > , > = :: "@.last()),
{
    reveal_strlit(" , $ depth , > , > = :: ");
    reveal_strlit(" ");
    reveal_strlit("$");
    reveal_strlit(",");
    reveal_strlit("::");
    reveal_strlit("=");
    reveal_strlit(">");
    reveal_strlit("depth");
    let ts = seq![
        ","@, "$"@, "depth"@, ","@, ">"@, ","@, ">"@, "="@, "::"@,
    ];
    reveal_with_fuel(spread, 10);
    reveal_with_fuel(all_tokens, 10);
    assert(" , $ depth , > , > = :: "@ =~= edge(true) + spread(ts, 9) + edge(true));
    lemma_edged(ts, 9, true, true);
    assert(ts.take(9) =~= ts);
}

proof fn lemma_embassy_client_phrase_6()
    ensures
        tokens("myelin :: static_cell :: StaticCell :: new () ; "@) == seq![
            "myelin"@, "::"@, "static_cell"@, "::"@, "StaticCell"@, "::"@, "new"@, "("@,
            ")"@, ";"@,
        ],
        "myelin :: static_cell :: StaticCell :: new () ; "@.len() > 0,
        is_break("myelin :: static_cell :: StaticCell :: new () ; "@.last()),
{
    reveal_strlit("myelin :: static_cell :: StaticCell :: new () ; ");
    reveal_strlit(" ");
    reveal_strlit("(");
    reveal_strlit(")");
    reveal_strlit("::");
    reveal_strlit(";");
    reveal_strlit("StaticCell");
    reveal_strlit("myelin");
    reveal_strlit("new");
    reveal_strlit("static_cell");
    let ts = seq![
        "myelin"@, "::"@, "static_cell"@, "::"@, "StaticCell"@, "::"@, "new"@, "("@, ")"@,
        ";"@,
    ];
    reveal_with_fuel(spread, 11);
    reveal_with_fuel(all_tokens, 11);
    assert("myelin :: static_cell :: StaticCell :: new () ; "@ =~= edge(false) + spread(ts, 10) + edge(true));
    lemma_edged(ts, 10, false, true);
    assert(ts.take(10) =~= ts);
}

proof fn lemma_embassy_client_phrase_4()
    ensures
        tokens(" , $ depth , > , > = :: myelin :: static_cell :: StaticCell :: new () ; "@) == seq![
            ","@, "$"@, "depth"@, ","@, ">"@, ","@, ">"@, "="@, "::"@, "myelin"@, "::"@,
            "static_cell"@, "::"@, "StaticCell"@, "::"@, "new"@, "("@, ")"@, ";"@,
        ],
        " , $ depth , > , > = :: myelin :: static_cell :: StaticCell :: new () ; "@.len() > 0,
        is_break(" , $ depth , > , > = :: myelin :: static_cell :: StaticCell :: new () ; "@[0]),
        is_break(" , $ depth , > , > = :: myelin :: static_cell :: StaticCell :: new () ; "@.last()),
{
    let p0 = " , $ depth , > , > = :: "@;
    let p1 = "myelin :: static_cell :: StaticCell :: new () ; "@;
    assert(" , $ depth , > , > = :: myelin :: static_cell :: StaticCell :: new () ; "@ =~= p0 + p1) by {
        reveal_strlit(" , $ depth , > , > = :: myelin :: static_cell :: StaticCell :: new () ; ");
        reveal_strlit(" , $ depth , > , > = :: ");
        reveal_strlit("myelin :: static_cell :: StaticCell :: new () ; ");
    }
    lemma_embassy_client_phrase_5();
    lemma_embassy_client_phrase_6();
    lemma_tokens_add(p0, p1);
    assert(tokens(" , $ depth , > , > = :: myelin :: static_cell :: StaticCell :: new () ; "@) =~= seq![
        ","@, "$"@, "depth"@, ","@, ">"@, ","@, ">"@, "="@, "::"@, "myelin"@, "::"@,
        "static_cell"@, "::"@, "StaticCell"@, "::"@, "new"@, "("@, ")"@, ";"@,
    ]);
}

proof fn lemma_embassy_instantiation_phrase_1()
    ensures
        tokens("# [macro_export] macro_rules ! "@) == seq![
            "#"@, "["@, "macro_export"@, "]"@, "macro_rules"@, "!"@,
        ],
        "# [macro_export] macro_rules ! "@.len() > 0,
        is_break("# [macro_export] macro_rules ! "@.last()),
{
    reveal_strlit("# [macro_export] macro_rules ! ");
    reveal_strlit(" ");
    reveal_strlit("!");
    reveal_strlit("#");
    reveal_strlit("[");
    reveal_strlit("]");
    reveal_strlit("macro_export");
    reveal_strlit("macro_rules");
    let ts = seq![
        "#"@, "["@, "macro_export"@, "]"@, "macro_rules"@, "!"@,
    ];
    reveal_with_fuel(spread, 7);
    reveal_with_fuel(all_tokens, 7);
    assert("# [macro_export] macro_rules ! "@ =~= edge(false) + spread(ts, 6) + edge(true));
    lemma_edged(ts, 6, false, true);
    assert(ts.take(6) =~= ts);
}

proof fn lemma_embassy_instantiation_phrase_3()
    ensures
        tokens(" { ($ name : ident , $ mutex "@) == seq![
            "{"@, "("@, "$"@, "name"@, ":"@, "ident"@, ","@, "$"@, "mutex"@,
        ],
        " { ($ name : ident , $ mutex "@.len() > 0,
        is_break(" { ($ name : ident , $ mutex "@[0]),
        is_break(" { ($ name : ident , $ mutex "@.last()),
{
    reveal_strlit(" { ($ name : ident , $ mutex ");
    reveal_strlit(" ");
    reveal_strlit("$");
    reveal_strlit("(");
    reveal_strlit(",");
    reveal_strlit(":");
    reveal_strlit("ident");
    reveal_strlit("mutex");
    reveal_strlit("name");
    reveal_strlit("{");
    let ts = seq![
        "{"@, "("@, "$"@, "name"@, ":"@, "ident"@, ","@, "$"@, "mutex"@,
    ];
    reveal_with_fuel(spread, 10);
    reveal_with_fuel(all_tokens, 10);
    assert(" { ($ name : ident , $ mutex "@ =~= edge(true) + spread(ts, 9) + edge(true));
    lemma_edged(ts, 9, true, true);
    assert(ts.take(9) =~= ts);
}

proof fn lemma_embassy_instantiation_phrase_4()
    ensures
        tokens(": ty , $ depth : expr) => { "@) == seq![
            ":"@, "ty"@, ","@, "$"@, "depth"@, ":"@, "expr"@, ")"@, "=>"@, "{"@,
        ],
        ": ty , $ depth : expr) => { "@.len() > 0,
        is_break(": ty , $ depth : expr) => { "@.last()),
{
    reveal_strlit(": ty , $ depth : expr) => { ");
    reveal_strlit(" ");
    reveal_strlit("$");
    reveal_strlit(")");
    reveal_strlit(",");
    reveal_strlit(":");
    reveal_strlit("=>");
    reveal_strlit("depth");
    reveal_strlit("expr");
    reveal_strlit("ty");
    reveal_strlit("{");
    let ts = seq![
        ":"@, "ty"@, ","@, "$"@, "depth"@, ":"@, "expr"@, ")"@, "=>"@, "{"@,
    ];
    reveal_with_fuel(spread, 11);
    reveal_with_fuel(all_tokens, 11);
    assert(": ty , $ depth : expr) => { "@ =~= edge(false) + spread(ts, 10) + edge(true));
    lemma_edged(ts, 10, false, true);
    assert(ts.take(10) =~= ts);
}

proof fn lemma_embassy_instantiation_phrase_5()
    ensures
        tokens(":: myelin :: paste :: paste ! { static "@) == seq![
            "::"@, "myelin"@, "::"@, "paste"@, "::"@, "paste"@, "!"@, "{"@, "static"@,
        ],
        ":: myelin :: paste :: paste ! { static "@.len() > 0,
        is_break(":: myelin :: paste :: paste ! { static "@.last()),
{
    reveal_strlit(":: myelin :: paste :: paste ! { static ");
    reveal_strlit(" ");
    reveal_strlit("!");
    reveal_strlit("::");
    reveal_strlit("myelin");
    reveal_strlit("paste");
    reveal_strlit("static");
    reveal_strlit("{");
    let ts = seq![
        "::"@, "myelin"@, "::"@, "paste"@, "::"@, "paste"@, "!"@, "{"@, "static"@,
    ];
    reveal_with_fuel(spread, 10);
    reveal_with_fuel(all_tokens, 10);
    assert(":: myelin :: paste :: paste ! { static "@ =~= edge(false) + spread(ts, 9) + edge(true));
    lemma_edged(ts, 9, false, true);
    assert(ts.take(9) =~= ts);
}

proof fn lemma_embassy_instantiation_phrase_2()
    ensures
        tokens(" { ($ name : ident , $ mutex : ty , $ depth : expr) => { :: myelin :: paste :: paste ! { static "@) == seq![
            "{"@, "("@, "$"@, "name"@, ":"@, "ident"@, ","@, "$"@, "mutex"@, ":"@, "ty"@,
            ","@, "$"@, "depth"@, ":"@, "expr"@, ")"@, "=>"@, "{"@, "::"@, "myelin"@,
            "::"@, "paste"@, "::"@, "paste"@, "!"@, "{"@, "static"@,
        ],
        " { ($ name : ident , $ mutex : ty , $ depth : expr) => { :: myelin :: paste :: paste ! { static "@.len() > 0,
        is_break(" { ($ name : ident , $ mutex : ty , $ depth : expr) => { :: myelin :: paste :: paste ! { static "@[0]),
        is_break(" { ($ name : ident , $ mutex : ty , $ depth : expr) => { :: myelin :: paste :: paste ! { static "@.last()),
{
    let p0 = " { ($ name : ident , $ mutex "@;
    let p1 = ": ty , $ depth : expr) => { "@;
    let p2 = ":: myelin :: paste :: paste ! { static "@;
    assert(" { ($ name : ident , $ mutex : ty , $ depth : expr) => { :: myelin :: paste :: paste ! { static "@ =~= p0 + p1 + p2) by {
        reveal_strlit(" { ($ name : ident , $ mutex : ty , $ depth : expr) => { :: myelin :: paste :: paste ! { static ");
        reveal_strlit(" { ($ name : ident , $ mutex ");
        reveal_strlit(": ty , $ depth : expr) => { ");
        reveal_strlit(":: myelin :: paste :: paste ! { static ");
    }
    lemma_embassy_instantiation_phrase_3();
    lemma_embassy_instantiation_phrase_4();
    lemma_embassy_instantiation_phrase_5();
    lemma_tokens_add(p0, p1);
    lemma_tokens_add(p0 + p1, p2);
    assert(tokens(" { ($ name : ident , $ mutex : ty , $ depth : expr) => { :: myelin :: paste :: paste ! { static "@) =~= seq![
        "{"@, "("@, "$"@, "name"@, ":"@, "ident"@, ","@, "$"@, "mutex"@, ":"@, "ty"@, ","@,
        "$"@, "depth"@, ":"@, "expr"@, ")"@, "=>"@, "{"@, "::"@, "myelin"@, "::"@,
        "paste"@, "::"@, "paste"@, "!"@, "{"@, "static"@,
    ]);
}

proof fn lemma_embassy_instantiation_phrase_6()
    ensures
        tokens(" : :: myelin :: transport_embassy :: EmbassyService < $ mutex , "@) == seq![
            ":"@, "::"@, "myelin"@, "::"@, "transport_embassy"@, "::"@, "EmbassyService"@,
            "<"@, "$"@, "mutex"@, ","@,
        ],
        " : :: myelin :: transport_embassy :: EmbassyService < $ mutex , "@.len() > 0,
        is_break(" : :: myelin :: transport_embassy :: EmbassyService < $ mutex , "@[0]),
        is_break(" : :: myelin :: transport_embassy :: EmbassyService < $ mutex , "@.last()),
{
    reveal_strlit(" : :: myelin :: transport_embassy :: EmbassyService < $ mutex , ");
    reveal_strlit(" ");
    reveal_strlit("$");
    reveal_strlit(",");
    reveal_strlit(":");
    reveal_strlit("::");
    reveal_strlit("<");
    reveal_strlit("EmbassyService");
    reveal_strlit("mutex");
    reveal_strlit("myelin");
    reveal_strlit("transport_embassy");
    let ts = seq![
        ":"@, "::"@, "myelin"@, "::"@, "transport_embassy"@, "::"@, "EmbassyService"@,
        "<"@, "$"@, "mutex"@, ","@,
    ];
    reveal_with_fuel(spread, 12);
    reveal_with_fuel(all_tokens, 12);
    assert(" : :: myelin :: transport_embassy :: EmbassyService < $ mutex , "@ =~= edge(true) + spread(ts, 11) + edge(true));
    lemma_edged(ts, 11, true, true);
    assert(ts.take(11) =~= ts);
}

proof fn lemma_embassy_instantiation_phrase_8()
    ensures
        tokens(" , $ depth , > = :: myelin :: transport_embassy :: "@) == seq![
            ","@, "$"@, "depth"@, ","@, ">"@, "="@, "::"@, "myelin"@, "::"@,
            "transport_embassy"@, "::"@,
        ],
        " , $ depth , > = :: myelin :: transport_embassy :: "@.len() > 0,
        is_break(" , $ depth , > = :: myelin :: transport_embassy :: "@[0]),
        is_break(" , $ depth , > = :: myelin :: transport_embassy :: "@.last()),
{
    reveal_strlit(" , $ depth , > = :: myelin :: transport_embassy :: ");
    reveal_strlit(" ");
    reveal_strlit("$");
    reveal_strlit(",");
    reveal_strlit("::");
    reveal_strlit("=");
    reveal_strlit(">");
    reveal_strlit("depth");
    reveal_strlit("myelin");
    reveal_strlit("transport_embassy");
    let ts = seq![
        ","@, "$"@, "depth"@, ","@, ">"@, "="@, "::"@, "myelin"@, "::"@,
        "transport_embassy"@, "::"@,
    ];
    reveal_with_fuel(spread, 12);
    reveal_with_fuel(all_tokens, 12);
    assert(" , $ depth , > = :: myelin :: transport_embassy :: "@ =~= edge(true) + spread(ts, 11) + edge(true));
    lemma_edged(ts, 11, true, true);
    assert(ts.take(11) =~= ts);
}

proof fn lemma_embassy_instantiation_phrase_9()
    ensures
        tokens("EmbassyService :: new () ; macro_rules ! [< "@) == seq![
            "EmbassyService"@, "::"@, "new"@, "("@, ")"@, ";"@, "macro_rules"@, "!"@, "["@,
            "<"@,
        ],
        "EmbassyService :: new () ; macro_rules ! [< "@.len() > 0,
        is_break("EmbassyService :: new () ; macro_rules ! [< "@.last()),
{
    reveal_strlit("EmbassyService :: new () ; macro_rules ! [< ");
    reveal_strlit(" ");
    reveal_strlit("!");
    reveal_strlit("(");
    reveal_strlit(")");
    reveal_strlit("::");
    reveal_strlit(";");
    reveal_strlit("<");
    reveal_strlit("EmbassyService");
    reveal_strlit("[");
    reveal_strlit("macro_rules");
    reveal_strlit("new");
    let ts = seq![
        "EmbassyService"@, "::"@, "new"@, "("@, ")"@, ";"@, "macro_rules"@, "!"@, "["@,
        "<"@,
    ];
    reveal_with_fuel(spread, 11);
    reveal_with_fuel(all_tokens, 11);
    assert("EmbassyService :: new () ; macro_rules ! [< "@ =~= edge(false) + spread(ts, 10) + edge(true));
    lemma_edged(ts, 10, false, true);
    assert(ts.take(10) =~= ts);
}

proof fn lemma_embassy_instantiation_phrase_10()
    ensures
        tokens("$ name _client >] { () => { { "@) == seq![
            "$"@, "name"@, "_client"@, ">"@, "]"@, "{"@, "("@, ")"@, "=>"@, "{"@, "{"@,
        ],
        "$ name _client >] { () => { { "@.len() > 0,
        is_break("$ name _client >] { () => { { "@.last()),
{
    reveal_strlit("$ name _client >] { () => { { ");
    reveal_strlit(" ");
    reveal_strlit("$");
    reveal_strlit("(");
    reveal_strlit(")");
    reveal_strlit("=>");
    reveal_strlit(">");
    reveal_strlit("]");
    reveal_strlit("_client");
    reveal_strlit("name");
    reveal_strlit("{");
    let ts = seq![
        "$"@, "name"@, "_client"@, ">"@, "]"@, "{"@, "("@, ")"@, "=>"@, "{"@, "{"@,
    ];
    reveal_with_fuel(spread, 12);
    reveal_with_fuel(all_tokens, 12);
    assert("$ name _client >] { () => { { "@ =~= edge(false) + spread(ts, 11) + edge(true));
    lemma_edged(ts, 11, false, true);
    assert(ts.take(11) =~= ts);
}

proof fn lemma_embassy_instantiation_phrase_7()
    ensures
        tokens(" , $ depth , > = :: myelin :: transport_embassy :: EmbassyService :: new () ; macro_rules ! [< $ name _client >] { () => { { "@) == seq![
            ","@, "$"@, "depth"@, ","@, ">"@, "="@, "::"@, "myelin"@, "::"@,
            "transport_embassy"@, "::"@, "EmbassyService"@, "::"@, "new"@, "("@, ")"@,
            ";"@, "macro_rules"@, "!"@, "["@, "<"@, "$"@, "name"@, "_client"@, ">"@, "]"@,
            "{"@, "("@, ")"@, "=>"@, "{"@, "{"@,
        ],
        " , $ depth , > = :: myelin :: transport_embassy :: EmbassyService :: new () ; macro_rules ! [< $ name _client >] { () => { { "@.len() > 0,
        is_break(" , $ depth , > = :: myelin :: transport_embassy :: EmbassyService :: new () ; macro_rules ! [< $ name _client >] { () => { { "@[0]),
        is_break(" , $ depth , > = :: myelin :: transport_embassy :: EmbassyService :: new () ; macro_rules ! [< $ name _client >] { () => { { "@.last()),
{
    let p0 = " , $ depth , > = :: myelin :: transport_embassy :: "@;
    let p1 = "EmbassyService :: new () ; macro_rules ! [< "@;
    let p2 = "$ name _client >] { () => { { "@;
    assert(" , $ depth , > = :: myelin :: transport_embassy :: EmbassyService :: new () ; macro_rules ! [< $ name _client >] { () => { { "@ =~= p0 + p1 + p2) by {
        reveal_strlit(" , $ depth , > = :: myelin :: transport_embassy :: EmbassyService :: new () ; macro_rules ! [< $ name _client >] { () => { { ");
        reveal_strlit(" , $ depth , > = :: myelin :: transport_embassy :: ");
        reveal_strlit("EmbassyService :: new () ; macro_rules ! [< ");
        reveal_strlit("$ name _client >] { () => { { ");
    }
    lemma_embassy_instantiation_phrase_8();
    lemma_embassy_instantiation_phrase_9();
    lemma_embassy_instantiation_phrase_10();
    lemma_tokens_add(p0, p1);
    lemma_tokens_add(p0 + p1, p2);
    assert(tokens(" , $ depth , > = :: myelin :: transport_embassy :: EmbassyService :: new () ; macro_rules ! [< $ name _client >] { () => { { "@) =~= seq![
        ","@, "$"@, "depth"@, ","@, ">"@, "="@, "::"@, "myelin"@, "::"@,
        "transport_embassy"@, "::"@, "EmbassyService"@, "::"@, "new"@, "("@, ")"@, ";"@,
        "macro_rules"@, "!"@, "["@, "<"@, "$"@, "name"@, "_client"@, ">"@, "]"@, "{"@,
        "("@, ")"@, "=>"@, "{"@, "{"@,
    ]);
}

proof fn lemma_embassy_instantiation_phrase_11()
    ensures
        tokens(" :: new (& * CELL . init ("@) == seq![
            "::"@, "new"@, "("@, "&"@, "*"@, "CELL"@, "."@, "init"@, "("@,
        ],
        " :: new (& * CELL . init ("@.len() > 0,
        is_break(" :: new (& * CELL . init ("@[0]),
        is_break(" :: new (& * CELL . init ("@.last()),
{
    reveal_strlit(" :: new (& * CELL . init (");
    reveal_strlit(" ");
    reveal_strlit("&");
    reveal_strlit("(");
    reveal_strlit("*");
    reveal_strlit(".");
    reveal_strlit("::");
    reveal_strlit("CELL");
    reveal_strlit("init");
    reveal_strlit("new");
    let ts = seq![
        "::"@, "new"@, "("@, "&"@, "*"@, "CELL"@, "."@, "init"@, "("@,
    ];
    reveal_with_fuel(spread, 10);
    reveal_with_fuel(all_tokens, 10);
    assert(" :: new (& * CELL . init ("@ =~= edge(true) + spread(ts, 9) + edge(false));
    lemma_edged(ts, 9, true, false);
    assert(ts.take(9) =~= ts);
}

proof fn lemma_embassy_instantiation_phrase_13()
    ensures
        tokens(" . client () ,) ,) } } ; } macro_rules "@) == seq![
            "."@, "client"@, "("@, ")"@, ","@, ")"@, ","@, ")"@, "}"@, "}"@, ";"@, "}"@,
            "macro_rules"@,
        ],
        " . client () ,) ,) } } ; } macro_rules "@.len() > 0,
        is_break(" . client () ,) ,) } } ; } macro_rules "@[0]),
        is_break(" . client () ,) ,) } } ; } macro_rules "@.last()),
{
    reveal_strlit(" . client () ,) ,) } } ; } macro_rules ");
    reveal_strlit(" ");
    reveal_strlit("(");
    reveal_strlit(")");
    reveal_strlit(",");
    reveal_strlit(".");
    reveal_strlit(";");
    reveal_strlit("client");
    reveal_strlit("macro_rules");
    reveal_strlit("}");
    let ts = seq![
        "."@, "client"@, "("@, ")"@, ","@, ")"@, ","@, ")"@, "}"@, "}"@, ";"@, "}"@,
        "macro_rules"@,
    ];
    reveal_with_fuel(spread, 14);
    reveal_with_fuel(all_tokens, 14);
    assert(" . client () ,) ,) } } ; } macro_rules "@ =~= edge(true) + spread(ts, 13) + edge(true));
    lemma_edged(ts, 13, true, true);
    assert(ts.take(13) =~= ts);
}

proof fn lemma_embassy_instantiation_phrase_14()
    ensures
        tokens("! [< $ name _server >] { () => { "@) == seq![
            "!"@, "["@, "<"@, "$"@, "name"@, "_server"@, ">"@, "]"@, "{"@, "("@, ")"@,
            "=>"@, "{"@,
        ],
        "! [< $ name _server >] { () => { "@.len() > 0,
        is_break("! [< $ name _server >] { () => { "@.last()),
{
    reveal_strlit("! [< $ name _server >] { () => { ");
    reveal_strlit(" ");
    reveal_strlit("!");
    reveal_strlit("$");
    reveal_strlit("(");
    reveal_strlit(")");
    reveal_strlit("<");
    reveal_strlit("=>");
    reveal_strlit(">");
    reveal_strlit("[");
    reveal_strlit("]");
    reveal_strlit("_server");
    reveal_strlit("name");
    reveal_strlit("{");
    let ts = seq![
        "!"@, "["@, "<"@, "$"@, "name"@, "_server"@, ">"@, "]"@, "{"@, "("@, ")"@, "=>"@,
        "{"@,
    ];
    reveal_with_fuel(spread, 14);
    reveal_with_fuel(all_tokens, 14);
    assert("! [< $ name _server >] { () => { "@ =~= edge(false) + spread(ts, 13) + edge(true));
    lemma_edged(ts, 13, false, true);
    assert(ts.take(13) =~= ts);
}

proof fn lemma_embassy_instantiation_phrase_12()
    ensures
        tokens(" . client () ,) ,) } } ; } macro_rules ! [< $ name _server >] { () => { "@) == seq![
            "."@, "client"@, "("@, ")"@, ","@, ")"@, ","@, ")"@, "}"@, "}"@, ";"@, "}"@,
            "macro_rules"@, "!"@, "["@, "<"@, "$"@, "name"@, "_server"@, ">"@, "]"@, "{"@,
            "("@, ")"@, "=>"@, "{"@,
        ],
        " . client () ,) ,) } } ; } macro_rules ! [< $ name _server >] { () => { "@.len() > 0,
        is_break(" . client () ,) ,) } } ; } macro_rules ! [< $ name _server >] { () => { "@[0]),
        is_break(" . client () ,) ,) } } ; } macro_rules ! [< $ name _server >] { () => { "@.last()),
{
    let p0 = " . client () ,) ,) } } ; } macro_rules "@;
    let p1 = "! [< $ name _server >] { () => { "@;
    assert(" . client () ,) ,) } } ; } macro_rules ! [< $ name _server >] { () => { "@ =~= p0 + p1) by {
        reveal_strlit(" . client () ,) ,) } } ; } macro_rules ! [< $ name _server >] { () => { ");
        reveal_strlit(" . client () ,) ,) } } ; } macro_rules ");
        reveal_strlit("! [< $ name _server >] { () => { ");
    }
    lemma_embassy_instantiation_phrase_13();
    lemma_embassy_instantiation_phrase_14();
    lemma_tokens_add(p0, p1);
    assert(tokens(" . client () ,) ,) } } ; } macro_rules ! [< $ name _server >] { () => { "@) =~= seq![
        "."@, "client"@, "("@, ")"@, ","@, ")"@, ","@, ")"@, "}"@, "}"@, ";"@, "}"@,
        "macro_rules"@, "!"@, "["@, "<"@, "$"@, "name"@, "_server"@, ">"@, "]"@, "{"@,
        "("@, ")"@, "=>"@, "{"@,
    ]);
}

proof fn lemma_embassy_instantiation_phrase_16()
    ensures
        tokens(" . server () } ; } macro_rules ! [< $ name "@) == seq![
            "."@, "server"@, "("@, ")"@, "}"@, ";"@, "}"@, "macro_rules"@, "!"@, "["@,
            "<"@, "$"@, "name"@,
        ],
        " . server () } ; } macro_rules ! [< $ name "@.len() > 0,
        is_break(" . server () } ; } macro_rules ! [< $ name "@[0]),
        is_break(" . server () } ; } macro_rules ! [< $ name "@.last()),
{
    reveal_strlit(" . server () } ; } macro_rules ! [< $ name ");
    reveal_strlit(" ");
    reveal_strlit("!");
    reveal_strlit("$");
    reveal_strlit("(");
    reveal_strlit(")");
    reveal_strlit(".");
    reveal_strlit(";");
    reveal_strlit("<");
    reveal_strlit("[");
    reveal_strlit("macro_rules");
    reveal_strlit("name");
    reveal_strlit("server");
    reveal_strlit("}");
    let ts = seq![
        "."@, "server"@, "("@, ")"@, "}"@, ";"@, "}"@, "macro_rules"@, "!"@, "["@, "<"@,
        "$"@, "name"@,
    ];
    reveal_with_fuel(spread, 14);
    reveal_with_fuel(all_tokens, 14);
    assert(" . server () } ; } macro_rules ! [< $ name "@ =~= edge(true) + spread(ts, 13) + edge(true));
    lemma_edged(ts, 13, true, true);
    assert(ts.take(13) =~= ts);
}

proof fn lemma_embassy_instantiation_phrase_17()
    ensures
        tokens("_client_sync >] { ($ block_on : expr) => { { "@) == seq![
            "_client_sync"@, ">"@, "]"@, "{"@, "("@, "$"@, "block_on"@, ":"@, "expr"@,
            ")"@, "=>"@, "{"@, "{"@,
        ],
        "_client_sync >] { ($ block_on : expr) => { { "@.len() > 0,
        is_break("_client_sync >] { ($ block_on : expr) => { { "@.last()),
{
    reveal_strlit("_client_sync >] { ($ block_on : expr) => { { ");
    reveal_strlit(" ");
    reveal_strlit("$");
    reveal_strlit("(");
    reveal_strlit(")");
    reveal_strlit(":");
    reveal_strlit("=>");
    reveal_strlit(">");
    reveal_strlit("]");
    reveal_strlit("_client_sync");
    reveal_strlit("block_on");
    reveal_strlit("expr");
    reveal_strlit("{");
    let ts = seq![
        "_client_sync"@, ">"@, "]"@, "{"@, "("@, "$"@, "block_on"@, ":"@, "expr"@, ")"@,
        "=>"@, "{"@, "{"@,
    ];
    reveal_with_fuel(spread, 14);
    reveal_with_fuel(all_tokens, 14);
    assert("_client_sync >] { ($ block_on : expr) => { { "@ =~= edge(false) + spread(ts, 13) + edge(true));
    lemma_edged(ts, 13, false, true);
    assert(ts.take(13) =~= ts);
}

proof fn lemma_embassy_instantiation_phrase_15()
    ensures
        tokens(" . server () } ; } macro_rules ! [< $ name _client_sync >] { ($ block_on : expr) => { { "@) == seq![
            "."@, "server"@, "("@, ")"@, "}"@, ";"@, "}"@, "macro_rules"@, "!"@, "["@,
            "<"@, "$"@, "name"@, "_client_sync"@, ">"@, "]"@, "{"@, "("@, "$"@,
            "block_on"@, ":"@, "expr"@, ")"@, "=>"@, "{"@, "{"@,
        ],
        " . server () } ; } macro_rules ! [< $ name _client_sync >] { ($ block_on : expr) => { { "@.len() > 0,
        is_break(" . server () } ; } macro_rules ! [< $ name _client_sync >] { ($ block_on : expr) => { { "@[0]),
        is_break(" . server () } ; } macro_rules ! [< $ name _client_sync >] { ($ block_on : expr) => { { "@.last()),
{
    let p0 = " . server () } ; } macro_rules ! [< $ name "@;
    let p1 = "_client_sync >] { ($ block_on : expr) => { { "@;
    assert(" . server () } ; } macro_rules ! [< $ name _client_sync >] { ($ block_on : expr) => { { "@ =~= p0 + p1) by {
        reveal_strlit(" . server () } ; } macro_rules ! [< $ name _client_sync >] { ($ block_on : expr) => { { ");
        reveal_strlit(" . server () } ; } macro_rules ! [< $ name ");
        reveal_strlit("_client_sync >] { ($ block_on : expr) => { { ");
    }
    lemma_embassy_instantiation_phrase_16();
    lemma_embassy_instantiation_phrase_17();
    lemma_tokens_add(p0, p1);
    assert(tokens(" . server () } ; } macro_rules ! [< $ name _client_sync >] { ($ block_on : expr) => { { "@) =~= seq![
        "."@, "server"@, "("@, ")"@, "}"@, ";"@, "}"@, "macro_rules"@, "!"@, "["@, "<"@,
        "$"@, "name"@, "_client_sync"@, ">"@, "]"@, "{"@, "("@, "$"@, "block_on"@, ":"@,
        "expr"@, ")"@, "=>"@, "{"@, "{"@,
    ]);
}

proof fn lemma_embassy_instantiation_phrase_18()
    ensures
        tokens(" :: new ("@) == seq![
            "::"@, "new"@, "("@,
        ],
        " :: new ("@.len() > 0,
        is_break(" :: new ("@[0]),
        is_break(" :: new ("@.last()),
{
    reveal_strlit(" :: new (");
    reveal_strlit(" ");
    reveal_strlit("(");
    reveal_strlit("::");
    reveal_strlit("new");
    let ts = seq![
        "::"@, "new"@, "("@,
    ];
    reveal_with_fuel(spread, 4);
    reveal_with_fuel(all_tokens, 4);
    assert(" :: new ("@ =~= edge(true) + spread(ts, 3) + edge(false));
    lemma_edged(ts, 3, true, false);
    assert(ts.take(3) =~= ts);
}

proof fn lemma_embassy_instantiation_phrase_20()
    ensures
        tokens(" . client () ,) ,) , $ "@) == seq![
            "."@, "client"@, "("@, ")"@, ","@, ")"@, ","@, ")"@, ","@, "$"@,
        ],
        " . client () ,) ,) , $ "@.len() > 0,
        is_break(" . client () ,) ,) , $ "@[0]),
        is_break(" . client () ,) ,) , $ "@.last()),
{
    reveal_strlit(" . client () ,) ,) , $ ");
    reveal_strlit(" ");
    reveal_strlit("$");
    reveal_strlit("(");
    reveal_strlit(")");
    reveal_strlit(",");
    reveal_strlit(".");
    reveal_strlit("client");
    let ts = seq![
        "."@, "client"@, "("@, ")"@, ","@, ")"@, ","@, ")"@, ","@, "$"@,
    ];
    reveal_with_fuel(spread, 11);
    reveal_with_fuel(all_tokens, 11);
    assert(" . client () ,) ,) , $ "@ =~= edge(true) + spread(ts, 10) + edge(true));
    lemma_edged(ts, 10, true, true);
    assert(ts.take(10) =~= ts);
}

proof fn lemma_embassy_instantiation_phrase_21()
    ensures
        tokens("block_on ,) } } ; } } } ; }"@) == seq![
            "block_on"@, ","@, ")"@, "}"@, "}"@, ";"@, "}"@, "}"@, "}"@, ";"@, "}"@,
        ],
        "block_on ,) } } ; } } } ; }"@.len() > 0,
{
    reveal_strlit("block_on ,) } } ; } } } ; }");
    reveal_strlit(" ");
    reveal_strlit(")");
    reveal_strlit(",");
    reveal_strlit(";");
    reveal_strlit("block_on");
    reveal_strlit("}");
    let ts = seq![
        "block_on"@, ","@, ")"@, "}"@, "}"@, ";"@, "}"@, "}"@, "}"@, ";"@, "}"@,
    ];
    reveal_with_fuel(spread, 12);
    reveal_with_fuel(all_tokens, 12);
    assert("block_on ,) } } ; } } } ; }"@ =~= edge(false) + spread(ts, 11) + edge(false));
    lemma_edged(ts, 11, false, false);
    assert(ts.take(11) =~= ts);
}

proof fn lemma_embassy_instantiation_phrase_19()
    ensures
        tokens(" . client () ,) ,) , $ block_on ,) } } ; } } } ; }"@) == seq![
            "."@, "client"@, "("@, ")"@, ","@, ")"@, ","@, ")"@, ","@, "$"@, "block_on"@,
            ","@, ")"@, "}"@, "}"@, ";"@, "}"@, "}"@, "}"@, ";"@, "}"@,
        ],
        " . client () ,) ,) , $ block_on ,) } } ; } } } ; }"@.len() > 0,
        is_break(" . client () ,) ,) , $ block_on ,) } } ; } } } ; }"@[0]),
{
    let p0 = " . client () ,) ,) , $ "@;
    let p1 = "block_on ,) } } ; } } } ; }"@;
    assert(" . client () ,) ,) , $ block_on ,) } } ; } } } ; }"@ =~= p0 + p1) by {
        reveal_strlit(" . client () ,) ,) , $ block_on ,) } } ; } } } ; }");
        reveal_strlit(" . client () ,) ,) , $ ");
        reveal_strlit("block_on ,) } } ; } } } ; }");
    }
    lemma_embassy_instantiation_phrase_20();
    lemma_embassy_instantiation_phrase_21();
    lemma_tokens_add(p0, p1);
    assert(tokens(" . client () ,) ,) , $ block_on ,) } } ; } } } ; }"@) =~= seq![
        "."@, "client"@, "("@, ")"@, ","@, ")"@, ","@, ")"@, ","@, "$"@, "block_on"@, ","@,
        ")"@, "}"@, "}"@, ";"@, "}"@, "}"@, "}"@, ";"@, "}"@,
    ]);
}

proof fn lemma_static_service_phrase_1()
    ensures
        tokens(" $ name : upper >]"@) == seq![
            "$"@, "name"@, ":"@, "upper"@, ">"@, "]"@,
        ],
        " $ name : upper >]"@.len() > 0,
        is_break(" $ name : upper >]"@[0]),
        is_break(" $ name : upper >]"@.last()),
{
    reveal_strlit(" $ name : upper >]");
    reveal_strlit(" ");
    reveal_strlit("$");
    reveal_strlit(":");
    reveal_strlit(">");
    reveal_strlit("]");
    reveal_strlit("name");
    reveal_strlit("upper");
    let ts = seq![
        "$"@, "name"@, ":"@, "upper"@, ">"@, "]"@,
    ];
    reveal_with_fuel(spread, 7);
    reveal_with_fuel(all_tokens, 7);
    assert(" $ name : upper >]"@ =~= edge(true) + spread(ts, 6) + edge(false));
    lemma_edged(ts, 6, true, false);
    assert(ts.take(6) =~= ts);
}

#[verifier::rlimit(60)]
pub(crate) proof fn lemma_request_variant(svc: ServiceTrait, method: ServiceMethod)
    requires
        named(svc),
        named_function(method),
    ensures
        tokens(request_variant_text(svc, method)) == if method.args@.len() == 0 {
            seq![method.variant_ident@]
            + seq![","@]
        } else {
            seq![method.variant_ident@]
            + seq!["{"@]
            + declared(method.args@)
            + seq!["}"@, ","@]
        },
        request_variant_text(svc, method).len() > 0,
        is_break(request_variant_text(svc, method).last()),
{
    if method.args@.len() == 0 {
        lemma_token(method.variant_ident@);
        lemma_request_variant_phrase_1();
        let t0 = method.variant_ident@;
        lemma_tokens_add(t0, " , "@);
        let t1 = t0 + " , "@;
    } else {
        lemma_token(method.variant_ident@);
        lemma_request_variant_phrase_2();
        lemma_decls(method.args@);
        lemma_request_variant_phrase_3();
        let t0 = method.variant_ident@;
        lemma_tokens_add(t0, " { "@);
        let t1 = t0 + " { "@;
        lemma_tokens_add(t1, crate::text::join(argument_decls(method.args@), " , "@));
        let t2 = t1 + crate::text::join(argument_decls(method.args@), " , "@);
        lemma_tokens_add(t2, " } , "@);
        let t3 = t2 + " } , "@;
    }
}

#[verifier::rlimit(60)]
pub(crate) proof fn lemma_response_variant(svc: ServiceTrait, method: ServiceMethod)
    requires
        named(svc),
        named_function(method),
    ensures
        tokens(response_variant_text(svc, method)) == if method.ret is Unit {
            seq![method.variant_ident@]
            + seq![","@]
        } else {
            seq![method.variant_ident@]
            + seq!["("@]
            + payload(method.ret)
            + seq![")"@, ","@]
        },
        response_variant_text(svc, method).len() > 0,
        is_break(response_variant_text(svc, method).last()),
{
    if method.ret is Unit {
        lemma_token(method.variant_ident@);
        lemma_request_variant_phrase_1();
        let t0 = method.variant_ident@;
        lemma_tokens_add(t0, " , "@);
        let t1 = t0 + " , "@;
    } else {
        lemma_token(method.variant_ident@);
        lemma_response_variant_phrase_1();
        lemma_return_type(method.ret);
        lemma_response_variant_phrase_2();
        let t0 = method.variant_ident@;
        lemma_tokens_add(t0, " ("@);
        let t1 = t0 + " ("@;
        lemma_tokens_add(t1, return_type_text(method.ret));
        let t2 = t1 + return_type_text(method.ret);
        lemma_tokens_add(t2, ") , "@);
        let t3 = t2 + ") , "@;
    }
}

#[verifier::rlimit(60)]
pub(crate) proof fn lemma_request_ctor(svc: ServiceTrait, method: ServiceMethod)
    requires
        named(svc),
        named_function(method),
    ensures
        tokens(request_ctor_text(svc, method)) == request_tokens(svc, method),
        request_ctor_text(svc, method).len() > 0,
{
    if method.args@.len() == 0 {
        assert("Request :: "@ =~= "Request"@ + " :: "@) by {
            reveal_strlit("Request :: ");
            reveal_strlit("Request");
            reveal_strlit(" :: ");
        }
        reveal_strlit("Request");
        lemma_request_ctor_phrase_1();
        lemma_read_start(svc.stem@, "Request :: "@, "Request"@, " :: "@);
        let t0 = svc.stem@ + "Request :: "@;
        lemma_read_name(t0, method.variant_ident@);
        let t1 = t0 + method.variant_ident@;
        assert(tokens(request_ctor_text(svc, method)) =~= request_tokens(svc, method));
    } else {
        assert("Request :: "@ =~= "Request"@ + " :: "@) by {
            reveal_strlit("Request :: ");
            reveal_strlit("Request");
            reveal_strlit(" :: ");
        }
        reveal_strlit("Request");
        lemma_request_ctor_phrase_1();
        lemma_read_start(svc.stem@, "Request :: "@, "Request"@, " :: "@);
        lemma_request_variant_phrase_2();
        lemma_names(method.args@);
        lemma_request_ctor_phrase_2();
        let t0 = svc.stem@ + "Request :: "@;
        lemma_read_name(t0, method.variant_ident@);
        let t1 = t0 + method.variant_ident@;
        lemma_tokens_add(t1, " { "@);
        let t2 = t1 + " { "@;
        lemma_tokens_add(t2, crate::text::join(argument_names(method.args@), " , "@));
        let t3 = t2 + crate::text::join(argument_names(method.args@), " , "@);
        lemma_tokens_add(t3, " }"@);
        let t4 = t3 + " }"@;
        assert(tokens(request_ctor_text(svc, method)) =~= request_tokens(svc, method));
    }
}

#[verifier::rlimit(60)]
pub(crate) proof fn lemma_client_params(svc: ServiceTrait, method: ServiceMethod)
    requires
        named(svc),
        named_function(method),
    ensures
        tokens(client_params_text(svc, method)) == parameter_tokens(method),
        client_params_text(svc, method).len() > 0,
        is_break(client_params_text(svc, method).last()),
        is_break(client_params_text(svc, method)[0]),
{
    if method.args@.len() == 0 {
        lemma_client_params_phrase_1();
        let t0 = "(& self ,)"@;
        assert(tokens(client_params_text(svc, method)) =~= parameter_tokens(method));
    } else {
        lemma_client_params_phrase_2();
        lemma_decls(method.args@);
        lemma_client_params_phrase_3();
        let t0 = "(& self , "@;
        lemma_tokens_add(t0, crate::text::join(argument_decls(method.args@), " , "@));
        let t1 = t0 + crate::text::join(argument_decls(method.args@), " , "@);
        lemma_tokens_add(t1, ")"@);
        let t2 = t1 + ")"@;
        assert(tokens(client_params_text(svc, method)) =~= parameter_tokens(method));
    }
}

#[verifier::rlimit(60)]
pub(crate) proof fn lemma_response_arm(svc: ServiceTrait, method: ServiceMethod)
    requires
        named(svc),
        named_function(method),
    ensures
        tokens(response_arm_text(svc, method)) == unwrapping_tokens(svc, method),
        response_arm_text(svc, method).len() > 0,
{
    if method.ret is Unit {
        assert("Response :: "@ =~= "Response"@ + " :: "@) by {
            reveal_strlit("Response :: ");
            reveal_strlit("Response");
            reveal_strlit(" :: ");
        }
        reveal_strlit("Response");
        lemma_request_ctor_phrase_1();
        lemma_read_start(svc.stem@, "Response :: "@, "Response"@, " :: "@);
        lemma_response_arm_phrase_1();
        let t0 = svc.stem@ + "Response :: "@;
        lemma_read_name(t0, method.variant_ident@);
        let t1 = t0 + method.variant_ident@;
        lemma_tokens_add(t1, " => ()"@);
        let t2 = t1 + " => ()"@;
        assert(tokens(response_arm_text(svc, method)) =~= unwrapping_tokens(svc, method));
    } else {
        assert("Response :: "@ =~= "Response"@ + " :: "@) by {
            reveal_strlit("Response :: ");
            reveal_strlit("Response");
            reveal_strlit(" :: ");
        }
        reveal_strlit("Response");
        lemma_request_ctor_phrase_1();
        lemma_read_start(svc.stem@, "Response :: "@, "Response"@, " :: "@);
        lemma_response_arm_phrase_2();
        let t0 = svc.stem@ + "Response :: "@;
        lemma_read_name(t0, method.variant_ident@);
        let t1 = t0 + method.variant_ident@;
        lemma_tokens_add(t1, " (v) => v"@);
        let t2 = t1 + " (v) => v"@;
        assert(tokens(response_arm_text(svc, method)) =~= unwrapping_tokens(svc, method));
    }
}

#[verifier::rlimit(60)]
pub(crate) proof fn lemma_client_method(svc: ServiceTrait, method: ServiceMethod)
    requires
        named(svc),
        named_function(method),
    ensures
        tokens(client_method_text(svc, method)) == tokens(svc.vis@)
        + seq!["async"@, "fn"@]
        + seq![method.sig.ident@]
        + tokens(" "@)
        + parameter_tokens(method)
        + seq![
            "->"@, "<"@, "T"@, "::"@, "Error"@, "as"@, "::"@, "myelin"@, "::"@,
            "TransportResult"@, "<"@,
        ]
        + payload(method.ret)
        + seq![
            ">>"@, "::"@, "Output"@, "where"@, "T"@, "::"@, "Error"@, ":"@, "::"@,
            "myelin"@, "::"@, "TransportResult"@, "<"@,
        ]
        + payload(method.ret)
        + seq![
            ">"@, ","@, "{"@, "let"@, "result"@, "="@, "self"@, "."@, "transport"@, "."@,
            "call"@, "("@,
        ]
        + request_tokens(svc, method)
        + seq![
            ")"@, "."@, "await"@, ";"@, "::"@, "myelin"@, "::"@, "TransportResult"@, "::"@,
            "into_output"@, "("@, "result"@, "."@, "map"@, "("@, "|"@, "resp"@, "|"@,
            "match"@, "resp"@, "{"@,
        ]
        + unwrapping_tokens(svc, method)
        + seq![
            ","@, "#"@, "["@, "allow"@, "("@, "unreachable_patterns"@, ")"@, "]"@, "_"@,
            "=>"@, "unreachable"@, "!"@, "("@, ")"@, ","@, "}"@, ")"@, ")"@, "}"@,
        ],
        client_method_text(svc, method).len() > 0,
        is_break(client_method_text(svc, method).last()),
{
    lemma_vis(svc.vis@);
    lemma_client_method_phrase_1();
    lemma_space();
    lemma_client_params(svc, method);
    lemma_client_method_phrase_2();
    lemma_return_type(method.ret);
    lemma_client_method_phrase_3();
    lemma_client_method_phrase_4();
    lemma_request_ctor(svc, method);
    lemma_client_method_phrase_5();
    lemma_response_arm(svc, method);
    lemma_client_method_phrase_8();
    let t0 = vis_prefix(svc.vis@);
    lemma_tokens_add(t0, "async fn "@);
    let t1 = t0 + "async fn "@;
    lemma_read_name(t1, method.sig.ident@);
    let t2 = t1 + method.sig.ident@;
    lemma_tokens_add(t2, " "@);
    let t3 = t2 + " "@;
    lemma_tokens_add(t3, client_params_text(svc, method));
    let t4 = t3 + client_params_text(svc, method);
    lemma_tokens_add(t4, " -> < T :: Error as :: myelin :: TransportResult < "@);
    let t5 = t4 + " -> < T :: Error as :: myelin :: TransportResult < "@;
    lemma_tokens_add(t5, return_type_text(method.ret));
    let t6 = t5 + return_type_text(method.ret);
    lemma_tokens_add(t6, " >> :: Output where T :: Error : :: myelin :: TransportResult < "@);
    let t7 = t6 + " >> :: Output where T :: Error : :: myelin :: TransportResult < "@;
    lemma_tokens_add(t7, return_type_text(method.ret));
    let t8 = t7 + return_type_text(method.ret);
    lemma_tokens_add(t8, " > , { let result = self . transport . call ("@);
    let t9 = t8 + " > , { let result = self . transport . call ("@;
    lemma_tokens_add(t9, request_ctor_text(svc, method));
    let t10 = t9 + request_ctor_text(svc, method);
    lemma_tokens_add(t10, ") . await ; :: myelin :: TransportResult :: into_output (result . map (| resp | match resp { "@);
    let t11 = t10 + ") . await ; :: myelin :: TransportResult :: into_output (result . map (| resp | match resp { "@;
    lemma_tokens_add(t11, response_arm_text(svc, method));
    let t12 = t11 + response_arm_text(svc, method);
    lemma_tokens_add(t12, " , # [allow (unreachable_patterns)] _ => unreachable ! () , })) } "@);
    let t13 = t12 + " , # [allow (unreachable_patterns)] _ => unreachable ! () , })) } "@;
}

#[verifier::rlimit(60)]
pub(crate) proof fn lemma_client_sync_method(svc: ServiceTrait, method: ServiceMethod)
    requires
        named(svc),
        named_function(method),
    ensures
        tokens(client_sync_method_text(svc, method)) == tokens(svc.vis@)
        + seq!["fn"@]
        + seq![method.sig.ident@]
        + tokens(" "@)
        + parameter_tokens(method)
        + seq![
            "->"@, "<"@, "T"@, "::"@, "Error"@, "as"@, "::"@, "myelin"@, "::"@,
            "TransportResult"@, "<"@,
        ]
        + payload(method.ret)
        + seq![
            ">>"@, "::"@, "Output"@, "where"@, "T"@, "::"@, "Error"@, ":"@, "::"@,
            "myelin"@, "::"@, "TransportResult"@, "<"@,
        ]
        + payload(method.ret)
        + seq![
            ">"@, ","@, "{"@, "self"@, "."@, "block_on"@, "."@, "block_on"@, "("@, "self"@,
            "."@, "inner"@, "."@,
        ]
        + seq![method.sig.ident@]
        + seq!["("@]
        + passed(method.args@)
        + seq![")"@, ")"@, "}"@],
        client_sync_method_text(svc, method).len() > 0,
        is_break(client_sync_method_text(svc, method).last()),
{
    lemma_vis(svc.vis@);
    lemma_client_sync_method_phrase_1();
    lemma_space();
    lemma_client_params(svc, method);
    lemma_client_method_phrase_2();
    lemma_return_type(method.ret);
    lemma_client_method_phrase_3();
    lemma_client_sync_method_phrase_2();
    lemma_response_variant_phrase_1();
    lemma_names(method.args@);
    lemma_client_sync_method_phrase_3();
    let t0 = vis_prefix(svc.vis@);
    lemma_tokens_add(t0, "fn "@);
    let t1 = t0 + "fn "@;
    lemma_read_name(t1, method.sig.ident@);
    let t2 = t1 + method.sig.ident@;
    lemma_tokens_add(t2, " "@);
    let t3 = t2 + " "@;
    lemma_tokens_add(t3, client_params_text(svc, method));
    let t4 = t3 + client_params_text(svc, method);
    lemma_tokens_add(t4, " -> < T :: Error as :: myelin :: TransportResult < "@);
    let t5 = t4 + " -> < T :: Error as :: myelin :: TransportResult < "@;
    lemma_tokens_add(t5, return_type_text(method.ret));
    let t6 = t5 + return_type_text(method.ret);
    lemma_tokens_add(t6, " >> :: Output where T :: Error : :: myelin :: TransportResult < "@);
    let t7 = t6 + " >> :: Output where T :: Error : :: myelin :: TransportResult < "@;
    lemma_tokens_add(t7, return_type_text(method.ret));
    let t8 = t7 + return_type_text(method.ret);
    lemma_tokens_add(t8, " > , { self . block_on . block_on (self . inner . "@);
    let t9 = t8 + " > , { self . block_on . block_on (self . inner . "@;
    lemma_read_name(t9, method.sig.ident@);
    let t10 = t9 + method.sig.ident@;
    lemma_tokens_add(t10, " ("@);
    let t11 = t10 + " ("@;
    lemma_tokens_add(t11, crate::text::join(argument_names(method.args@), " , "@));
    let t12 = t11 + crate::text::join(argument_names(method.args@), " , "@);
    lemma_tokens_add(t12, ")) } "@);
    let t13 = t12 + ")) } "@;
}

#[verifier::rlimit(60)]
pub(crate) proof fn lemma_dispatch_arm(svc: ServiceTrait, method: ServiceMethod, awaited: bool)
    requires
        named(svc),
        named_function(method),
    ensures
        tokens(dispatch_arm_text(svc, method, awaited)) == if method.ret is Unit {
            request_tokens(svc, method)
            + seq!["=>"@, "{"@, "svc"@, "."@]
            + seq![method.sig.ident@]
            + seq!["("@]
            + passed(method.args@)
            + seq![")"@]
            + awaiting(awaited)
            + seq![";"@]
            + seq![svc.stem@ + "Response"@]
            + seq!["::"@]
            + seq![method.variant_ident@]
            + seq!["}"@, ","@]
        } else {
            request_tokens(svc, method)
            + seq!["=>"@]
            + seq![svc.stem@ + "Response"@]
            + seq!["::"@]
            + seq![method.variant_ident@]
            + seq!["("@, "svc"@, "."@]
            + seq![method.sig.ident@]
            + seq!["("@]
            + passed(method.args@)
            + seq![")"@]
            + awaiting(awaited)
            + seq![")"@, ","@]
        },
        dispatch_arm_text(svc, method, awaited).len() > 0,
        is_break(dispatch_arm_text(svc, method, awaited).last()),
{
    if method.ret is Unit {
        lemma_request_ctor(svc, method);
        lemma_dispatch_arm_phrase_1();
        lemma_response_variant_phrase_1();
        lemma_names(method.args@);
        lemma_client_params_phrase_3();
        lemma_await_suffix(awaited);
        lemma_dispatch_arm_phrase_2();
        assert("Response :: "@ =~= "Response"@ + " :: "@) by {
            reveal_strlit("Response :: ");
            reveal_strlit("Response");
            reveal_strlit(" :: ");
        }
        reveal_strlit("Response");
        lemma_request_ctor_phrase_1();
        lemma_request_variant_phrase_3();
        let t0 = request_ctor_text(svc, method);
        lemma_tokens_add(t0, " => { svc . "@);
        let t1 = t0 + " => { svc . "@;
        lemma_read_name(t1, method.sig.ident@);
        let t2 = t1 + method.sig.ident@;
        lemma_tokens_add(t2, " ("@);
        let t3 = t2 + " ("@;
        lemma_tokens_add(t3, crate::text::join(argument_names(method.args@), " , "@));
        let t4 = t3 + crate::text::join(argument_names(method.args@), " , "@);
        lemma_tokens_add(t4, ")"@);
        let t5 = t4 + ")"@;
        lemma_tokens_add(t5, await_suffix_text(awaited));
        let t6 = t5 + await_suffix_text(awaited);
        lemma_tokens_add(t6, " ; "@);
        let t7 = t6 + " ; "@;
        lemma_read_joined(t7, svc.stem@, "Response :: "@, "Response"@, " :: "@);
        let t8 = t7 + svc.stem@ + "Response :: "@;
        lemma_read_name(t8, method.variant_ident@);
        let t9 = t8 + method.variant_ident@;
        lemma_tokens_add(t9, " } , "@);
        let t10 = t9 + " } , "@;
    } else {
        lemma_request_ctor(svc, method);
        lemma_dispatch_arm_phrase_3();
        assert("Response :: "@ =~= "Response"@ + " :: "@) by {
            reveal_strlit("Response :: ");
            reveal_strlit("Response");
            reveal_strlit(" :: ");
        }
        reveal_strlit("Response");
        lemma_request_ctor_phrase_1();
        lemma_dispatch_arm_phrase_4();
        lemma_response_variant_phrase_1();
        lemma_names(method.args@);
        lemma_client_params_phrase_3();
        lemma_await_suffix(awaited);
        lemma_response_variant_phrase_2();
        let t0 = request_ctor_text(svc, method);
        lemma_tokens_add(t0, " => "@);
        let t1 = t0 + " => "@;
        lemma_read_joined(t1, svc.stem@, "Response :: "@, "Response"@, " :: "@);
        let t2 = t1 + svc.stem@ + "Response :: "@;
        lemma_read_name(t2, method.variant_ident@);
        let t3 = t2 + method.variant_ident@;
        lemma_tokens_add(t3, " (svc . "@);
        let t4 = t3 + " (svc . "@;
        lemma_read_name(t4, method.sig.ident@);
        let t5 = t4 + method.sig.ident@;
        lemma_tokens_add(t5, " ("@);
        let t6 = t5 + " ("@;
        lemma_tokens_add(t6, crate::text::join(argument_names(method.args@), " , "@));
        let t7 = t6 + crate::text::join(argument_names(method.args@), " , "@);
        lemma_tokens_add(t7, ")"@);
        let t8 = t7 + ")"@;
        lemma_tokens_add(t8, await_suffix_text(awaited));
        let t9 = t8 + await_suffix_text(awaited);
        lemma_tokens_add(t9, ") , "@);
        let t10 = t9 + ") , "@;
    }
}

#[verifier::rlimit(60)]
pub(crate) proof fn lemma_sync_method(svc: ServiceTrait, method: ServiceMethod)
    requires
        named(svc),
        named_function(method),
    ensures
        tokens(sync_method_text(svc, method)) == attributes(method.sig.attrs@, false)
        + seq!["fn"@]
        + seq![method.sig.ident@]
        + seq!["("@]
        + tokens(method.sig.params@)
        + seq![")"@]
        + returning(output_of(method.ret))
        + seq![";"@],
        sync_method_text(svc, method).len() > 0,
        is_break(sync_method_text(svc, method).last()),
{
    lemma_attrs(method.sig.attrs@, false);
    lemma_client_sync_method_phrase_1();
    lemma_response_variant_phrase_1();
    lemma_client_params_phrase_3();
    lemma_arrow(method.ret);
    lemma_dispatch_arm_phrase_2();
    let t0 = attrs_text(method.sig.attrs@, false);
    lemma_tokens_add(t0, "fn "@);
    let t1 = t0 + "fn "@;
    lemma_read_name(t1, method.sig.ident@);
    let t2 = t1 + method.sig.ident@;
    lemma_tokens_add(t2, " ("@);
    let t3 = t2 + " ("@;
    lemma_tokens_add(t3, method.sig.params@);
    let t4 = t3 + method.sig.params@;
    lemma_tokens_add(t4, ")"@);
    let t5 = t4 + ")"@;
    lemma_tokens_add(t5, arrow_output_text(method.ret));
    let t6 = t5 + arrow_output_text(method.ret);
    lemma_tokens_add(t6, " ; "@);
    let t7 = t6 + " ; "@;
}


proof fn lemma_part_ends(part: Part, svc: ServiceTrait, method: ServiceMethod)
    requires
        named(svc),
        named_function(method),
    ensures
        part_text(part, svc, method).len() > 0,
        is_break(part_text(part, svc, method).last()),
{
    match part {
        Part::RequestVariant => lemma_request_variant(svc, method),
        Part::ResponseVariant => lemma_response_variant(svc, method),
        Part::Client => lemma_client_method(svc, method),
        Part::ClientSync => lemma_client_sync_method(svc, method),
        Part::Dispatch => lemma_dispatch_arm(svc, method, method.is_async),
        Part::DispatchSync => lemma_dispatch_arm(svc, method, false),
        Part::SyncTrait => lemma_sync_method(svc, method),
    }
}

proof fn lemma_parts_upto(part: Part, svc: ServiceTrait, n: nat)
    requires
        named(svc),
        n <= svc.methods@.len(),
    ensures
        ({
            let list = Seq::new(
                svc.methods@.len(),
                |i: int| part_text(part, svc, svc.methods@[i]),
            );
            let text = crate::text::concat(list.take(n as int));
            &&& tokens(text) == in_order(part, svc, n)
            &&& text.len() > 0 ==> is_break(text.last())
        }),
    decreases n,
{
    let list = Seq::new(svc.methods@.len(), |i: int| part_text(part, svc, svc.methods@[i]));
    let text = crate::text::concat(list.take(n as int));
    if n == 0 {
        assert(tokens(text) =~= Seq::empty());
    } else {
        lemma_parts_upto(part, svc, (n - 1) as nat);
        lemma_part_ends(part, svc, svc.methods@[n - 1]);
        assert(list.take(n as int).drop_last() =~= list.take(n - 1));
        lemma_tokens_add(
            crate::text::concat(list.take(n - 1)),
            part_text(part, svc, svc.methods@[n - 1]),
        );
    }
}

pub(crate) proof fn lemma_parts(part: Part, svc: ServiceTrait)
    requires
        named(svc),
    ensures
        tokens(parts_text(part, svc)) == in_order(part, svc, svc.methods@.len()),
        parts_text(part, svc).len() > 0 ==> is_break(parts_text(part, svc).last()),
{
    let list = Seq::new(svc.methods@.len(), |i: int| part_text(part, svc, svc.methods@[i]));
    lemma_parts_upto(part, svc, svc.methods@.len());
    assert(list.take(svc.methods@.len() as int) =~= list);
}


#[verifier::rlimit(60)]
pub(crate) proof fn lemma_request_enum(svc: ServiceTrait)
    requires
        named(svc),
    ensures
        tokens(request_enum_text(svc)) == seq![
            "#"@, "["@, "derive"@, "("@, "Debug"@, ")"@, "]"@, "#"@, "["@, "cfg_attr"@,
            "("@, "feature"@, "="@, "\"serde\""@, ","@, "derive"@, "("@, "serde"@, "::"@,
            "Serialize"@, ","@, "serde"@, "::"@, "Deserialize"@, ")"@, ")"@, "]"@,
        ]
        + tokens(svc.vis@)
        + seq!["enum"@]
        + seq![svc.stem@ + "Request"@]
        + seq!["{"@]
        + in_order(Part::RequestVariant, svc, svc.methods@.len())
        + seq!["}"@],
        request_enum_text(svc).len() > 0,
{
    lemma_request_enum_phrase_1();
    lemma_vis(svc.vis@);
    lemma_request_enum_phrase_5();
    assert("Request { "@ =~= "Request"@ + " { "@) by {
        reveal_strlit("Request { ");
        reveal_strlit("Request");
        reveal_strlit(" { ");
    }
    reveal_strlit("Request");
    lemma_request_variant_phrase_2();
    lemma_parts(Part::RequestVariant, svc);
    lemma_request_enum_phrase_6();
    let t0 = "# [derive (Debug)] # [cfg_attr (feature = \"serde\" , derive (serde :: Serialize , serde :: Deserialize))] "@;
    lemma_tokens_add(t0, vis_prefix(svc.vis@));
    let t1 = t0 + vis_prefix(svc.vis@);
    lemma_tokens_add(t1, "enum "@);
    let t2 = t1 + "enum "@;
    lemma_read_joined(t2, svc.stem@, "Request { "@, "Request"@, " { "@);
    let t3 = t2 + svc.stem@ + "Request { "@;
    lemma_tokens_add(t3, parts_text(Part::RequestVariant, svc));
    let t4 = t3 + parts_text(Part::RequestVariant, svc);
    lemma_tokens_add(t4, "}"@);
    let t5 = t4 + "}"@;
}

#[verifier::rlimit(60)]
pub(crate) proof fn lemma_response_enum(svc: ServiceTrait)
    requires
        named(svc),
    ensures
        tokens(response_enum_text(svc)) == seq![
            "#"@, "["@, "derive"@, "("@, "Debug"@, ")"@, "]"@, "#"@, "["@, "cfg_attr"@,
            "("@, "feature"@, "="@, "\"serde\""@, ","@, "derive"@, "("@, "serde"@, "::"@,
            "Serialize"@, ","@, "serde"@, "::"@, "Deserialize"@, ")"@, ")"@, "]"@,
        ]
        + tokens(svc.vis@)
        + seq!["enum"@]
        + seq![svc.stem@ + "Response"@]
        + seq!["{"@]
        + in_order(Part::ResponseVariant, svc, svc.methods@.len())
        + seq!["}"@],
        response_enum_text(svc).len() > 0,
{
    lemma_request_enum_phrase_1();
    lemma_vis(svc.vis@);
    lemma_request_enum_phrase_5();
    assert("Response { "@ =~= "Response"@ + " { "@) by {
        reveal_strlit("Response { ");
        reveal_strlit("Response");
        reveal_strlit(" { ");
    }
    reveal_strlit("Response");
    lemma_request_variant_phrase_2();
    lemma_parts(Part::ResponseVariant, svc);
    lemma_request_enum_phrase_6();
    let t0 = "# [derive (Debug)] # [cfg_attr (feature = \"serde\" , derive (serde :: Serialize , serde :: Deserialize))] "@;
    lemma_tokens_add(t0, vis_prefix(svc.vis@));
    let t1 = t0 + vis_prefix(svc.vis@);
    lemma_tokens_add(t1, "enum "@);
    let t2 = t1 + "enum "@;
    lemma_read_joined(t2, svc.stem@, "Response { "@, "Response"@, " { "@);
    let t3 = t2 + svc.stem@ + "Response { "@;
    lemma_tokens_add(t3, parts_text(Part::ResponseVariant, svc));
    let t4 = t3 + parts_text(Part::ResponseVariant, svc);
    lemma_tokens_add(t4, "}"@);
    let t5 = t4 + "}"@;
}

#[verifier::rlimit(60)]
pub(crate) proof fn lemma_sync_trait(svc: ServiceTrait)
    requires
        named(svc),
    ensures
        tokens(sync_trait_text(svc)) == attributes(svc.item.attrs@, false)
        + tokens(svc.vis@)
        + seq!["trait"@]
        + seq![svc.stem@ + "ServiceSync"@]
        + seq!["{"@]
        + attributes(svc.item.attrs@, true)
        + in_order(Part::SyncTrait, svc, svc.methods@.len())
        + seq!["}"@],
        sync_trait_text(svc).len() > 0,
{
    lemma_attrs(svc.item.attrs@, false);
    lemma_vis(svc.vis@);
    lemma_sync_trait_phrase_1();
    assert("ServiceSync { "@ =~= "ServiceSync"@ + " { "@) by {
        reveal_strlit("ServiceSync { ");
        reveal_strlit("ServiceSync");
        reveal_strlit(" { ");
    }
    reveal_strlit("ServiceSync");
    lemma_request_variant_phrase_2();
    lemma_attrs(svc.item.attrs@, true);
    lemma_parts(Part::SyncTrait, svc);
    lemma_request_enum_phrase_6();
    let t0 = attrs_text(svc.item.attrs@, false);
    lemma_tokens_add(t0, vis_prefix(svc.vis@));
    let t1 = t0 + vis_prefix(svc.vis@);
    lemma_tokens_add(t1, "trait "@);
    let t2 = t1 + "trait "@;
    lemma_read_joined(t2, svc.stem@, "ServiceSync { "@, "ServiceSync"@, " { "@);
    let t3 = t2 + svc.stem@ + "ServiceSync { "@;
    lemma_tokens_add(t3, attrs_text(svc.item.attrs@, true));
    let t4 = t3 + attrs_text(svc.item.attrs@, true);
    lemma_tokens_add(t4, parts_text(Part::SyncTrait, svc));
    let t5 = t4 + parts_text(Part::SyncTrait, svc);
    lemma_tokens_add(t5, "}"@);
    let t6 = t5 + "}"@;
}

#[verifier::rlimit(60)]
pub(crate) proof fn lemma_client_struct(svc: ServiceTrait)
    requires
        named(svc),
    ensures
        tokens(client_struct_text(svc)) == tokens(svc.vis@)
        + seq!["struct"@]
        + seq![svc.stem@ + "Client"@]
        + seq![
            "<"@, "T"@, ">"@, "{"@, "transport"@, ":"@, "T"@, ","@, "}"@, "impl"@, "<"@,
            "T"@, ">"@,
        ]
        + seq![svc.stem@ + "Client"@]
        + seq![
            "<"@, "T"@, ">"@, "where"@, "T"@, ":"@, "::"@, "myelin"@, "::"@,
            "ClientTransport"@, "<"@,
        ]
        + seq![svc.stem@ + "Request"@]
        + seq![","@]
        + seq![svc.stem@ + "Response"@]
        + seq![">"@, ","@, "{"@]
        + tokens(svc.vis@)
        + seq![
            "fn"@, "new"@, "("@, "transport"@, ":"@, "T"@, ")"@, "->"@, "Self"@, "{"@,
            "Self"@, "{"@, "transport"@, "}"@, "}"@,
        ]
        + in_order(Part::Client, svc, svc.methods@.len())
        + seq!["}"@],
        client_struct_text(svc).len() > 0,
{
    lemma_vis(svc.vis@);
    lemma_client_struct_phrase_1();
    assert("Client < T > { transport : T , } impl < T > "@ =~= "Client"@ + " < T > { transport : T , } impl < T > "@) by {
        reveal_strlit("Client < T > { transport : T , } impl < T > ");
        reveal_strlit("Client");
        reveal_strlit(" < T > { transport : T , } impl < T > ");
    }
    reveal_strlit("Client");
    lemma_client_struct_phrase_2();
    assert("Client < T > where T : :: myelin :: ClientTransport < "@ =~= "Client"@ + " < T > where T : :: myelin :: ClientTransport < "@) by {
        reveal_strlit("Client < T > where T : :: myelin :: ClientTransport < ");
        reveal_strlit("Client");
        reveal_strlit(" < T > where T : :: myelin :: ClientTransport < ");
    }
    lemma_client_struct_phrase_3();
    assert("Request , "@ =~= "Request"@ + " , "@) by {
        reveal_strlit("Request , ");
        reveal_strlit("Request");
        reveal_strlit(" , ");
    }
    reveal_strlit("Request");
    lemma_request_variant_phrase_1();
    assert("Response > , { "@ =~= "Response"@ + " > , { "@) by {
        reveal_strlit("Response > , { ");
        reveal_strlit("Response");
        reveal_strlit(" > , { ");
    }
    reveal_strlit("Response");
    lemma_client_struct_phrase_4();
    lemma_client_struct_phrase_5();
    lemma_parts(Part::Client, svc);
    lemma_request_enum_phrase_6();
    let t0 = vis_prefix(svc.vis@);
    lemma_tokens_add(t0, "struct "@);
    let t1 = t0 + "struct "@;
    lemma_read_joined(t1, svc.stem@, "Client < T > { transport : T , } impl < T > "@, "Client"@, " < T > { transport : T , } impl < T > "@);
    let t2 = t1 + svc.stem@ + "Client < T > { transport : T , } impl < T > "@;
    lemma_read_joined(t2, svc.stem@, "Client < T > where T : :: myelin :: ClientTransport < "@, "Client"@, " < T > where T : :: myelin :: ClientTransport < "@);
    let t3 = t2 + svc.stem@ + "Client < T > where T : :: myelin :: ClientTransport < "@;
    lemma_read_joined(t3, svc.stem@, "Request , "@, "Request"@, " , "@);
    let t4 = t3 + svc.stem@ + "Request , "@;
    lemma_read_joined(t4, svc.stem@, "Response > , { "@, "Response"@, " > , { "@);
    let t5 = t4 + svc.stem@ + "Response > , { "@;
    lemma_tokens_add(t5, vis_prefix(svc.vis@));
    let t6 = t5 + vis_prefix(svc.vis@);
    lemma_tokens_add(t6, "fn new (transport : T) -> Self { Self { transport } } "@);
    let t7 = t6 + "fn new (transport : T) -> Self { Self { transport } } "@;
    lemma_tokens_add(t7, parts_text(Part::Client, svc));
    let t8 = t7 + parts_text(Part::Client, svc);
    lemma_tokens_add(t8, "}"@);
    let t9 = t8 + "}"@;
}

#[verifier::rlimit(60)]
pub(crate) proof fn lemma_client_sync_struct(svc: ServiceTrait)
    requires
        named(svc),
    ensures
        tokens(client_sync_struct_text(svc)) == tokens(svc.vis@)
        + seq!["struct"@]
        + seq![svc.stem@ + "ClientSync"@]
        + seq!["<"@, "T"@, ","@, "B"@, ">"@, "{"@, "inner"@, ":"@]
        + seq![svc.stem@ + "Client"@]
        + seq![
            "<"@, "T"@, ">"@, ","@, "block_on"@, ":"@, "B"@, ","@, "}"@, "impl"@, "<"@,
            "T"@, ","@, "B"@, ">"@,
        ]
        + seq![svc.stem@ + "ClientSync"@]
        + seq![
            "<"@, "T"@, ","@, "B"@, ">"@, "where"@, "T"@, ":"@, "::"@, "myelin"@, "::"@,
            "ClientTransport"@, "<"@,
        ]
        + seq![svc.stem@ + "Request"@]
        + seq![","@]
        + seq![svc.stem@ + "Response"@]
        + seq![
            ">"@, ","@, "B"@, ":"@, "::"@, "myelin"@, "::"@, "BlockOn"@, ","@, "{"@,
        ]
        + tokens(svc.vis@)
        + seq!["fn"@, "new"@, "("@, "inner"@, ":"@]
        + seq![svc.stem@ + "Client"@]
        + seq![
            "<"@, "T"@, ">"@, ","@, "block_on"@, ":"@, "B"@, ")"@, "->"@, "Self"@, "{"@,
            "Self"@, "{"@, "inner"@, ","@, "block_on"@, "}"@, "}"@,
        ]
        + in_order(Part::ClientSync, svc, svc.methods@.len())
        + seq!["}"@],
        client_sync_struct_text(svc).len() > 0,
{
    lemma_vis(svc.vis@);
    lemma_client_struct_phrase_1();
    assert("ClientSync < T , B > { inner : "@ =~= "ClientSync"@ + " < T , B > { inner : "@) by {
        reveal_strlit("ClientSync < T , B > { inner : ");
        reveal_strlit("ClientSync");
        reveal_strlit(" < T , B > { inner : ");
    }
    reveal_strlit("ClientSync");
    lemma_client_sync_struct_phrase_1();
    assert("Client < T > , block_on : B , } impl < T , B > "@ =~= "Client"@ + " < T > , block_on : B , } impl < T , B > "@) by {
        reveal_strlit("Client < T > , block_on : B , } impl < T , B > ");
        reveal_strlit("Client");
        reveal_strlit(" < T > , block_on : B , } impl < T , B > ");
    }
    reveal_strlit("Client");
    lemma_client_sync_struct_phrase_2();
    assert("ClientSync < T , B > where T : :: myelin :: ClientTransport < "@ =~= "ClientSync"@ + " < T , B > where T : :: myelin :: ClientTransport < "@) by {
        reveal_strlit("ClientSync < T , B > where T : :: myelin :: ClientTransport < ");
        reveal_strlit("ClientSync");
        reveal_strlit(" < T , B > where T : :: myelin :: ClientTransport < ");
    }
    lemma_client_sync_struct_phrase_3();
    assert("Request , "@ =~= "Request"@ + " , "@) by {
        reveal_strlit("Request , ");
        reveal_strlit("Request");
        reveal_strlit(" , ");
    }
    reveal_strlit("Request");
    lemma_request_variant_phrase_1();
    assert("Response > , B : :: myelin :: BlockOn , { "@ =~= "Response"@ + " > , B : :: myelin :: BlockOn , { "@) by {
        reveal_strlit("Response > , B : :: myelin :: BlockOn , { ");
        reveal_strlit("Response");
        reveal_strlit(" > , B : :: myelin :: BlockOn , { ");
    }
    reveal_strlit("Response");
    lemma_client_sync_struct_phrase_4();
    lemma_client_sync_struct_phrase_5();
    assert("Client < T > , block_on : B) -> Self { Self { inner , block_on } } "@ =~= "Client"@ + " < T > , block_on : B) -> Self { Self { inner , block_on } } "@) by {
        reveal_strlit("Client < T > , block_on : B) -> Self { Self { inner , block_on } } ");
        reveal_strlit("Client");
        reveal_strlit(" < T > , block_on : B) -> Self { Self { inner , block_on } } ");
    }
    lemma_client_sync_struct_phrase_6();
    lemma_parts(Part::ClientSync, svc);
    lemma_request_enum_phrase_6();
    let t0 = vis_prefix(svc.vis@);
    lemma_tokens_add(t0, "struct "@);
    let t1 = t0 + "struct "@;
    lemma_read_joined(t1, svc.stem@, "ClientSync < T , B > { inner : "@, "ClientSync"@, " < T , B > { inner : "@);
    let t2 = t1 + svc.stem@ + "ClientSync < T , B > { inner : "@;
    lemma_read_joined(t2, svc.stem@, "Client < T > , block_on : B , } impl < T , B > "@, "Client"@, " < T > , block_on : B , } impl < T , B > "@);
    let t3 = t2 + svc.stem@ + "Client < T > , block_on : B , } impl < T , B > "@;
    lemma_read_joined(t3, svc.stem@, "ClientSync < T , B > where T : :: myelin :: ClientTransport < "@, "ClientSync"@, " < T , B > where T : :: myelin :: ClientTransport < "@);
    let t4 = t3 + svc.stem@ + "ClientSync < T , B > where T : :: myelin :: ClientTransport < "@;
    lemma_read_joined(t4, svc.stem@, "Request , "@, "Request"@, " , "@);
    let t5 = t4 + svc.stem@ + "Request , "@;
    lemma_read_joined(t5, svc.stem@, "Response > , B : :: myelin :: BlockOn , { "@, "Response"@, " > , B : :: myelin :: BlockOn , { "@);
    let t6 = t5 + svc.stem@ + "Response > , B : :: myelin :: BlockOn , { "@;
    lemma_tokens_add(t6, vis_prefix(svc.vis@));
    let t7 = t6 + vis_prefix(svc.vis@);
    lemma_tokens_add(t7, "fn new (inner : "@);
    let t8 = t7 + "fn new (inner : "@;
    lemma_read_joined(t8, svc.stem@, "Client < T > , block_on : B) -> Self { Self { inner , block_on } } "@, "Client"@, " < T > , block_on : B) -> Self { Self { inner , block_on } } "@);
    let t9 = t8 + svc.stem@ + "Client < T > , block_on : B) -> Self { Self { inner , block_on } } "@;
    lemma_tokens_add(t9, parts_text(Part::ClientSync, svc));
    let t10 = t9 + parts_text(Part::ClientSync, svc);
    lemma_tokens_add(t10, "}"@);
    let t11 = t10 + "}"@;
}

#[verifier::rlimit(60)]
pub(crate) proof fn lemma_dispatch_fn(svc: ServiceTrait)
    requires
        named(svc),
    ensures
        tokens(dispatch_fn_text(svc)) == tokens(svc.vis@)
        + seq!["async"@, "fn"@]
        + seq![
            crate::codegen::casing::cased(svc.stem@, WordCase::Snake) + "_dispatch"@,
        ]
        + seq!["<"@, "S"@, ":"@]
        + seq![svc.item.ident@]
        + seq![">"@, "("@, "svc"@, ":"@, "&"@, "S"@, ","@, "req"@, ":"@]
        + seq![svc.stem@ + "Request"@]
        + seq![")"@, "->"@]
        + seq![svc.stem@ + "Response"@]
        + seq!["{"@, "match"@, "req"@, "{"@]
        + in_order(Part::Dispatch, svc, svc.methods@.len())
        + seq!["}"@, "}"@],
        dispatch_fn_text(svc).len() > 0,
{
    lemma_vis(svc.vis@);
    lemma_client_method_phrase_1();
    assert("_dispatch < S : "@ =~= "_dispatch"@ + " < S : "@) by {
        reveal_strlit("_dispatch < S : ");
        reveal_strlit("_dispatch");
        reveal_strlit(" < S : ");
    }
    reveal_strlit("_dispatch");
    lemma_dispatch_fn_phrase_1();
    lemma_dispatch_fn_phrase_2();
    assert("Request) -> "@ =~= "Request"@ + ") -> "@) by {
        reveal_strlit("Request) -> ");
        reveal_strlit("Request");
        reveal_strlit(") -> ");
    }
    reveal_strlit("Request");
    lemma_dispatch_fn_phrase_3();
    assert("Response { match req { "@ =~= "Response"@ + " { match req { "@) by {
        reveal_strlit("Response { match req { ");
        reveal_strlit("Response");
        reveal_strlit(" { match req { ");
    }
    reveal_strlit("Response");
    lemma_dispatch_fn_phrase_4();
    lemma_parts(Part::Dispatch, svc);
    lemma_dispatch_fn_phrase_5();
    let t0 = vis_prefix(svc.vis@);
    lemma_tokens_add(t0, "async fn "@);
    let t1 = t0 + "async fn "@;
    lemma_read_joined(t1, crate::codegen::casing::cased(svc.stem@, WordCase::Snake), "_dispatch < S : "@, "_dispatch"@, " < S : "@);
    let t2 = t1 + crate::codegen::casing::cased(svc.stem@, WordCase::Snake) + "_dispatch < S : "@;
    lemma_read_name(t2, svc.item.ident@);
    let t3 = t2 + svc.item.ident@;
    lemma_tokens_add(t3, " > (svc : & S , req : "@);
    let t4 = t3 + " > (svc : & S , req : "@;
    lemma_read_joined(t4, svc.stem@, "Request) -> "@, "Request"@, ") -> "@);
    let t5 = t4 + svc.stem@ + "Request) -> "@;
    lemma_read_joined(t5, svc.stem@, "Response { match req { "@, "Response"@, " { match req { "@);
    let t6 = t5 + svc.stem@ + "Response { match req { "@;
    lemma_tokens_add(t6, parts_text(Part::Dispatch, svc));
    let t7 = t6 + parts_text(Part::Dispatch, svc);
    lemma_tokens_add(t7, "} }"@);
    let t8 = t7 + "} }"@;
}

#[verifier::rlimit(60)]
pub(crate) proof fn lemma_dispatch_sync_fn(svc: ServiceTrait)
    requires
        named(svc),
    ensures
        tokens(dispatch_sync_fn_text(svc)) == tokens(svc.vis@)
        + seq!["fn"@]
        + seq![
            crate::codegen::casing::cased(svc.stem@, WordCase::Snake) + "_dispatch_sync"@,
        ]
        + seq!["<"@, "S"@, ":"@]
        + seq![svc.stem@ + "ServiceSync"@]
        + seq![">"@, "("@, "svc"@, ":"@, "&"@, "S"@, ","@, "req"@, ":"@]
        + seq![svc.stem@ + "Request"@]
        + seq![")"@, "->"@]
        + seq![svc.stem@ + "Response"@]
        + seq!["{"@, "match"@, "req"@, "{"@]
        + in_order(Part::DispatchSync, svc, svc.methods@.len())
        + seq!["}"@, "}"@],
        dispatch_sync_fn_text(svc).len() > 0,
{
    lemma_vis(svc.vis@);
    lemma_client_sync_method_phrase_1();
    assert("_dispatch_sync < S : "@ =~= "_dispatch_sync"@ + " < S : "@) by {
        reveal_strlit("_dispatch_sync < S : ");
        reveal_strlit("_dispatch_sync");
        reveal_strlit(" < S : ");
    }
    reveal_strlit("_dispatch_sync");
    lemma_dispatch_fn_phrase_1();
    assert("ServiceSync > (svc : & S , req : "@ =~= "ServiceSync"@ + " > (svc : & S , req : "@) by {
        reveal_strlit("ServiceSync > (svc : & S , req : ");
        reveal_strlit("ServiceSync");
        reveal_strlit(" > (svc : & S , req : ");
    }
    reveal_strlit("ServiceSync");
    lemma_dispatch_fn_phrase_2();
    assert("Request) -> "@ =~= "Request"@ + ") -> "@) by {
        reveal_strlit("Request) -> ");
        reveal_strlit("Request");
        reveal_strlit(") -> ");
    }
    reveal_strlit("Request");
    lemma_dispatch_fn_phrase_3();
    assert("Response { match req { "@ =~= "Response"@ + " { match req { "@) by {
        reveal_strlit("Response { match req { ");
        reveal_strlit("Response");
        reveal_strlit(" { match req { ");
    }
    reveal_strlit("Response");
    lemma_dispatch_fn_phrase_4();
    lemma_parts(Part::DispatchSync, svc);
    lemma_dispatch_fn_phrase_5();
    let t0 = vis_prefix(svc.vis@);
    lemma_tokens_add(t0, "fn "@);
    let t1 = t0 + "fn "@;
    lemma_read_joined(t1, crate::codegen::casing::cased(svc.stem@, WordCase::Snake), "_dispatch_sync < S : "@, "_dispatch_sync"@, " < S : "@);
    let t2 = t1 + crate::codegen::casing::cased(svc.stem@, WordCase::Snake) + "_dispatch_sync < S : "@;
    lemma_read_joined(t2, svc.stem@, "ServiceSync > (svc : & S , req : "@, "ServiceSync"@, " > (svc : & S , req : "@);
    let t3 = t2 + svc.stem@ + "ServiceSync > (svc : & S , req : "@;
    lemma_read_joined(t3, svc.stem@, "Request) -> "@, "Request"@, ") -> "@);
    let t4 = t3 + svc.stem@ + "Request) -> "@;
    lemma_read_joined(t4, svc.stem@, "Response { match req { "@, "Response"@, " { match req { "@);
    let t5 = t4 + svc.stem@ + "Response { match req { "@;
    lemma_tokens_add(t5, parts_text(Part::DispatchSync, svc));
    let t6 = t5 + parts_text(Part::DispatchSync, svc);
    lemma_tokens_add(t6, "} }"@);
    let t7 = t6 + "} }"@;
}

#[verifier::rlimit(60)]
pub(crate) proof fn lemma_serve_fn(svc: ServiceTrait)
    requires
        named(svc),
    ensures
        tokens(serve_fn_text(svc)) == tokens(svc.vis@)
        + seq!["async"@, "fn"@]
        + seq![
            crate::codegen::casing::cased(svc.stem@, WordCase::Snake) + "_serve"@,
        ]
        + seq![
            "<"@, "S"@, ","@, "T"@, ">"@, "("@, "svc"@, ":"@, "&"@, "S"@, ","@,
            "transport"@, ":"@, "&"@, "mut"@, "T"@, ")"@, "->"@, "::"@, "core"@, "::"@,
            "result"@, "::"@, "Result"@, "<"@, "("@, ")"@, ","@, "T"@, "::"@, "Error"@,
            ">"@, "where"@, "S"@, ":"@,
        ]
        + seq![svc.item.ident@]
        + seq![
            ","@, "T"@, ":"@, "::"@, "myelin"@, "::"@, "ServerTransport"@, "<"@,
        ]
        + seq![svc.stem@ + "Request"@]
        + seq![","@]
        + seq![svc.stem@ + "Response"@]
        + seq![
            ">"@, ","@, "{"@, "loop"@, "{"@, "let"@, "("@, "req"@, ","@, "token"@, ")"@,
            "="@, "transport"@, "."@, "recv"@, "("@, ")"@, "."@, "await"@, "?"@, ";"@,
            "let"@, "resp"@, "="@,
        ]
        + seq![
            crate::codegen::casing::cased(svc.stem@, WordCase::Snake) + "_dispatch"@,
        ]
        + seq![
            "("@, "svc"@, ","@, "req"@, ")"@, "."@, "await"@, ";"@, "let"@, "_"@, "="@,
            "transport"@, "."@, "reply"@, "("@, "token"@, ","@, "resp"@, ")"@, "."@,
            "await"@, ";"@, "}"@, "}"@,
        ],
        serve_fn_text(svc).len() > 0,
{
    lemma_vis(svc.vis@);
    lemma_client_method_phrase_1();
    assert("_serve < S , T > (svc : & S , transport : & mut T) -> :: core :: result :: Result < () , T :: Error > where S : "@ =~= "_serve"@ + " < S , T > (svc : & S , transport : & mut T) -> :: core :: result :: Result < () , T :: Error > where S : "@) by {
        reveal_strlit("_serve < S , T > (svc : & S , transport : & mut T) -> :: core :: result :: Result < () , T :: Error > where S : ");
        reveal_strlit("_serve");
        reveal_strlit(" < S , T > (svc : & S , transport : & mut T) -> :: core :: result :: Result < () , T :: Error > where S : ");
    }
    reveal_strlit("_serve");
    lemma_serve_fn_phrase_1();
    lemma_serve_fn_phrase_5();
    assert("Request , "@ =~= "Request"@ + " , "@) by {
        reveal_strlit("Request , ");
        reveal_strlit("Request");
        reveal_strlit(" , ");
    }
    reveal_strlit("Request");
    lemma_request_variant_phrase_1();
    assert("Response > , { loop { let (req , token) = transport . recv () . await ? ; let resp = "@ =~= "Response"@ + " > , { loop { let (req , token) = transport . recv () . await ? ; let resp = "@) by {
        reveal_strlit("Response > , { loop { let (req , token) = transport . recv () . await ? ; let resp = ");
        reveal_strlit("Response");
        reveal_strlit(" > , { loop { let (req , token) = transport . recv () . await ? ; let resp = ");
    }
    reveal_strlit("Response");
    lemma_serve_fn_phrase_6();
    assert("_dispatch (svc , req) . await ; let _ = transport . reply (token , resp) . await ; } }"@ =~= "_dispatch"@ + " (svc , req) . await ; let _ = transport . reply (token , resp) . await ; } }"@) by {
        reveal_strlit("_dispatch (svc , req) . await ; let _ = transport . reply (token , resp) . await ; } }");
        reveal_strlit("_dispatch");
        reveal_strlit(" (svc , req) . await ; let _ = transport . reply (token , resp) . await ; } }");
    }
    reveal_strlit("_dispatch");
    lemma_serve_fn_phrase_9();
    let t0 = vis_prefix(svc.vis@);
    lemma_tokens_add(t0, "async fn "@);
    let t1 = t0 + "async fn "@;
    lemma_read_joined(t1, crate::codegen::casing::cased(svc.stem@, WordCase::Snake), "_serve < S , T > (svc : & S , transport : & mut T) -> :: core :: result :: Result < () , T :: Error > where S : "@, "_serve"@, " < S , T > (svc : & S , transport : & mut T) -> :: core :: result :: Result < () , T :: Error > where S : "@);
    let t2 = t1 + crate::codegen::casing::cased(svc.stem@, WordCase::Snake) + "_serve < S , T > (svc : & S , transport : & mut T) -> :: core :: result :: Result < () , T :: Error > where S : "@;
    lemma_read_name(t2, svc.item.ident@);
    let t3 = t2 + svc.item.ident@;
    lemma_tokens_add(t3, " , T : :: myelin :: ServerTransport < "@);
    let t4 = t3 + " , T : :: myelin :: ServerTransport < "@;
    lemma_read_joined(t4, svc.stem@, "Request , "@, "Request"@, " , "@);
    let t5 = t4 + svc.stem@ + "Request , "@;
    lemma_read_joined(t5, svc.stem@, "Response > , { loop { let (req , token) = transport . recv () . await ? ; let resp = "@, "Response"@, " > , { loop { let (req , token) = transport . recv () . await ? ; let resp = "@);
    let t6 = t5 + svc.stem@ + "Response > , { loop { let (req , token) = transport . recv () . await ? ; let resp = "@;
    lemma_read_joined(t6, crate::codegen::casing::cased(svc.stem@, WordCase::Snake), "_dispatch (svc , req) . await ; let _ = transport . reply (token , resp) . await ; } }"@, "_dispatch"@, " (svc , req) . await ; let _ = transport . reply (token , resp) . await ; } }"@);
    let t7 = t6 + crate::codegen::casing::cased(svc.stem@, WordCase::Snake) + "_dispatch (svc , req) . await ; let _ = transport . reply (token , resp) . await ; } }"@;
}

#[verifier::rlimit(60)]
pub(crate) proof fn lemma_serve_sync_fn(svc: ServiceTrait)
    requires
        named(svc),
    ensures
        tokens(serve_sync_fn_text(svc)) == tokens(svc.vis@)
        + seq!["fn"@]
        + seq![
            crate::codegen::casing::cased(svc.stem@, WordCase::Snake) + "_serve_sync"@,
        ]
        + seq![
            "<"@, "S"@, ","@, "T"@, ","@, "B"@, ">"@, "("@, "svc"@, ":"@, "&"@, "S"@, ","@,
            "transport"@, ":"@, "&"@, "mut"@, "T"@, ","@, "block_on"@, ":"@, "&"@, "B"@,
            ","@, ")"@, "->"@, "::"@, "core"@, "::"@, "result"@, "::"@, "Result"@, "<"@,
            "("@, ")"@, ","@, "T"@, "::"@, "Error"@, ">"@, "where"@, "S"@, ":"@,
        ]
        + seq![svc.stem@ + "ServiceSync"@]
        + seq![
            ","@, "T"@, ":"@, "::"@, "myelin"@, "::"@, "ServerTransport"@, "<"@,
        ]
        + seq![svc.stem@ + "Request"@]
        + seq![","@]
        + seq![svc.stem@ + "Response"@]
        + seq![
            ">"@, ","@, "B"@, ":"@, "::"@, "myelin"@, "::"@, "BlockOn"@, ","@, "{"@,
            "loop"@, "{"@, "let"@, "("@, "req"@, ","@, "token"@, ")"@, "="@, "block_on"@,
            "."@, "block_on"@, "("@, "transport"@, "."@, "recv"@, "("@, ")"@, ")"@, "?"@,
            ";"@, "let"@, "resp"@, "="@,
        ]
        + seq![
            crate::codegen::casing::cased(svc.stem@, WordCase::Snake) + "_dispatch_sync"@,
        ]
        + seq![
            "("@, "svc"@, ","@, "req"@, ")"@, ";"@, "let"@, "_"@, "="@, "block_on"@, "."@,
            "block_on"@, "("@, "transport"@, "."@, "reply"@, "("@, "token"@, ","@, "resp"@,
            ")"@, ")"@, ";"@, "}"@, "}"@,
        ],
        serve_sync_fn_text(svc).len() > 0,
{
    lemma_vis(svc.vis@);
    lemma_client_sync_method_phrase_1();
    assert("_serve_sync < S , T , B > (svc : & S , transport : & mut T , block_on : & B ,) -> :: core :: result :: Result < () , T :: Error > where S : "@ =~= "_serve_sync"@ + " < S , T , B > (svc : & S , transport : & mut T , block_on : & B ,) -> :: core :: result :: Result < () , T :: Error > where S : "@) by {
        reveal_strlit("_serve_sync < S , T , B > (svc : & S , transport : & mut T , block_on : & B ,) -> :: core :: result :: Result < () , T :: Error > where S : ");
        reveal_strlit("_serve_sync");
        reveal_strlit(" < S , T , B > (svc : & S , transport : & mut T , block_on : & B ,) -> :: core :: result :: Result < () , T :: Error > where S : ");
    }
    reveal_strlit("_serve_sync");
    lemma_serve_sync_fn_phrase_1();
    assert("ServiceSync , T : :: myelin :: ServerTransport < "@ =~= "ServiceSync"@ + " , T : :: myelin :: ServerTransport < "@) by {
        reveal_strlit("ServiceSync , T : :: myelin :: ServerTransport < ");
        reveal_strlit("ServiceSync");
        reveal_strlit(" , T : :: myelin :: ServerTransport < ");
    }
    reveal_strlit("ServiceSync");
    lemma_serve_fn_phrase_5();
    assert("Request , "@ =~= "Request"@ + " , "@) by {
        reveal_strlit("Request , ");
        reveal_strlit("Request");
        reveal_strlit(" , ");
    }
    reveal_strlit("Request");
    lemma_request_variant_phrase_1();
    assert("Response > , B : :: myelin :: BlockOn , { loop { let (req , token) = block_on . block_on (transport . recv ()) ? ; let resp = "@ =~= "Response"@ + " > , B : :: myelin :: BlockOn , { loop { let (req , token) = block_on . block_on (transport . recv ()) ? ; let resp = "@) by {
        reveal_strlit("Response > , B : :: myelin :: BlockOn , { loop { let (req , token) = block_on . block_on (transport . recv ()) ? ; let resp = ");
        reveal_strlit("Response");
        reveal_strlit(" > , B : :: myelin :: BlockOn , { loop { let (req , token) = block_on . block_on (transport . recv ()) ? ; let resp = ");
    }
    reveal_strlit("Response");
    lemma_serve_sync_fn_phrase_6();
    assert("_dispatch_sync (svc , req) ; let _ = block_on . block_on (transport . reply (token , resp)) ; } }"@ =~= "_dispatch_sync"@ + " (svc , req) ; let _ = block_on . block_on (transport . reply (token , resp)) ; } }"@) by {
        reveal_strlit("_dispatch_sync (svc , req) ; let _ = block_on . block_on (transport . reply (token , resp)) ; } }");
        reveal_strlit("_dispatch_sync");
        reveal_strlit(" (svc , req) ; let _ = block_on . block_on (transport . reply (token , resp)) ; } }");
    }
    reveal_strlit("_dispatch_sync");
    lemma_serve_sync_fn_phrase_10();
    let t0 = vis_prefix(svc.vis@);
    lemma_tokens_add(t0, "fn "@);
    let t1 = t0 + "fn "@;
    lemma_read_joined(t1, crate::codegen::casing::cased(svc.stem@, WordCase::Snake), "_serve_sync < S , T , B > (svc : & S , transport : & mut T , block_on : & B ,) -> :: core :: result :: Result < () , T :: Error > where S : "@, "_serve_sync"@, " < S , T , B > (svc : & S , transport : & mut T , block_on : & B ,) -> :: core :: result :: Result < () , T :: Error > where S : "@);
    let t2 = t1 + crate::codegen::casing::cased(svc.stem@, WordCase::Snake) + "_serve_sync < S , T , B > (svc : & S , transport : & mut T , block_on : & B ,) -> :: core :: result :: Result < () , T :: Error > where S : "@;
    lemma_read_joined(t2, svc.stem@, "ServiceSync , T : :: myelin :: ServerTransport < "@, "ServiceSync"@, " , T : :: myelin :: ServerTransport < "@);
    let t3 = t2 + svc.stem@ + "ServiceSync , T : :: myelin :: ServerTransport < "@;
    lemma_read_joined(t3, svc.stem@, "Request , "@, "Request"@, " , "@);
    let t4 = t3 + svc.stem@ + "Request , "@;
    lemma_read_joined(t4, svc.stem@, "Response > , B : :: myelin :: BlockOn , { loop { let (req , token) = block_on . block_on (transport . recv ()) ? ; let resp = "@, "Response"@, " > , B : :: myelin :: BlockOn , { loop { let (req , token) = block_on . block_on (transport . recv ()) ? ; let resp = "@);
    let t5 = t4 + svc.stem@ + "Response > , B : :: myelin :: BlockOn , { loop { let (req , token) = block_on . block_on (transport . recv ()) ? ; let resp = "@;
    lemma_read_joined(t5, crate::codegen::casing::cased(svc.stem@, WordCase::Snake), "_dispatch_sync (svc , req) ; let _ = block_on . block_on (transport . reply (token , resp)) ; } }"@, "_dispatch_sync"@, " (svc , req) ; let _ = block_on . block_on (transport . reply (token , resp)) ; } }"@);
    let t6 = t5 + crate::codegen::casing::cased(svc.stem@, WordCase::Snake) + "_dispatch_sync (svc , req) ; let _ = block_on . block_on (transport . reply (token , resp)) ; } }"@;
}

#[verifier::rlimit(60)]
pub(crate) proof fn lemma_tokio_transport_alias(svc: ServiceTrait)
    requires
        named(svc),
    ensures
        tokens(tokio_transport_alias_text(svc)) == tokens(svc.vis@)
        + seq!["type"@]
        + seq![svc.stem@ + "TokioService"@]
        + seq![
            "="@, "::"@, "myelin"@, "::"@, "transport_tokio"@, "::"@, "TokioService"@,
            "<"@,
        ]
        + seq![svc.stem@ + "Request"@]
        + seq![","@]
        + seq![svc.stem@ + "Response"@]
        + seq![">"@, ";"@],
        tokio_transport_alias_text(svc).len() > 0,
{
    lemma_vis(svc.vis@);
    lemma_tokio_transport_alias_phrase_1();
    assert("TokioService = :: myelin :: transport_tokio :: TokioService < "@ =~= "TokioService"@ + " = :: myelin :: transport_tokio :: TokioService < "@) by {
        reveal_strlit("TokioService = :: myelin :: transport_tokio :: TokioService < ");
        reveal_strlit("TokioService");
        reveal_strlit(" = :: myelin :: transport_tokio :: TokioService < ");
    }
    reveal_strlit("TokioService");
    lemma_tokio_transport_alias_phrase_2();
    assert("Request , "@ =~= "Request"@ + " , "@) by {
        reveal_strlit("Request , ");
        reveal_strlit("Request");
        reveal_strlit(" , ");
    }
    reveal_strlit("Request");
    lemma_request_variant_phrase_1();
    assert("Response > ;"@ =~= "Response"@ + " > ;"@) by {
        reveal_strlit("Response > ;");
        reveal_strlit("Response");
        reveal_strlit(" > ;");
    }
    reveal_strlit("Response");
    lemma_tokio_transport_alias_phrase_3();
    let t0 = vis_prefix(svc.vis@);
    lemma_tokens_add(t0, "type "@);
    let t1 = t0 + "type "@;
    lemma_read_joined(t1, svc.stem@, "TokioService = :: myelin :: transport_tokio :: TokioService < "@, "TokioService"@, " = :: myelin :: transport_tokio :: TokioService < "@);
    let t2 = t1 + svc.stem@ + "TokioService = :: myelin :: transport_tokio :: TokioService < "@;
    lemma_read_joined(t2, svc.stem@, "Request , "@, "Request"@, " , "@);
    let t3 = t2 + svc.stem@ + "Request , "@;
    lemma_read_joined(t3, svc.stem@, "Response > ;"@, "Response"@, " > ;"@);
    let t4 = t3 + svc.stem@ + "Response > ;"@;
}

#[verifier::rlimit(60)]
pub(crate) proof fn lemma_embassy_transport_aliases(svc: ServiceTrait)
    requires
        named(svc),
    ensures
        tokens(embassy_transport_aliases_text(svc)) == tokens(svc.vis@)
        + seq!["type"@]
        + seq![svc.stem@ + "EmbassyService"@]
        + seq![
            "<"@, "M"@, ","@, "const"@, "CHANNEL_DEPTH"@, ":"@, "usize"@, ">"@, "="@,
            "::"@, "myelin"@, "::"@, "transport_embassy"@, "::"@, "EmbassyService"@, "<"@,
            "M"@, ","@,
        ]
        + seq![svc.stem@ + "Request"@]
        + seq![","@]
        + seq![svc.stem@ + "Response"@]
        + seq![","@, "CHANNEL_DEPTH"@, ">"@, ";"@]
        + tokens(svc.vis@)
        + seq!["type"@]
        + seq![svc.stem@ + "EmbassyClientTransport"@]
        + seq![
            "<"@, "'a"@, ","@, "M"@, ","@, "const"@, "CHANNEL_DEPTH"@, ":"@, "usize"@,
            ">"@, "="@, "::"@, "myelin"@, "::"@, "transport_embassy"@, "::"@,
            "EmbassyClient"@, "<"@, "'a"@, ","@, "M"@, ","@,
        ]
        + seq![svc.stem@ + "Request"@]
        + seq![","@]
        + seq![svc.stem@ + "Response"@]
        + seq![","@, "CHANNEL_DEPTH"@, ">"@, ";"@],
        embassy_transport_aliases_text(svc).len() > 0,
{
    lemma_vis(svc.vis@);
    lemma_tokio_transport_alias_phrase_1();
    assert("EmbassyService < M , const CHANNEL_DEPTH : usize > = :: myelin :: transport_embassy :: EmbassyService < M , "@ =~= "EmbassyService"@ + " < M , const CHANNEL_DEPTH : usize > = :: myelin :: transport_embassy :: EmbassyService < M , "@) by {
        reveal_strlit("EmbassyService < M , const CHANNEL_DEPTH : usize > = :: myelin :: transport_embassy :: EmbassyService < M , ");
        reveal_strlit("EmbassyService");
        reveal_strlit(" < M , const CHANNEL_DEPTH : usize > = :: myelin :: transport_embassy :: EmbassyService < M , ");
    }
    reveal_strlit("EmbassyService");
    lemma_embassy_transport_aliases_phrase_1();
    assert("Request , "@ =~= "Request"@ + " , "@) by {
        reveal_strlit("Request , ");
        reveal_strlit("Request");
        reveal_strlit(" , ");
    }
    reveal_strlit("Request");
    lemma_request_variant_phrase_1();
    assert("Response , CHANNEL_DEPTH > ; "@ =~= "Response"@ + " , CHANNEL_DEPTH > ; "@) by {
        reveal_strlit("Response , CHANNEL_DEPTH > ; ");
        reveal_strlit("Response");
        reveal_strlit(" , CHANNEL_DEPTH > ; ");
    }
    reveal_strlit("Response");
    lemma_embassy_transport_aliases_phrase_4();
    assert("EmbassyClientTransport < 'a , M , const CHANNEL_DEPTH : usize > = :: myelin :: transport_embassy :: EmbassyClient < 'a , M , "@ =~= "EmbassyClientTransport"@ + " < 'a , M , const CHANNEL_DEPTH : usize > = :: myelin :: transport_embassy :: EmbassyClient < 'a , M , "@) by {
        reveal_strlit("EmbassyClientTransport < 'a , M , const CHANNEL_DEPTH : usize > = :: myelin :: transport_embassy :: EmbassyClient < 'a , M , ");
        reveal_strlit("EmbassyClientTransport");
        reveal_strlit(" < 'a , M , const CHANNEL_DEPTH : usize > = :: myelin :: transport_embassy :: EmbassyClient < 'a , M , ");
    }
    reveal_strlit("EmbassyClientTransport");
    lemma_embassy_transport_aliases_phrase_5();
    assert("Response , CHANNEL_DEPTH > ;"@ =~= "Response"@ + " , CHANNEL_DEPTH > ;"@) by {
        reveal_strlit("Response , CHANNEL_DEPTH > ;");
        reveal_strlit("Response");
        reveal_strlit(" , CHANNEL_DEPTH > ;");
    }
    lemma_embassy_transport_aliases_phrase_8();
    let t0 = vis_prefix(svc.vis@);
    lemma_tokens_add(t0, "type "@);
    let t1 = t0 + "type "@;
    lemma_read_joined(t1, svc.stem@, "EmbassyService < M , const CHANNEL_DEPTH : usize > = :: myelin :: transport_embassy :: EmbassyService < M , "@, "EmbassyService"@, " < M , const CHANNEL_DEPTH : usize > = :: myelin :: transport_embassy :: EmbassyService < M , "@);
    let t2 = t1 + svc.stem@ + "EmbassyService < M , const CHANNEL_DEPTH : usize > = :: myelin :: transport_embassy :: EmbassyService < M , "@;
    lemma_read_joined(t2, svc.stem@, "Request , "@, "Request"@, " , "@);
    let t3 = t2 + svc.stem@ + "Request , "@;
    lemma_read_joined(t3, svc.stem@, "Response , CHANNEL_DEPTH > ; "@, "Response"@, " , CHANNEL_DEPTH > ; "@);
    let t4 = t3 + svc.stem@ + "Response , CHANNEL_DEPTH > ; "@;
    lemma_tokens_add(t4, vis_prefix(svc.vis@));
    let t5 = t4 + vis_prefix(svc.vis@);
    lemma_tokens_add(t5, "type "@);
    let t6 = t5 + "type "@;
    lemma_read_joined(t6, svc.stem@, "EmbassyClientTransport < 'a , M , const CHANNEL_DEPTH : usize > = :: myelin :: transport_embassy :: EmbassyClient < 'a , M , "@, "EmbassyClientTransport"@, " < 'a , M , const CHANNEL_DEPTH : usize > = :: myelin :: transport_embassy :: EmbassyClient < 'a , M , "@);
    let t7 = t6 + svc.stem@ + "EmbassyClientTransport < 'a , M , const CHANNEL_DEPTH : usize > = :: myelin :: transport_embassy :: EmbassyClient < 'a , M , "@;
    lemma_read_joined(t7, svc.stem@, "Request , "@, "Request"@, " , "@);
    let t8 = t7 + svc.stem@ + "Request , "@;
    lemma_read_joined(t8, svc.stem@, "Response , CHANNEL_DEPTH > ;"@, "Response"@, " , CHANNEL_DEPTH > ;"@);
    let t9 = t8 + svc.stem@ + "Response , CHANNEL_DEPTH > ;"@;
}

/// The tokens of the name of the static that holds an embassy service.
pub open spec fn static_tokens(svc: ServiceTrait) -> Seq<Seq<char>> {
    seq![
        "["@,
        "<"@,
        "__"@ + crate::codegen::casing::cased(svc.stem@, WordCase::Constant) + "_SERVICE_"@,
        "$"@,
        "name"@,
        ":"@,
        "upper"@,
        ">"@,
        "]"@,
    ]
}

pub(crate) proof fn lemma_static_service(svc: ServiceTrait)
    requires
        named(svc),
    ensures
        tokens(static_service_text(svc)) == static_tokens(svc),
        static_service_text(svc).len() > 0,
        is_break(static_service_text(svc)[0]),
        is_break(static_service_text(svc).last()),
{
    let name = crate::codegen::casing::cased(svc.stem@, WordCase::Constant);
    let rest = " $ name : upper >]"@;
    lemma_static_service_phrase_1();
    reveal_strlit("[< __");
    reveal_strlit("[");
    reveal_strlit("<");
    reveal_strlit("[< ");
    reveal_strlit("__");
    reveal_strlit("_SERVICE_");
    assert("[< __"@ =~= "[< "@ + "__"@);
    assert("_SERVICE_ $ name : upper >]"@ =~= "_SERVICE_"@ + rest) by {
        reveal_strlit("_SERVICE_ $ name : upper >]");
        reveal_strlit(" $ name : upper >]");
    }
    let ts = seq!["["@, "<"@];
    assert(tokens("[< "@) == ts) by {
        reveal_strlit(" ");
        reveal_with_fuel(spread, 3);
        reveal_with_fuel(all_tokens, 3);
        assert("[< "@ =~= edge(false) + spread(ts, 2) + edge(true));
        lemma_edged(ts, 2, false, true);
        assert(ts.take(2) =~= ts);
    }
    assert(is_word("__"@));
    assert(is_word("_SERVICE_"@));
    lemma_glued_word("__"@, name);
    let word = "__"@ + name;
    lemma_read_joined("[< "@, word, "_SERVICE_ $ name : upper >]"@, "_SERVICE_"@, rest);
    assert(static_service_text(svc) =~= "[< "@ + word + "_SERVICE_ $ name : upper >]"@);
    assert(static_service_text(svc)[0] == "[< "@[0]);
    assert(static_service_text(svc).last() == rest.last());
    assert(tokens(static_service_text(svc)) =~= static_tokens(svc));
}

/// A cell for a client of an embassy service.
pub open spec fn cell_tokens(svc: ServiceTrait) -> Seq<Seq<char>> {
    seq![
        "static"@, "CELL"@, ":"@, "::"@, "myelin"@, "::"@, "static_cell"@, "::"@,
        "StaticCell"@, "<"@, "::"@, "myelin"@, "::"@, "transport_embassy"@, "::"@,
        "EmbassyClient"@, "<"@, "'static"@, ","@, "$"@, "mutex"@, ","@,
        svc.stem@ + "Request"@, ","@, svc.stem@ + "Response"@, ","@, "$"@, "depth"@, ","@,
        ">"@, ","@, ">"@, "="@, "::"@, "myelin"@, "::"@, "static_cell"@, "::"@,
        "StaticCell"@, "::"@, "new"@, "("@, ")"@, ";"@,
    ]
}

#[verifier::rlimit(60)]
pub(crate) proof fn lemma_embassy_client(svc: ServiceTrait)
    requires
        named(svc),
    ensures
        tokens(embassy_client_text(svc)) == cell_tokens(svc),
        embassy_client_text(svc).len() > 0,
        is_break(embassy_client_text(svc).last()),
{
    lemma_embassy_client_phrase_1();
    assert("Request , "@ =~= "Request"@ + " , "@) by {
        reveal_strlit("Request , ");
        reveal_strlit("Request");
        reveal_strlit(" , ");
    }
    reveal_strlit("Request");
    lemma_request_variant_phrase_1();
    assert("Response , $ depth , > , > = :: myelin :: static_cell :: StaticCell :: new () ; "@ =~= "Response"@ + " , $ depth , > , > = :: myelin :: static_cell :: StaticCell :: new () ; "@) by {
        reveal_strlit("Response , $ depth , > , > = :: myelin :: static_cell :: StaticCell :: new () ; ");
        reveal_strlit("Response");
        reveal_strlit(" , $ depth , > , > = :: myelin :: static_cell :: StaticCell :: new () ; ");
    }
    reveal_strlit("Response");
    lemma_embassy_client_phrase_4();
    let t0 = "static CELL : :: myelin :: static_cell :: StaticCell < :: myelin :: transport_embassy :: EmbassyClient < 'static , $ mutex , "@;
    lemma_read_joined(t0, svc.stem@, "Request , "@, "Request"@, " , "@);
    let t1 = t0 + svc.stem@ + "Request , "@;
    lemma_read_joined(t1, svc.stem@, "Response , $ depth , > , > = :: myelin :: static_cell :: StaticCell :: new () ; "@, "Response"@, " , $ depth , > , > = :: myelin :: static_cell :: StaticCell :: new () ; "@);
    let t2 = t1 + svc.stem@ + "Response , $ depth , > , > = :: myelin :: static_cell :: StaticCell :: new () ; "@;
    assert(tokens(embassy_client_text(svc)) =~= cell_tokens(svc));
}

#[verifier::rlimit(60)]
pub(crate) proof fn lemma_embassy_instantiation(svc: ServiceTrait)
    requires
        named(svc),
    ensures
        tokens(embassy_instantiation_text(svc)) == seq!["#"@, "["@, "macro_export"@, "]"@, "macro_rules"@, "!"@]
        + seq![
            crate::codegen::casing::cased(svc.stem@, WordCase::Snake) + "_embassy_service"@,
        ]
        + seq![
            "{"@, "("@, "$"@, "name"@, ":"@, "ident"@, ","@, "$"@, "mutex"@, ":"@, "ty"@,
            ","@, "$"@, "depth"@, ":"@, "expr"@, ")"@, "=>"@, "{"@, "::"@, "myelin"@,
            "::"@, "paste"@, "::"@, "paste"@, "!"@, "{"@, "static"@,
        ]
        + static_tokens(svc)
        + seq![
            ":"@, "::"@, "myelin"@, "::"@, "transport_embassy"@, "::"@, "EmbassyService"@,
            "<"@, "$"@, "mutex"@, ","@,
        ]
        + seq![svc.stem@ + "Request"@]
        + seq![","@]
        + seq![svc.stem@ + "Response"@]
        + seq![
            ","@, "$"@, "depth"@, ","@, ">"@, "="@, "::"@, "myelin"@, "::"@,
            "transport_embassy"@, "::"@, "EmbassyService"@, "::"@, "new"@, "("@, ")"@,
            ";"@, "macro_rules"@, "!"@, "["@, "<"@, "$"@, "name"@, "_client"@, ">"@, "]"@,
            "{"@, "("@, ")"@, "=>"@, "{"@, "{"@,
        ]
        + cell_tokens(svc)
        + seq![svc.stem@ + "Client"@]
        + seq!["::"@, "new"@, "("@, "&"@, "*"@, "CELL"@, "."@, "init"@, "("@]
        + static_tokens(svc)
        + seq![
            "."@, "client"@, "("@, ")"@, ","@, ")"@, ","@, ")"@, "}"@, "}"@, ";"@, "}"@,
            "macro_rules"@, "!"@, "["@, "<"@, "$"@, "name"@, "_server"@, ">"@, "]"@, "{"@,
            "("@, ")"@, "=>"@, "{"@,
        ]
        + static_tokens(svc)
        + seq![
            "."@, "server"@, "("@, ")"@, "}"@, ";"@, "}"@, "macro_rules"@, "!"@, "["@,
            "<"@, "$"@, "name"@, "_client_sync"@, ">"@, "]"@, "{"@, "("@, "$"@,
            "block_on"@, ":"@, "expr"@, ")"@, "=>"@, "{"@, "{"@,
        ]
        + cell_tokens(svc)
        + seq![svc.stem@ + "ClientSync"@]
        + seq!["::"@, "new"@, "("@]
        + seq![svc.stem@ + "Client"@]
        + seq!["::"@, "new"@, "("@, "&"@, "*"@, "CELL"@, "."@, "init"@, "("@]
        + static_tokens(svc)
        + seq![
            "."@, "client"@, "("@, ")"@, ","@, ")"@, ","@, ")"@, ","@, "$"@, "block_on"@,
            ","@, ")"@, "}"@, "}"@, ";"@, "}"@, "}"@, "}"@, ";"@, "}"@,
        ],
        embassy_instantiation_text(svc).len() > 0,
{
    lemma_embassy_instantiation_phrase_1();
    assert("_embassy_service { ($ name : ident , $ mutex : ty , $ depth : expr) => { :: myelin :: paste :: paste ! { static "@ =~= "_embassy_service"@ + " { ($ name : ident , $ mutex : ty , $ depth : expr) => { :: myelin :: paste :: paste ! { static "@) by {
        reveal_strlit("_embassy_service { ($ name : ident , $ mutex : ty , $ depth : expr) => { :: myelin :: paste :: paste ! { static ");
        reveal_strlit("_embassy_service");
        reveal_strlit(" { ($ name : ident , $ mutex : ty , $ depth : expr) => { :: myelin :: paste :: paste ! { static ");
    }
    reveal_strlit("_embassy_service");
    lemma_embassy_instantiation_phrase_2();
    lemma_static_service(svc);
    lemma_embassy_instantiation_phrase_6();
    assert("Request , "@ =~= "Request"@ + " , "@) by {
        reveal_strlit("Request , ");
        reveal_strlit("Request");
        reveal_strlit(" , ");
    }
    reveal_strlit("Request");
    lemma_request_variant_phrase_1();
    assert("Response , $ depth , > = :: myelin :: transport_embassy :: EmbassyService :: new () ; macro_rules ! [< $ name _client >] { () => { { "@ =~= "Response"@ + " , $ depth , > = :: myelin :: transport_embassy :: EmbassyService :: new () ; macro_rules ! [< $ name _client >] { () => { { "@) by {
        reveal_strlit("Response , $ depth , > = :: myelin :: transport_embassy :: EmbassyService :: new () ; macro_rules ! [< $ name _client >] { () => { { ");
        reveal_strlit("Response");
        reveal_strlit(" , $ depth , > = :: myelin :: transport_embassy :: EmbassyService :: new () ; macro_rules ! [< $ name _client >] { () => { { ");
    }
    reveal_strlit("Response");
    lemma_embassy_instantiation_phrase_7();
    lemma_embassy_client(svc);
    assert("Client :: new (& * CELL . init ("@ =~= "Client"@ + " :: new (& * CELL . init ("@) by {
        reveal_strlit("Client :: new (& * CELL . init (");
        reveal_strlit("Client");
        reveal_strlit(" :: new (& * CELL . init (");
    }
    reveal_strlit("Client");
    lemma_embassy_instantiation_phrase_11();
    lemma_embassy_instantiation_phrase_12();
    lemma_embassy_instantiation_phrase_15();
    assert("ClientSync :: new ("@ =~= "ClientSync"@ + " :: new ("@) by {
        reveal_strlit("ClientSync :: new (");
        reveal_strlit("ClientSync");
        reveal_strlit(" :: new (");
    }
    reveal_strlit("ClientSync");
    lemma_embassy_instantiation_phrase_18();
    lemma_embassy_instantiation_phrase_19();
    let t0 = "# [macro_export] macro_rules ! "@;
    lemma_read_joined(t0, crate::codegen::casing::cased(svc.stem@, WordCase::Snake), "_embassy_service { ($ name : ident , $ mutex : ty , $ depth : expr) => { :: myelin :: paste :: paste ! { static "@, "_embassy_service"@, " { ($ name : ident , $ mutex : ty , $ depth : expr) => { :: myelin :: paste :: paste ! { static "@);
    let t1 = t0 + crate::codegen::casing::cased(svc.stem@, WordCase::Snake) + "_embassy_service { ($ name : ident , $ mutex : ty , $ depth : expr) => { :: myelin :: paste :: paste ! { static "@;
    lemma_tokens_add(t1, static_service_text(svc));
    let t2 = t1 + static_service_text(svc);
    lemma_tokens_add(t2, " : :: myelin :: transport_embassy :: EmbassyService < $ mutex , "@);
    let t3 = t2 + " : :: myelin :: transport_embassy :: EmbassyService < $ mutex , "@;
    lemma_read_joined(t3, svc.stem@, "Request , "@, "Request"@, " , "@);
    let t4 = t3 + svc.stem@ + "Request , "@;
    lemma_read_joined(t4, svc.stem@, "Response , $ depth , > = :: myelin :: transport_embassy :: EmbassyService :: new () ; macro_rules ! [< $ name _client >] { () => { { "@, "Response"@, " , $ depth , > = :: myelin :: transport_embassy :: EmbassyService :: new () ; macro_rules ! [< $ name _client >] { () => { { "@);
    let t5 = t4 + svc.stem@ + "Response , $ depth , > = :: myelin :: transport_embassy :: EmbassyService :: new () ; macro_rules ! [< $ name _client >] { () => { { "@;
    lemma_tokens_add(t5, embassy_client_text(svc));
    let t6 = t5 + embassy_client_text(svc);
    lemma_read_joined(t6, svc.stem@, "Client :: new (& * CELL . init ("@, "Client"@, " :: new (& * CELL . init ("@);
    let t7 = t6 + svc.stem@ + "Client :: new (& * CELL . init ("@;
    lemma_tokens_add(t7, static_service_text(svc));
    let t8 = t7 + static_service_text(svc);
    lemma_tokens_add(t8, " . client () ,) ,) } } ; } macro_rules ! [< $ name _server >] { () => { "@);
    let t9 = t8 + " . client () ,) ,) } } ; } macro_rules ! [< $ name _server >] { () => { "@;
    lemma_tokens_add(t9, static_service_text(svc));
    let t10 = t9 + static_service_text(svc);
    lemma_tokens_add(t10, " . server () } ; } macro_rules ! [< $ name _client_sync >] { ($ block_on : expr) => { { "@);
    let t11 = t10 + " . server () } ; } macro_rules ! [< $ name _client_sync >] { ($ block_on : expr) => { { "@;
    lemma_tokens_add(t11, embassy_client_text(svc));
    let t12 = t11 + embassy_client_text(svc);
    lemma_read_joined(t12, svc.stem@, "ClientSync :: new ("@, "ClientSync"@, " :: new ("@);
    let t13 = t12 + svc.stem@ + "ClientSync :: new ("@;
    lemma_read_joined(t13, svc.stem@, "Client :: new (& * CELL . init ("@, "Client"@, " :: new (& * CELL . init ("@);
    let t14 = t13 + svc.stem@ + "Client :: new (& * CELL . init ("@;
    lemma_tokens_add(t14, static_service_text(svc));
    let t15 = t14 + static_service_text(svc);
    lemma_tokens_add(t15, " . client () ,) ,) , $ block_on ,) } } ; } } } ; }"@);
    let t16 = t15 + " . client () ,) ,) , $ block_on ,) } } ; } } } ; }"@;
}

} // verus!
