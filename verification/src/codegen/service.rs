//! From the tokens of a service trait to the code that is generated for it.

use vstd::prelude::*;

use crate::codegen::args::{ArgsError, ServiceArgs};
use crate::codegen::emit::{expansion, Part, Transports};
use crate::codegen::parse::{ServiceError, ServiceMethod, ServiceTrait};
use crate::codegen::syntax::{Attr, TraitShape};
use proc_macro2::TokenStream;

verus! {

/// Why no code is generated.
#[derive(Debug)]
pub enum ServiceFailure {
    /// The arguments of the attribute are rejected.
    Args(ArgsError),
    /// The tokens are not a trait; this is the parser's message.
    Syntax(String),
    /// The trait is not a service.
    Trait(Vec<ServiceError>),
}

/// The trait that a token stream spells, or the parser's message if it spells
/// none.
pub uninterp spec fn stream_trait(stream: TokenStream) -> Result<TraitShape, Seq<char>>;

/// `syn::parse2` to a `syn::ItemTrait`: the syntax tree of the trait that the
/// tokens spell, or the text of the error if they spell none. Both depend on
/// the tokens alone.
#[verifier::external_body]
pub(crate) fn parse_trait(stream: TokenStream) -> (item: Result<syn::ItemTrait, String>)
    ensures
        match stream_trait(stream) {
            Ok(shape) => item matches Ok(i) && crate::codegen::syntax::trait_shape(i) == shape,
            Err(message) => item matches Err(m) && m@ == message,
        },
{
    syn::parse2::<syn::ItemTrait>(stream).map_err(|e| e.to_string())
}

/// Generates the code for a service: `attr` holds the arguments of the
/// attribute, `item` the trait.
pub fn service(attr: &TokenStream, item: TokenStream, transports: Transports) -> (code: Result<
    String,
    ServiceFailure,
>)
    ensures
        match crate::codegen::args::parsed_args(crate::codegen::args::stream_tokens(*attr)) {
            Err(fault) => code matches Err(ServiceFailure::Args(e)) && e@ == fault,
            Ok(api_id) => match stream_trait(item) {
                Err(message) => code matches Err(ServiceFailure::Syntax(m)) && m@ == message,
                Ok(shape) => {
                    let errors = crate::codegen::parse::trait_errors(shape);
                    if errors.len() == 0 {
                        code matches Ok(text) && generated(shape, api_id, transports, text@)
                    } else {
                        code matches Err(ServiceFailure::Trait(e)) && e@ == errors
                    }
                },
            },
        },
{
    let args = match ServiceArgs::parse(attr) {
        Ok(args) => args,
        Err(e) => {
            return Err(ServiceFailure::Args(e));
        },
    };
    let tree = match parse_trait(item) {
        Ok(tree) => tree,
        Err(message) => {
            return Err(ServiceFailure::Syntax(message));
        },
    };
    match ServiceTrait::parse(&tree) {
        Ok(svc) => Ok(expansion(&svc, args.api_id, transports)),
        Err(errors) => Err(ServiceFailure::Trait(errors)),
    }
}

/// Whether `text` is the code for the service that `shape` declares.
pub open spec fn generated(
    shape: TraitShape,
    api_id: Option<u16>,
    transports: Transports,
    text: Seq<char>,
) -> bool {
    exists|svc: ServiceTrait| #[trigger]
        svc.is_service(shape) && text == crate::codegen::emit::expansion_text(
            svc,
            api_id,
            transports,
        )
}

/// The generated code depends on the trait, the api id and the transports
/// alone.
pub proof fn law_generated_code_is_unique(
    shape: TraitShape,
    api_id: Option<u16>,
    transports: Transports,
    one: Seq<char>,
    other: Seq<char>,
)
    requires
        generated(shape, api_id, transports, one),
        generated(shape, api_id, transports, other),
    ensures
        one == other,
{
    let a = choose|svc: ServiceTrait| #[trigger]
        svc.is_service(shape) && one == crate::codegen::emit::expansion_text(
            svc,
            api_id,
            transports,
        );
    let b = choose|svc: ServiceTrait| #[trigger]
        svc.is_service(shape) && other == crate::codegen::emit::expansion_text(
            svc,
            api_id,
            transports,
        );
    lemma_attrs(a.item.attrs@, b.item.attrs@, false);
    lemma_attrs(a.item.attrs@, b.item.attrs@, true);
    assert forall|part: Part| #[trigger]
        crate::codegen::emit::parts_text(part, a) == crate::codegen::emit::parts_text(part, b) by {
        lemma_parts(shape, a, b, part);
    }
    assert(crate::codegen::emit::parts_text(Part::RequestVariant, a)
        == crate::codegen::emit::parts_text(Part::RequestVariant, b));
}

proof fn lemma_attrs(a: Seq<Attr>, b: Seq<Attr>, inner: bool)
    requires
        crate::codegen::syntax::attr_shapes(a) == crate::codegen::syntax::attr_shapes(b),
    ensures
        crate::codegen::emit::attrs_text(a, inner) == crate::codegen::emit::attrs_text(b, inner),
    decreases a.len(),
{
    let sa = crate::codegen::syntax::attr_shapes(a);
    let sb = crate::codegen::syntax::attr_shapes(b);
    assert(sa.len() == a.len() && sb.len() == b.len());
    if a.len() > 0 {
        assert(sa.last() == sb.last());
        assert(crate::codegen::syntax::attr_shapes(a.drop_last()) =~= sa.drop_last());
        assert(crate::codegen::syntax::attr_shapes(b.drop_last()) =~= sb.drop_last());
        lemma_attrs(a.drop_last(), b.drop_last(), inner);
    }
}

proof fn lemma_parts(shape: TraitShape, a: ServiceTrait, b: ServiceTrait, part: Part)
    requires
        a.is_service(shape),
        b.is_service(shape),
    ensures
        crate::codegen::emit::parts_text(part, a) == crate::codegen::emit::parts_text(part, b),
{
    let ta = Seq::new(
        a.methods@.len(),
        |i: int| crate::codegen::emit::part_text(part, a, a.methods@[i]),
    );
    let tb = Seq::new(
        b.methods@.len(),
        |i: int| crate::codegen::emit::part_text(part, b, b.methods@[i]),
    );
    assert forall|i: int| 0 <= i < ta.len() implies ta[i] == tb[i] by {
        let ma = a.methods@[i];
        let mb = b.methods@[i];
        assert(crate::codegen::parse::is_item(ma, shape.items[i]));
        assert(crate::codegen::parse::is_item(mb, shape.items[i]));
        lemma_method_texts(shape, a, b, ma, mb, i);
    }
    assert(ta =~= tb);
}

proof fn lemma_method_texts(
    shape: TraitShape,
    a: ServiceTrait,
    b: ServiceTrait,
    ma: ServiceMethod,
    mb: ServiceMethod,
    i: int,
)
    requires
        a.is_service(shape),
        b.is_service(shape),
        crate::codegen::parse::is_item(ma, shape.items[i]),
        crate::codegen::parse::is_item(mb, shape.items[i]),
    ensures
        forall|part: Part| #[trigger]
            crate::codegen::emit::part_text(part, a, ma) == crate::codegen::emit::part_text(
                part,
                b,
                mb,
            ),
{
    let inputs = shape.items[i]->0.inputs;
    assert forall|j: int| 0 <= j < ma.args@.len() implies ma.args@[j].ident@ == mb.args@[j].ident@
        && ma.args@[j].ty@ == mb.args@[j].ty@ by {
        assert(crate::codegen::parse::is_argument(ma.args@[j], inputs[j + 1]));
        assert(crate::codegen::parse::is_argument(mb.args@[j], inputs[j + 1]));
    }
    assert(crate::codegen::emit::argument_decls(ma.args@)
        =~= crate::codegen::emit::argument_decls(mb.args@));
    assert(crate::codegen::emit::argument_names(ma.args@)
        =~= crate::codegen::emit::argument_names(mb.args@));
    lemma_attrs(ma.sig.attrs@, mb.sig.attrs@, false);
}

} // verus!
