//! The parts of a trait's syntax that code generation looks at.

use vstd::prelude::*;

use quote::ToTokens;

verus! {

/// The syntax tree of a trait, from the `syn` crate.
#[verifier::external_type_specification]
#[verifier::external_body]
pub struct ExItemTrait(syn::ItemTrait);

/// The syntax tree of a trait's function, from the `syn` crate.
#[verifier::external_type_specification]
#[verifier::external_body]
pub struct ExTraitItemFn(syn::TraitItemFn);

/// An attribute.
#[verifier::ext_equal]
pub struct AttrShape {
    /// Whether it stands inside what it belongs to.
    pub inner: bool,
    /// The attribute itself.
    pub text: Seq<char>,
}

/// A trait, as far as code generation reads it. All texts are token texts.
pub struct TraitShape {
    /// The whole trait.
    pub text: Seq<char>,
    /// Its attributes.
    pub attrs: Seq<AttrShape>,
    /// Its visibility; empty if it is private.
    pub vis: Seq<char>,
    /// Its name.
    pub ident: Seq<char>,
    /// How many generic parameters it has.
    pub generics: int,
    /// Whether it has a where-clause.
    pub has_where: bool,
    /// How many supertraits it has.
    pub supertraits: int,
    /// Whether it is `unsafe`.
    pub is_unsafe: bool,
    /// Whether it is an auto trait.
    pub is_auto: bool,
    /// Its items; `None` for one that is not a function.
    pub items: Seq<Option<MethodShape>>,
}

/// A function of a trait.
pub struct MethodShape {
    /// Its attributes.
    pub attrs: Seq<AttrShape>,
    /// Its name.
    pub ident: Seq<char>,
    /// The parameters as they stand between the parentheses.
    pub params: Seq<char>,
    /// The return type, if there is one.
    pub output: Option<Seq<char>>,
    /// Whether it has a default body.
    pub has_body: bool,
    /// Whether it is `const`.
    pub is_const: bool,
    /// Whether it is `async`.
    pub is_async: bool,
    /// Whether it is `unsafe`.
    pub is_unsafe: bool,
    /// Whether it names an ABI.
    pub has_abi: bool,
    /// Whether it is variadic.
    pub is_variadic: bool,
    /// How many generic parameters it has.
    pub generics: int,
    /// Whether it has a where-clause.
    pub has_where: bool,
    /// The parameters.
    pub inputs: Seq<InputShape>,
}

/// A parameter of a function.
pub enum InputShape {
    /// A form of `self`.
    Receiver(Receiver),
    /// A pattern with a type.
    Typed(TypedShape),
}

/// A form of `self`.
#[derive(Clone, Copy, PartialEq, Eq, Structural)]
pub struct Receiver {
    /// Whether it is borrowed.
    pub by_reference: bool,
    /// Whether the borrow names a lifetime.
    pub has_lifetime: bool,
    /// Whether it is `mut`.
    pub is_mut: bool,
    /// Whether it has an explicit type.
    pub has_type: bool,
}

/// A parameter with a type.
pub struct TypedShape {
    /// The pattern, if it binds a name.
    pub binding: Option<BindingShape>,
    /// The type.
    pub ty: Seq<char>,
    /// Whether the type is a reference.
    pub is_reference: bool,
}

/// A pattern that binds a name.
pub struct BindingShape {
    /// The name.
    pub ident: Seq<char>,
    /// Whether it is bound by reference.
    pub by_ref: bool,
    /// Whether it is `mut`.
    pub is_mut: bool,
    /// Whether a pattern follows after `@`.
    pub has_subpattern: bool,
}

/// What the syntax tree of a trait holds.
pub uninterp spec fn trait_shape(item: syn::ItemTrait) -> TraitShape;

/// What the syntax tree of a trait's function holds.
pub uninterp spec fn method_shape(method: syn::TraitItemFn) -> MethodShape;

/// An attribute.
pub struct Attr {
    /// Whether it stands inside what it belongs to.
    pub inner: bool,
    /// The attribute itself.
    pub text: String,
}

/// The attributes that `attrs` stands for.
pub open spec fn attr_shapes(attrs: Seq<Attr>) -> Seq<AttrShape> {
    Seq::new(
        attrs.len(),
        |i: int| AttrShape { inner: attrs[i].inner, text: attrs[i].text@ },
    )
}

/// A trait without its items.
pub struct TraitHead {
    /// The whole trait.
    pub text: String,
    /// Its attributes.
    pub attrs: Vec<Attr>,
    /// Its visibility; empty if it is private.
    pub vis: String,
    /// Its name.
    pub ident: String,
    /// How many generic parameters it has.
    pub generics: usize,
    /// Whether it has a where-clause.
    pub has_where: bool,
    /// How many supertraits it has.
    pub supertraits: usize,
    /// Whether it is `unsafe`.
    pub is_unsafe: bool,
    /// Whether it is an auto trait.
    pub is_auto: bool,
    /// How many items it has.
    pub items: usize,
}

impl TraitHead {
    /// Whether this is the head of `shape`.
    pub open spec fn is_head_of(&self, shape: TraitShape) -> bool {
        &&& self.text@ == shape.text
        &&& attr_shapes(self.attrs@) == shape.attrs
        &&& self.vis@ == shape.vis
        &&& self.ident@ == shape.ident
        &&& self.generics == shape.generics
        &&& self.has_where == shape.has_where
        &&& self.supertraits == shape.supertraits
        &&& self.is_unsafe == shape.is_unsafe
        &&& self.is_auto == shape.is_auto
        &&& self.items == shape.items.len()
    }
}

/// The fields of `syn::ItemTrait` as plain values: flags for what is there,
/// counts for lists, and the token texts of the rest.
#[verifier::external_body]
pub(crate) fn describe_trait(item: &syn::ItemTrait) -> (head: TraitHead)
    ensures
        head.is_head_of(trait_shape(*item)),
{
    TraitHead {
        text: item.to_token_stream().to_string(),
        attrs: item.attrs.iter().map(|a| Attr {
            inner: matches!(a.style, syn::AttrStyle::Inner(_)), text: a.to_token_stream().to_string(),
        }).collect(),
        vis: item.vis.to_token_stream().to_string(),
        ident: item.ident.to_string(),
        generics: item.generics.params.len(),
        has_where: item.generics.where_clause.is_some(),
        supertraits: item.supertraits.len(),
        is_unsafe: item.unsafety.is_some(),
        is_auto: item.auto_token.is_some(),
        items: item.items.len(),
    }
}

/// Entry `index` of `syn::ItemTrait::items`, if it is a function.
#[verifier::external_body]
pub(crate) fn method_at(item: &syn::ItemTrait, index: usize) -> (method: Option<
    &syn::TraitItemFn,
>)
    requires
        index < trait_shape(*item).items.len(),
    ensures
        match trait_shape(*item).items[index as int] {
            Some(shape) => method matches Some(m) && method_shape(*m) == shape,
            None => method is None,
        },
{
    match &item.items[index] {
        syn::TraitItem::Fn(f) => Some(f),
        _ => None,
    }
}

/// A function without its parameters.
pub struct MethodHead {
    /// Its attributes.
    pub attrs: Vec<Attr>,
    /// Its name.
    pub ident: String,
    /// The parameters as they stand between the parentheses.
    pub params: String,
    /// The return type, if there is one.
    pub output: Option<String>,
    /// Whether it has a default body.
    pub has_body: bool,
    /// Whether it is `const`.
    pub is_const: bool,
    /// Whether it is `async`.
    pub is_async: bool,
    /// Whether it is `unsafe`.
    pub is_unsafe: bool,
    /// Whether it names an ABI.
    pub has_abi: bool,
    /// Whether it is variadic.
    pub is_variadic: bool,
    /// How many generic parameters it has.
    pub generics: usize,
    /// Whether it has a where-clause.
    pub has_where: bool,
    /// How many parameters it has.
    pub inputs: usize,
}

impl MethodHead {
    /// Whether this is the head of `shape`.
    pub open spec fn is_head_of(&self, shape: MethodShape) -> bool {
        &&& attr_shapes(self.attrs@) == shape.attrs
        &&& match shape.output {
            Some(ty) => self.output matches Some(t) && t@ == ty,
            None => self.output is None,
        }
        &&& self.has_fields_of(shape)
    }

    /// Whether everything but the attributes and the return type is that of
    /// `shape`.
    pub open spec fn has_fields_of(&self, shape: MethodShape) -> bool {
        &&& self.ident@ == shape.ident
        &&& self.params@ == shape.params
        &&& self.has_body == shape.has_body
        &&& self.is_const == shape.is_const
        &&& self.is_async == shape.is_async
        &&& self.is_unsafe == shape.is_unsafe
        &&& self.has_abi == shape.has_abi
        &&& self.is_variadic == shape.is_variadic
        &&& self.generics == shape.generics
        &&& self.has_where == shape.has_where
        &&& self.inputs == shape.inputs.len()
    }
}

/// The attributes of a `syn::TraitItemFn`, each with its style and token text.
#[verifier::external_body]
pub(crate) fn method_attrs(method: &syn::TraitItemFn) -> (attrs: Vec<Attr>)
    ensures
        attr_shapes(attrs@) == method_shape(*method).attrs,
{
    method.attrs.iter().map(|a| Attr {
        inner: matches!(a.style, syn::AttrStyle::Inner(_)),
        text: a.to_token_stream().to_string(),
    }).collect()
}

/// The token text of the return type of a `syn::TraitItemFn`, if it has one.
#[verifier::external_body]
pub(crate) fn method_output(method: &syn::TraitItemFn) -> (output: Option<String>)
    ensures
        match method_shape(*method).output {
            Some(ty) => output matches Some(t) && t@ == ty,
            None => output is None,
        },
{
    match &method.sig.output {
        syn::ReturnType::Default => None,
        syn::ReturnType::Type(_, ty) => Some(ty.to_token_stream().to_string()),
    }
}

/// The other fields of a `syn::TraitItemFn` and of its signature: flags for
/// what is there, counts for lists, and token texts.
#[verifier::external_body]
pub(crate) fn method_fields(method: &syn::TraitItemFn) -> (head: MethodHead)
    ensures
        head.attrs@.len() == 0,
        head.output is None,
        head.has_fields_of(method_shape(*method)),
{
    let sig = &method.sig;
    MethodHead {
        attrs: Vec::new(), ident: sig.ident.to_string(), output: None,
        params: sig.inputs.to_token_stream().to_string(), has_body: method.default.is_some(),
        is_const: sig.constness.is_some(), is_async: sig.asyncness.is_some(),
        is_unsafe: sig.unsafety.is_some(), has_abi: sig.abi.is_some(),
        is_variadic: sig.variadic.is_some(), generics: sig.generics.params.len(),
        has_where: sig.generics.where_clause.is_some(), inputs: sig.inputs.len(),
    }
}

/// A function without its parameters.
pub(crate) fn describe_method(method: &syn::TraitItemFn) -> (head: MethodHead)
    ensures
        head.is_head_of(method_shape(*method)),
{
    let fields = method_fields(method);
    MethodHead { attrs: method_attrs(method), output: method_output(method), ..fields }
}

/// A parameter with a type.
pub struct TypedInput {
    /// The pattern, if it binds a name.
    pub binding: Option<Binding>,
    /// The type.
    pub ty: String,
    /// Whether the type is a reference.
    pub is_reference: bool,
}

/// A pattern that binds a name.
pub struct Binding {
    /// The name.
    pub ident: String,
    /// Whether it is bound by reference.
    pub by_ref: bool,
    /// Whether it is `mut`.
    pub is_mut: bool,
    /// Whether a pattern follows after `@`.
    pub has_subpattern: bool,
}

impl TypedInput {
    /// Whether this is the parameter `shape`.
    pub open spec fn has_shape(&self, shape: TypedShape) -> bool {
        &&& self.ty@ == shape.ty
        &&& self.is_reference == shape.is_reference
        &&& match shape.binding {
            Some(b) => {
                &&& self.binding matches Some(c) && c.ident@ == b.ident && c.by_ref == b.by_ref
                    && c.is_mut == b.is_mut && c.has_subpattern == b.has_subpattern
            },
            None => self.binding is None,
        }
    }
}

/// The form of `self` that entry `index` of the parameters of a
/// `syn::TraitItemFn` is, if it is one.
#[verifier::external_body]
pub(crate) fn input_receiver(method: &syn::TraitItemFn, index: usize) -> (receiver: Option<Receiver>)
    requires
        index < method_shape(*method).inputs.len(),
    ensures
        receiver == match method_shape(*method).inputs[index as int] {
            InputShape::Receiver(r) => Some(r),
            InputShape::Typed(_) => None,
        },
{
    match &method.sig.inputs[index] {
        syn::FnArg::Receiver(r) => Some(Receiver {
            by_reference: r.reference.is_some(),
            has_lifetime: matches!(r.reference, Some((_, Some(_)))),
            is_mut: r.mutability.is_some(),
            has_type: r.colon_token.is_some(),
        }),
        syn::FnArg::Typed(_) => None,
    }
}

/// The pattern and the type that entry `index` of the parameters of a
/// `syn::TraitItemFn` has, if it is not a form of `self`.
#[verifier::external_body]
pub(crate) fn input_typed(method: &syn::TraitItemFn, index: usize) -> (typed: Option<TypedInput>)
    requires
        index < method_shape(*method).inputs.len(),
    ensures
        match method_shape(*method).inputs[index as int] {
            InputShape::Receiver(_) => typed is None,
            InputShape::Typed(shape) => typed matches Some(t) && t.has_shape(shape),
        },
{
    match &method.sig.inputs[index] {
        syn::FnArg::Receiver(_) => None,
        syn::FnArg::Typed(t) => Some(TypedInput {
            binding: match &*t.pat {
                syn::Pat::Ident(p) => Some(Binding {
                    ident: p.ident.to_string(), by_ref: p.by_ref.is_some(),
                    is_mut: p.mutability.is_some(), has_subpattern: p.subpat.is_some(),
                }),
                _ => None,
            },
            ty: t.ty.to_token_stream().to_string(), is_reference: matches!(&*t.ty, syn::Type::Reference(_)),
        }),
    }
}

} // verus!
