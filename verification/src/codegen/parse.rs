//! Validation of service traits.
//!
//! A trait that passes is described by a [`ServiceTrait`], from which the
//! code is generated. All faults of a trait are reported, in the order in
//! which they occur in it.

use vstd::prelude::*;

use crate::codegen::casing::{can_name, to_case, WordCase};
use crate::codegen::syntax::{
    describe_method, describe_trait, input_receiver, input_typed, method_at, InputShape,
    MethodHead, MethodShape, Receiver, TraitHead, TraitShape, TypedInput, TypedShape,
};
use crate::error::ErrorText;
use crate::text::strip_suffix;

verus! {

/// Why a trait cannot be a service. Items and parameters are counted from 0.
#[derive(Clone, Copy, PartialEq, Eq, Structural, Debug)]
pub enum ServiceError {
    /// The trait has generic parameters.
    TraitGenerics,
    /// The trait has a where-clause.
    TraitWhereClause,
    /// The trait has supertraits.
    Supertraits,
    /// The trait is unsafe.
    UnsafeTrait,
    /// The trait is an auto trait.
    AutoTrait,
    /// The name of the trait does not end in `Service`.
    NotNamedService,
    /// There is nothing before `Service` in the name.
    EmptyStem,
    /// A name that is derived from that of the trait is no identifier.
    InvalidStem,
    /// The item is not a function.
    NotAFunction { item: usize },
    /// The function has a fault.
    Method { item: usize, fault: MethodFault },
}

/// What is wrong with a function of a service trait.
#[derive(Clone, Copy, PartialEq, Eq, Structural, Debug)]
pub enum MethodFault {
    /// It has a default body.
    DefaultBody,
    /// It is `const`.
    Const,
    /// It is `unsafe`.
    Unsafe,
    /// It names an ABI.
    Abi,
    /// It is variadic.
    Variadic,
    /// It has generic parameters.
    Generics,
    /// It has a where-clause.
    WhereClause,
    /// It takes `self` by value.
    SelfByValue,
    /// It takes `self` mutably.
    SelfMutable,
    /// It names the lifetime of `self`.
    SelfLifetime,
    /// It gives `self` an explicit type.
    SelfTyped,
    /// The first parameter is not `self`.
    FirstNotSelf,
    /// It has no parameters.
    NoSelf,
    /// `self` is not the first parameter.
    LateSelf { input: usize },
    /// The parameter is more than a name.
    NotAName { input: usize },
    /// The parameter is borrowed.
    Borrowed { input: usize },
    /// The variant name that is derived from that of the function is no
    /// identifier.
    InvalidVariant,
}

/// `item` if `present`, else nothing.
pub open spec fn when<T>(present: bool, item: T) -> Seq<T> {
    if present {
        seq![item]
    } else {
        Seq::empty()
    }
}

/// The faults of a receiver.
pub open spec fn receiver_faults(receiver: Receiver) -> Seq<MethodFault> {
    when(!receiver.by_reference, MethodFault::SelfByValue) + when(
        receiver.is_mut,
        MethodFault::SelfMutable,
    ) + when(receiver.has_lifetime, MethodFault::SelfLifetime) + when(
        receiver.has_type,
        MethodFault::SelfTyped,
    )
}

/// The faults of the first parameter.
pub open spec fn first_input_faults(inputs: Seq<InputShape>) -> Seq<
    MethodFault,
> {
    if inputs.len() == 0 {
        seq![MethodFault::NoSelf]
    } else {
        match inputs[0] {
            InputShape::Receiver(receiver) => receiver_faults(receiver),
            InputShape::Typed(_) => seq![MethodFault::FirstNotSelf],
        }
    }
}

/// The name that a parameter binds, if it is nothing but a name.
pub open spec fn plain_name(typed: TypedShape) -> Option<Seq<char>> {
    match typed.binding {
        Some(b) => if !b.by_ref && !b.is_mut && !b.has_subpattern {
            Some(b.ident)
        } else {
            None
        },
        None => None,
    }
}

/// The faults of parameter `i`, which is not the first.
pub open spec fn input_faults(input: InputShape, i: int) -> Seq<
    MethodFault,
> {
    match input {
        InputShape::Receiver(_) => seq![
            MethodFault::LateSelf { input: i as usize },
        ],
        InputShape::Typed(typed) => when(
            plain_name(typed) is None,
            MethodFault::NotAName { input: i as usize },
        ) + when(typed.is_reference, MethodFault::Borrowed { input: i as usize }),
    }
}

/// The faults of the parameters between the first and parameter `end`.
pub open spec fn later_input_faults(
    inputs: Seq<InputShape>,
    end: int,
) -> Seq<MethodFault>
    decreases end,
{
    if end <= 1 {
        Seq::empty()
    } else {
        later_input_faults(inputs, end - 1) + input_faults(inputs[end - 1], end - 1)
    }
}

/// The faults of a function, in the order in which they are reported. The
/// variant name of a function is looked at if it has no other fault.
pub open spec fn method_faults(method: MethodShape) -> Seq<MethodFault> {
    let faults = signature_faults(method);
    if faults.len() == 0 && !crate::codegen::casing::is_name(
        crate::codegen::casing::cased(method.ident, WordCase::Pascal),
    ) {
        seq![MethodFault::InvalidVariant]
    } else {
        faults
    }
}

/// The faults of the signature of a function.
pub open spec fn signature_faults(method: MethodShape) -> Seq<MethodFault> {
    when(method.has_body, MethodFault::DefaultBody) + when(method.is_const, MethodFault::Const)
        + when(method.is_unsafe, MethodFault::Unsafe) + when(method.has_abi, MethodFault::Abi)
        + when(method.is_variadic, MethodFault::Variadic) + when(
        method.generics > 0,
        MethodFault::Generics,
    ) + when(method.has_where, MethodFault::WhereClause) + first_input_faults(method.inputs)
        + later_input_faults(method.inputs, method.inputs.len() as int)
}

/// The name of a service without the trailing `Service`.
pub open spec fn stem_of(ident: Seq<char>) -> Result<Seq<char>, ServiceError> {
    match crate::text::before_suffix(ident, "Service"@) {
        None => Err(ServiceError::NotNamedService),
        Some(stem) => if stem.len() == 0 {
            Err(ServiceError::EmptyStem)
        } else {
            Ok(stem)
        },
    }
}

/// The faults of the trait itself.
pub open spec fn head_errors(shape: TraitShape) -> Seq<ServiceError> {
    when(shape.generics > 0, ServiceError::TraitGenerics) + when(
        shape.has_where,
        ServiceError::TraitWhereClause,
    ) + when(shape.supertraits > 0, ServiceError::Supertraits) + when(
        shape.is_unsafe,
        ServiceError::UnsafeTrait,
    ) + when(shape.is_auto, ServiceError::AutoTrait) + (match stem_of(shape.ident) {
        Ok(_) => Seq::empty(),
        Err(e) => seq![e],
    })
}

/// The faults of item `i`.
pub open spec fn item_errors(
    item: Option<MethodShape>,
    i: int,
) -> Seq<ServiceError> {
    match item {
        Some(method) => method_faults(method).map(
            |k: int, fault: MethodFault| ServiceError::Method { item: i as usize, fault },
        ),
        None => seq![ServiceError::NotAFunction { item: i as usize }],
    }
}

/// The faults of the items before item `end`.
pub open spec fn items_errors(
    items: Seq<Option<MethodShape>>,
    end: int,
) -> Seq<ServiceError>
    decreases end,
{
    if end <= 0 {
        Seq::empty()
    } else {
        items_errors(items, end - 1) + item_errors(items[end - 1], end - 1)
    }
}

/// The faults of the trait and of its items.
pub open spec fn declared_errors(shape: TraitShape) -> Seq<ServiceError> {
    head_errors(shape) + items_errors(shape.items, shape.items.len() as int)
}

/// Whether the generated items can have the names that are derived from `stem`.
pub open spec fn names_items(stem: Seq<char>) -> bool {
    &&& crate::codegen::casing::is_name(stem)
    &&& crate::codegen::casing::is_name(crate::codegen::casing::cased(stem, WordCase::Snake))
    &&& crate::codegen::casing::is_name(crate::codegen::casing::cased(stem, WordCase::Constant))
}

/// All faults of a trait, in the order in which they are reported. A trait
/// without faults is a service. The names that are derived from that of the
/// trait are looked at if it has no other fault.
pub open spec fn trait_errors(shape: TraitShape) -> Seq<ServiceError> {
    let errors = declared_errors(shape);
    if errors.len() == 0 && (stem_of(shape.ident) matches Ok(stem) && !names_items(stem)) {
        seq![ServiceError::InvalidStem]
    } else {
        errors
    }
}

/// A service trait that passed validation.
pub struct ServiceTrait {
    /// The trait as it was written.
    pub item: TraitHead,
    /// Its visibility, which the generated items share.
    pub vis: String,
    /// Its name without the trailing `Service`.
    pub stem: String,
    /// Its functions.
    pub methods: Vec<ServiceMethod>,
}

/// A function of a service.
pub struct ServiceMethod {
    /// The signature as it was written.
    pub sig: MethodHead,
    /// The name of the function's request and response variants.
    pub variant_ident: String,
    /// The parameters after `&self`.
    pub args: Vec<ServiceArg>,
    /// What it returns.
    pub ret: ReturnKind,
    /// Whether it is `async`.
    pub is_async: bool,
}

/// A parameter of a function of a service.
pub struct ServiceArg {
    /// The name.
    pub ident: String,
    /// The type.
    pub ty: String,
}

/// What a function of a service returns.
pub enum ReturnKind {
    /// Nothing.
    Unit,
    /// A value of this type.
    Type(String),
}

impl ServiceMethod {
    /// Whether this is the function `shape`.
    pub open spec fn is_method(&self, shape: MethodShape) -> bool {
        &&& self.sig.is_head_of(shape)
        &&& self.variant_ident@ == crate::codegen::casing::cased(shape.ident, WordCase::Pascal)
        &&& self.is_async == shape.is_async
        &&& match shape.output {
            Some(ty) => self.ret matches ReturnKind::Type(t) && t@ == ty,
            None => self.ret is Unit,
        }
        &&& self.args@.len() + 1 == shape.inputs.len()
        &&& forall|j: int|
            0 <= j < self.args@.len() ==> is_argument(#[trigger] self.args@[j], shape.inputs[j + 1])
    }
}

/// Whether `arg` is the parameter `input`.
pub open spec fn is_argument(arg: ServiceArg, input: InputShape) -> bool {
    input matches InputShape::Typed(typed) && plain_name(typed) == Some(arg.ident@) && arg.ty@
        == typed.ty
}

impl ServiceTrait {
    /// Whether this is the service that `shape` declares.
    pub open spec fn is_service(&self, shape: TraitShape) -> bool {
        &&& self.item.is_head_of(shape)
        &&& self.vis@ == shape.vis
        &&& stem_of(shape.ident) == Ok::<Seq<char>, ServiceError>(self.stem@)
        &&& self.methods@.len() == shape.items.len()
        &&& forall|i: int|
            0 <= i < self.methods@.len() ==> is_item(#[trigger] self.methods@[i], shape.items[i])
    }
}

/// Whether `method` is the item `item`.
pub open spec fn is_item(method: ServiceMethod, item: Option<MethodShape>) -> bool {
    item matches Some(shape) && method.is_method(shape)
}

/// Appends `item` if it is `present`.
fn push_when<T: Copy>(list: &mut Vec<T>, present: bool, item: T)
    ensures
        final(list)@ == old(list)@ + when(present, item),
{
    if present {
        list.push(item);
    }
    assert(list@ =~= old(list)@ + when(present, item));
}

/// The stem of a service name.
fn derive_stem(ident: &String) -> (stem: Result<String, ServiceError>)
    ensures
        match stem_of(ident@) {
            Ok(s) => stem matches Ok(t) && t@ == s,
            Err(e) => stem == Err::<String, ServiceError>(e),
        },
{
    match strip_suffix(ident, "Service") {
        None => Err(ServiceError::NotNamedService),
        Some(stem) => {
            if stem.as_str().unicode_len() == 0 {
                Err(ServiceError::EmptyStem)
            } else {
                Ok(stem)
            }
        },
    }
}

/// Appends the faults of the first parameter.
fn check_first_input(method: &syn::TraitItemFn, inputs: usize, faults: &mut Vec<MethodFault>)
    requires
        inputs == crate::codegen::syntax::method_shape(*method).inputs.len(),
    ensures
        final(faults)@ == old(faults)@ + first_input_faults(
            crate::codegen::syntax::method_shape(*method).inputs,
        ),
{
    let ghost before = faults@;
    if inputs == 0 {
        faults.push(MethodFault::NoSelf);
    } else {
        match input_receiver(method, 0) {
            Some(receiver) => {
                push_when(faults, !receiver.by_reference, MethodFault::SelfByValue);
                push_when(faults, receiver.is_mut, MethodFault::SelfMutable);
                push_when(faults, receiver.has_lifetime, MethodFault::SelfLifetime);
                push_when(faults, receiver.has_type, MethodFault::SelfTyped);
            },
            None => {
                faults.push(MethodFault::FirstNotSelf);
            },
        }
    }
    assert(faults@ =~= before + first_input_faults(
        crate::codegen::syntax::method_shape(*method).inputs,
    ));
}

/// The name that a parameter binds, if it is nothing but a name.
fn plain_binding(typed: &TypedInput, shape: Ghost<TypedShape>) -> (name: Option<String>)
    requires
        typed.has_shape(shape@),
    ensures
        match plain_name(shape@) {
            Some(n) => name matches Some(m) && m@ == n,
            None => name is None,
        },
{
    match &typed.binding {
        Some(binding) => {
            if !binding.by_ref && !binding.is_mut && !binding.has_subpattern {
                Some(binding.ident.clone())
            } else {
                None
            }
        },
        None => None,
    }
}

/// Validates a function and describes it.
fn parse_method(method: &syn::TraitItemFn) -> (parsed: Result<ServiceMethod, Vec<MethodFault>>)
    ensures
        ({
            let shape = crate::codegen::syntax::method_shape(*method);
            if method_faults(shape).len() == 0 {
                parsed matches Ok(m) && m.is_method(shape)
            } else {
                parsed matches Err(faults) && faults@ == method_faults(shape)
            }
        }),
{
    let ghost shape = crate::codegen::syntax::method_shape(*method);
    let sig = describe_method(method);
    let mut faults: Vec<MethodFault> = Vec::new();
    push_when(&mut faults, sig.has_body, MethodFault::DefaultBody);
    push_when(&mut faults, sig.is_const, MethodFault::Const);
    push_when(&mut faults, sig.is_unsafe, MethodFault::Unsafe);
    push_when(&mut faults, sig.has_abi, MethodFault::Abi);
    push_when(&mut faults, sig.is_variadic, MethodFault::Variadic);
    push_when(&mut faults, sig.generics > 0, MethodFault::Generics);
    push_when(&mut faults, sig.has_where, MethodFault::WhereClause);
    check_first_input(method, sig.inputs, &mut faults);
    let ghost head_faults = faults@;
    let mut args: Vec<ServiceArg> = Vec::new();
    let mut i: usize = 1;
    assert(faults@ =~= head_faults + later_input_faults(shape.inputs, 1));
    while i < sig.inputs
        invariant
            1 <= i,
            sig.inputs == shape.inputs.len(),
            shape == crate::codegen::syntax::method_shape(*method),
            i <= sig.inputs || sig.inputs == 0,
            faults@ == head_faults + later_input_faults(
                shape.inputs,
                if sig.inputs == 0 {
                    1
                } else {
                    i as int
                },
            ),
            later_input_faults(shape.inputs, i as int).len() == 0 ==> {
                &&& args@.len() == i - 1
                &&& forall|j: int|
                    0 <= j < args@.len() ==> is_argument(#[trigger] args@[j], shape.inputs[j + 1])
            },
        decreases sig.inputs - i,
    {
        match input_typed(method, i) {
            None => {
                faults.push(MethodFault::LateSelf { input: i });
            },
            Some(typed) => {
                let ghost typed_shape = shape.inputs[i as int]->Typed_0;
                let name = plain_binding(&typed, Ghost(typed_shape));
                push_when(&mut faults, name.is_none(), MethodFault::NotAName { input: i });
                push_when(&mut faults, typed.is_reference, MethodFault::Borrowed { input: i });
                match name {
                    Some(ident) => {
                        args.push(ServiceArg { ident, ty: typed.ty });
                    },
                    None => {},
                }
            },
        }
        i = i + 1;
        assert(faults@ =~= head_faults + later_input_faults(shape.inputs, i as int));
    }
    if faults.len() > 0 {
        return Err(faults);
    }
    assert(signature_faults(shape).len() == 0);
    let variant_ident = to_case(sig.ident.as_str(), WordCase::Pascal);
    if !can_name(variant_ident.as_str()) {
        faults.push(MethodFault::InvalidVariant);
        assert(faults@ =~= seq![MethodFault::InvalidVariant]);
        return Err(faults);
    }
    let ret = match &sig.output {
        Some(ty) => ReturnKind::Type(ty.clone()),
        None => ReturnKind::Unit,
    };
    let is_async: bool = sig.is_async;
    Ok(ServiceMethod { sig, variant_ident, args, ret, is_async })
}

impl ServiceTrait {
    /// Validates a trait and describes the service that it declares; else
    /// reports all of its faults.
    pub fn parse(item: &syn::ItemTrait) -> (parsed: Result<Self, Vec<ServiceError>>)
        ensures
            ({
                let shape = crate::codegen::syntax::trait_shape(*item);
                if trait_errors(shape).len() == 0 {
                    parsed matches Ok(svc) && svc.is_service(shape)
                } else {
                    parsed matches Err(errors) && errors@ == trait_errors(shape)
                }
            }),
    {
        let ghost shape = crate::codegen::syntax::trait_shape(*item);
        let head = describe_trait(item);
        let mut errors: Vec<ServiceError> = Vec::new();
        push_when(&mut errors, head.generics > 0, ServiceError::TraitGenerics);
        push_when(&mut errors, head.has_where, ServiceError::TraitWhereClause);
        push_when(&mut errors, head.supertraits > 0, ServiceError::Supertraits);
        push_when(&mut errors, head.is_unsafe, ServiceError::UnsafeTrait);
        push_when(&mut errors, head.is_auto, ServiceError::AutoTrait);
        let stem = derive_stem(&head.ident);
        match &stem {
            Ok(_) => {},
            Err(e) => {
                errors.push(*e);
            },
        }
        let ghost above = errors@;
        assert(above =~= head_errors(shape));
        let mut methods: Vec<ServiceMethod> = Vec::new();
        let mut i: usize = 0;
        assert(errors@ =~= above + items_errors(shape.items, 0));
        while i < head.items
            invariant
                i <= head.items,
                head.items == shape.items.len(),
                shape == crate::codegen::syntax::trait_shape(*item),
                errors@ == above + items_errors(shape.items, i as int),
                items_errors(shape.items, i as int).len() == 0 ==> {
                    &&& methods@.len() == i
                    &&& forall|j: int|
                        0 <= j < methods@.len() ==> is_item(
                            #[trigger] methods@[j],
                            shape.items[j],
                        )
                },
            decreases head.items - i,
        {
            match method_at(item, i) {
                Some(method) => {
                    match parse_method(method) {
                        Ok(parsed) => {
                            methods.push(parsed);
                            assert(item_errors(shape.items[i as int], i as int) =~= Seq::empty());
                        },
                        Err(faults) => {
                            append_faults(&mut errors, i, &faults);
                        },
                    }
                },
                None => {
                    errors.push(ServiceError::NotAFunction { item: i });
                },
            }
            i = i + 1;
            assert(errors@ =~= above + items_errors(shape.items, i as int));
        }
        assert(errors@ == declared_errors(shape));
        match stem {
            Ok(stem) if errors.len() == 0 => {
                if !can_name_items(&stem) {
                    errors.push(ServiceError::InvalidStem);
                    assert(errors@ =~= seq![ServiceError::InvalidStem]);
                    return Err(errors);
                }
                let vis = head.vis.clone();
                Ok(ServiceTrait { item: head, vis, stem, methods })
            },
            _ => Err(errors),
        }
    }
}

/// Whether the generated items can have the names that are derived from `stem`.
fn can_name_items(stem: &String) -> (found: bool)
    ensures
        found == names_items(stem@),
{
    can_name(stem.as_str()) && can_name(to_case(stem.as_str(), WordCase::Snake).as_str())
        && can_name(to_case(stem.as_str(), WordCase::Constant).as_str())
}

/// Appends the faults of item `item`.
fn append_faults(errors: &mut Vec<ServiceError>, item: usize, faults: &Vec<MethodFault>)
    ensures
        final(errors)@ == old(errors)@ + faults@.map(
            |k: int, fault: MethodFault| ServiceError::Method { item, fault },
        ),
{
    let ghost wrapped = faults@.map(|k: int, fault: MethodFault| ServiceError::Method { item, fault });
    let mut i: usize = 0;
    assert(errors@ =~= old(errors)@ + wrapped.take(0));
    while i < faults.len()
        invariant
            i <= faults@.len(),
            wrapped == faults@.map(
                |k: int, fault: MethodFault| ServiceError::Method { item, fault },
            ),
            errors@ == old(errors)@ + wrapped.take(i as int),
        decreases faults.len() - i,
    {
        errors.push(ServiceError::Method { item, fault: faults[i] });
        i = i + 1;
        assert(errors@ =~= old(errors)@ + wrapped.take(i as int));
    }
    assert(wrapped.take(faults@.len() as int) =~= wrapped);
}

impl ErrorText for MethodFault {
    open spec fn text(&self) -> Seq<char> {
        match *self {
            MethodFault::DefaultBody =>
                "myelin::service: trait methods must not have a default body"@,
            MethodFault::Const => "myelin::service: const fn not supported"@,
            MethodFault::Unsafe => "myelin::service: unsafe fn not supported"@,
            MethodFault::Abi => "myelin::service: extern fn not supported"@,
            MethodFault::Variadic => "myelin::service: variadic fn not supported"@,
            MethodFault::Generics => "myelin::service: method generics are not supported"@,
            MethodFault::WhereClause =>
                "myelin::service: where-clauses on methods are not supported"@,
            MethodFault::SelfByValue =>
                "myelin::service: receiver must be `&self` (not `self`)"@,
            MethodFault::SelfMutable =>
                "myelin::service: receiver must be `&self` (not `&mut self`)"@,
            MethodFault::SelfLifetime =>
                "myelin::service: explicit lifetimes on `&self` not supported"@,
            MethodFault::SelfTyped =>
                "myelin::service: receiver must be plain `&self` (no explicit type)"@,
            MethodFault::FirstNotSelf => "myelin::service: first argument must be `&self`"@,
            MethodFault::NoSelf => "myelin::service: method must take `&self`"@,
            MethodFault::LateSelf { .. } =>
                "myelin::service: receiver may only appear as the first argument"@,
            MethodFault::NotAName { .. } =>
                "myelin::service: argument must be a plain `ident: Type` (no destructuring, `_`, `ref`, or `mut`)"@,
            MethodFault::Borrowed { .. } =>
                "myelin::service: argument types must be owned (use `String`/`Vec<T>`/... instead of `&str`/`&[T]`)"@,
            MethodFault::InvalidVariant =>
                "myelin::service: the variant name of this method would not be an identifier"@,
        }
    }

    fn to_text(&self) -> (text: String) {
        let text = match self {
            MethodFault::DefaultBody =>
                "myelin::service: trait methods must not have a default body",
            MethodFault::Const => "myelin::service: const fn not supported",
            MethodFault::Unsafe => "myelin::service: unsafe fn not supported",
            MethodFault::Abi => "myelin::service: extern fn not supported",
            MethodFault::Variadic => "myelin::service: variadic fn not supported",
            MethodFault::Generics => "myelin::service: method generics are not supported",
            MethodFault::WhereClause =>
                "myelin::service: where-clauses on methods are not supported",
            MethodFault::SelfByValue => "myelin::service: receiver must be `&self` (not `self`)",
            MethodFault::SelfMutable =>
                "myelin::service: receiver must be `&self` (not `&mut self`)",
            MethodFault::SelfLifetime =>
                "myelin::service: explicit lifetimes on `&self` not supported",
            MethodFault::SelfTyped =>
                "myelin::service: receiver must be plain `&self` (no explicit type)",
            MethodFault::FirstNotSelf => "myelin::service: first argument must be `&self`",
            MethodFault::NoSelf => "myelin::service: method must take `&self`",
            MethodFault::LateSelf { .. } =>
                "myelin::service: receiver may only appear as the first argument",
            MethodFault::NotAName { .. } =>
                "myelin::service: argument must be a plain `ident: Type` (no destructuring, `_`, `ref`, or `mut`)",
            MethodFault::Borrowed { .. } =>
                "myelin::service: argument types must be owned (use `String`/`Vec<T>`/... instead of `&str`/`&[T]`)",
            MethodFault::InvalidVariant =>
                "myelin::service: the variant name of this method would not be an identifier",
        };
        text.to_owned()
    }
}

impl ErrorText for ServiceError {
    open spec fn text(&self) -> Seq<char> {
        match *self {
            ServiceError::TraitGenerics =>
                "myelin::service: trait generics are not supported in v1"@,
            ServiceError::TraitWhereClause =>
                "myelin::service: where-clauses on the trait are not supported"@,
            ServiceError::Supertraits => "myelin::service: supertraits are not supported"@,
            ServiceError::UnsafeTrait => "myelin::service: unsafe traits are not supported"@,
            ServiceError::AutoTrait => "myelin::service: auto traits are not supported"@,
            ServiceError::NotNamedService =>
                "myelin::service: trait name must end in `Service` (e.g. `GreeterService`)"@,
            ServiceError::EmptyStem =>
                "myelin::service: trait name must have a non-empty stem before `Service`"@,
            ServiceError::InvalidStem =>
                "myelin::service: the names derived from this trait would not be identifiers"@,
            ServiceError::NotAFunction { .. } =>
                "myelin::service: only `fn` items are allowed in service traits"@,
            ServiceError::Method { fault, .. } => fault.text(),
        }
    }

    fn to_text(&self) -> (text: String) {
        match self {
            ServiceError::TraitGenerics =>
                "myelin::service: trait generics are not supported in v1".to_owned(),
            ServiceError::TraitWhereClause =>
                "myelin::service: where-clauses on the trait are not supported".to_owned(),
            ServiceError::Supertraits => "myelin::service: supertraits are not supported".to_owned(),
            ServiceError::UnsafeTrait =>
                "myelin::service: unsafe traits are not supported".to_owned(),
            ServiceError::AutoTrait => "myelin::service: auto traits are not supported".to_owned(),
            ServiceError::NotNamedService =>
                "myelin::service: trait name must end in `Service` (e.g. `GreeterService`)".to_owned(),
            ServiceError::EmptyStem =>
                "myelin::service: trait name must have a non-empty stem before `Service`".to_owned(),
            ServiceError::InvalidStem =>
                "myelin::service: the names derived from this trait would not be identifiers".to_owned(),
            ServiceError::NotAFunction { .. } =>
                "myelin::service: only `fn` items are allowed in service traits".to_owned(),
            ServiceError::Method { fault, .. } => fault.to_text(),
        }
    }
}

/// A function that a service may have: nothing but a name that a variant can
/// take over, `&self`, plain owned parameters and a return type.
pub open spec fn well_formed_method(method: MethodShape) -> bool {
    &&& !method.has_body && !method.is_const && !method.is_unsafe && !method.has_abi
    &&& !method.is_variadic && method.generics <= 0 && !method.has_where
    &&& method.inputs.len() > 0
    &&& method.inputs[0] == InputShape::Receiver(
        Receiver { by_reference: true, has_lifetime: false, is_mut: false, has_type: false },
    )
    &&& forall|i: int| 1 <= i < method.inputs.len() ==> owned_argument(#[trigger] method.inputs[i])
    &&& crate::codegen::casing::is_name(
        crate::codegen::casing::cased(method.ident, WordCase::Pascal),
    )
}

/// A parameter that is a plain name with an owned type.
pub open spec fn owned_argument(input: InputShape) -> bool {
    input matches InputShape::Typed(typed) && plain_name(typed) is Some && !typed.is_reference
}

/// A trait that declares a service.
pub open spec fn well_formed_trait(shape: TraitShape) -> bool {
    &&& shape.generics <= 0 && !shape.has_where && shape.supertraits <= 0
    &&& !shape.is_unsafe && !shape.is_auto
    &&& exists|stem: Seq<char>|
        stem.len() > 0 && shape.ident == #[trigger] (stem + "Service"@) && names_items(stem)
    &&& forall|i: int| 0 <= i < shape.items.len() ==> service_item(#[trigger] shape.items[i])
}

/// An item that a service may have.
pub open spec fn service_item(item: Option<MethodShape>) -> bool {
    item matches Some(method) && well_formed_method(method)
}

/// Exactly the well-formed traits are accepted.
pub proof fn law_accepted_traits_are_well_formed(shape: TraitShape)
    ensures
        trait_errors(shape).len() == 0 <==> well_formed_trait(shape),
{
    lemma_stem(shape.ident);
    if exists|stem: Seq<char>|
        stem.len() > 0 && shape.ident == #[trigger] (stem + "Service"@) && names_items(stem) {
        let stem = choose|stem: Seq<char>|
            stem.len() > 0 && shape.ident == #[trigger] (stem + "Service"@) && names_items(stem);
        law_stem_is_name_without_suffix(shape.ident, stem);
    }
    if stem_of(shape.ident) is Ok {
        law_stem_is_name_without_suffix(shape.ident, stem_of(shape.ident)->Ok_0);
    }
    lemma_items(shape.items, shape.items.len() as int);
}

/// The stem of a name is what stands before `Service`, and it is unique.
pub proof fn law_stem_is_name_without_suffix(ident: Seq<char>, stem: Seq<char>)
    ensures
        stem_of(ident) == Ok::<Seq<char>, ServiceError>(stem) <==> ident == stem + "Service"@
            && stem.len() > 0,
{
    let suffix = "Service"@;
    let split = ident.len() - suffix.len();
    if stem_of(ident) == Ok::<Seq<char>, ServiceError>(stem) {
        assert(ident =~= stem + suffix);
    }
    if ident == stem + suffix {
        assert(ident.subrange(split, ident.len() as int) =~= suffix);
        assert(ident.subrange(0, split) =~= stem);
    }
}

proof fn lemma_stem(ident: Seq<char>)
    ensures
        stem_of(ident) is Ok <==> exists|stem: Seq<char>|
            stem.len() > 0 && ident == #[trigger] (stem + "Service"@),
{
    if stem_of(ident) is Ok {
        law_stem_is_name_without_suffix(ident, stem_of(ident)->Ok_0);
    }
    if exists|stem: Seq<char>| stem.len() > 0 && ident == #[trigger] (stem + "Service"@) {
        let stem = choose|stem: Seq<char>|
            stem.len() > 0 && ident == #[trigger] (stem + "Service"@);
        law_stem_is_name_without_suffix(ident, stem);
    }
}

proof fn lemma_later_inputs(inputs: Seq<InputShape>, end: int)
    requires
        end <= inputs.len(),
    ensures
        later_input_faults(inputs, end).len() == 0 <==> forall|i: int|
            1 <= i < end ==> owned_argument(#[trigger] inputs[i]),
    decreases end,
{
    if end > 1 {
        lemma_later_inputs(inputs, end - 1);
        let last = inputs[end - 1];
        assert(input_faults(last, end - 1).len() == 0 <==> owned_argument(last));
    }
}

proof fn lemma_method(method: MethodShape)
    ensures
        method_faults(method).len() == 0 <==> well_formed_method(method),
{
    lemma_later_inputs(method.inputs, method.inputs.len() as int);
}

proof fn lemma_items(items: Seq<Option<MethodShape>>, end: int)
    requires
        end <= items.len(),
    ensures
        items_errors(items, end).len() == 0 <==> forall|i: int|
            0 <= i < end ==> service_item(#[trigger] items[i]),
    decreases end,
{
    if end > 0 {
        lemma_items(items, end - 1);
        let last = items[end - 1];
        if last is Some {
            lemma_method(last->0);
        }
        assert(item_errors(last, end - 1).len() == 0 <==> service_item(last));
    }
}

} // verus!
