//! What is reported of a trait that is no service, and what a service takes
//! over from its trait.

use vstd::prelude::*;

use crate::codegen::casing::WordCase;
use crate::codegen::parse::{
    declared_errors, first_input_faults, head_errors, input_faults, is_argument, is_item,
    item_errors, items_errors, later_input_faults, law_stem_is_name_without_suffix,
    method_faults, plain_name, signature_faults, stem_of, trait_errors, MethodFault,
    ReturnKind, ServiceArg, ServiceError, ServiceMethod, ServiceTrait,
};
use crate::codegen::syntax::{InputShape, MethodShape, TraitShape};
use crate::error::ErrorText;

verus! {

/// Whether a function has what `fault` names.
pub open spec fn has_fault(method: MethodShape, fault: MethodFault) -> bool {
    match fault {
        MethodFault::InvalidVariant => !crate::codegen::casing::is_name(
            crate::codegen::casing::cased(method.ident, WordCase::Pascal),
        ) && forall|other: MethodFault|
            other != MethodFault::InvalidVariant ==> !#[trigger] has_signature_fault(method, other),
        _ => has_signature_fault(method, fault),
    }
}

/// Whether the signature of a function has what `fault` names.
pub open spec fn has_signature_fault(method: MethodShape, fault: MethodFault) -> bool {
    let first = method.inputs[0];
    match fault {
        MethodFault::DefaultBody => method.has_body,
        MethodFault::Const => method.is_const,
        MethodFault::Unsafe => method.is_unsafe,
        MethodFault::Abi => method.has_abi,
        MethodFault::Variadic => method.is_variadic,
        MethodFault::Generics => method.generics > 0,
        MethodFault::WhereClause => method.has_where,
        MethodFault::NoSelf => method.inputs.len() == 0,
        MethodFault::FirstNotSelf => method.inputs.len() > 0 && first is Typed,
        MethodFault::SelfByValue => method.inputs.len() > 0 && (first matches InputShape::Receiver(r)
            && !r.by_reference),
        MethodFault::SelfMutable => method.inputs.len() > 0 && (first matches InputShape::Receiver(r)
            && r.is_mut),
        MethodFault::SelfLifetime => method.inputs.len() > 0 && (
        first matches InputShape::Receiver(r) && r.has_lifetime),
        MethodFault::SelfTyped => method.inputs.len() > 0 && (first matches InputShape::Receiver(r)
            && r.has_type),
        MethodFault::LateSelf { input } => 1 <= input < method.inputs.len()
            && method.inputs[input as int] is Receiver,
        MethodFault::NotAName { input } => 1 <= input < method.inputs.len() && (
        method.inputs[input as int] matches InputShape::Typed(t) && plain_name(t) is None),
        MethodFault::Borrowed { input } => 1 <= input < method.inputs.len() && (
        method.inputs[input as int] matches InputShape::Typed(t) && t.is_reference),
        MethodFault::InvalidVariant => false,
    }
}

proof fn lemma_when<T>(present: bool, item: T, other: T)
    ensures
        crate::codegen::parse::when(present, item).contains(other) <==> present && item == other,
{
    if present && item == other {
        assert(crate::codegen::parse::when(present, item)[0] == other);
    }
}

proof fn lemma_contains_add<T>(a: Seq<T>, b: Seq<T>, item: T)
    ensures
        (a + b).contains(item) <==> a.contains(item) || b.contains(item),
{
    if a.contains(item) {
        let i = choose|i: int| 0 <= i < a.len() && a[i] == item;
        assert((a + b)[i] == item);
    }
    if b.contains(item) {
        let i = choose|i: int| 0 <= i < b.len() && b[i] == item;
        assert((a + b)[a.len() + i] == item);
    }
    if (a + b).contains(item) {
        let i = choose|i: int| 0 <= i < (a + b).len() && (a + b)[i] == item;
        if i < a.len() {
            assert(a[i] == item);
        } else {
            assert(b[i - a.len()] == item);
        }
    }
}

proof fn lemma_later_faults(inputs: Seq<InputShape>, end: int, fault: MethodFault)
    requires
        end <= inputs.len() <= usize::MAX,
    ensures
        later_input_faults(inputs, end).contains(fault) <==> match fault {
            MethodFault::LateSelf { input } => 1 <= input < end && inputs[input as int] is Receiver,
            MethodFault::NotAName { input } => 1 <= input < end && (
            inputs[input as int] matches InputShape::Typed(t) && plain_name(t) is None),
            MethodFault::Borrowed { input } => 1 <= input < end && (
            inputs[input as int] matches InputShape::Typed(t) && t.is_reference),
            _ => false,
        },
    decreases end,
{
    if end > 1 {
        lemma_later_faults(inputs, end - 1, fault);
        let input = (end - 1) as usize;
        let added = input_faults(inputs[end - 1], end - 1);
        lemma_contains_add(later_input_faults(inputs, end - 1), added, fault);
        match inputs[end - 1] {
            InputShape::Receiver(_) => {
                lemma_when(true, MethodFault::LateSelf { input }, fault);
                assert(added == crate::codegen::parse::when(true, MethodFault::LateSelf { input }));
            },
            InputShape::Typed(typed) => {
                let unnamed = plain_name(typed) is None;
                lemma_when(unnamed, MethodFault::NotAName { input }, fault);
                lemma_when(typed.is_reference, MethodFault::Borrowed { input }, fault);
                lemma_contains_add(
                    crate::codegen::parse::when(unnamed, MethodFault::NotAName { input }),
                    crate::codegen::parse::when(typed.is_reference, MethodFault::Borrowed { input }),
                    fault,
                );
            },
        }
    }
}

proof fn lemma_first_faults(inputs: Seq<InputShape>, fault: MethodFault)
    ensures
        first_input_faults(inputs).contains(fault) <==> match fault {
            MethodFault::NoSelf => inputs.len() == 0,
            MethodFault::FirstNotSelf => inputs.len() > 0 && inputs[0] is Typed,
            MethodFault::SelfByValue => inputs.len() > 0 && (inputs[0] matches InputShape::Receiver(
                r,
            ) && !r.by_reference),
            MethodFault::SelfMutable => inputs.len() > 0 && (inputs[0] matches InputShape::Receiver(
                r,
            ) && r.is_mut),
            MethodFault::SelfLifetime => inputs.len() > 0 && (
            inputs[0] matches InputShape::Receiver(r) && r.has_lifetime),
            MethodFault::SelfTyped => inputs.len() > 0 && (inputs[0] matches InputShape::Receiver(r)
                && r.has_type),
            _ => false,
        },
{
    if inputs.len() == 0 {
        lemma_when(true, MethodFault::NoSelf, fault);
        assert(first_input_faults(inputs) == crate::codegen::parse::when(true, MethodFault::NoSelf));
    } else {
        match inputs[0] {
            InputShape::Receiver(r) => {
                let a = crate::codegen::parse::when(!r.by_reference, MethodFault::SelfByValue);
                let b = crate::codegen::parse::when(r.is_mut, MethodFault::SelfMutable);
                let c = crate::codegen::parse::when(r.has_lifetime, MethodFault::SelfLifetime);
                let d = crate::codegen::parse::when(r.has_type, MethodFault::SelfTyped);
                lemma_when(!r.by_reference, MethodFault::SelfByValue, fault);
                lemma_when(r.is_mut, MethodFault::SelfMutable, fault);
                lemma_when(r.has_lifetime, MethodFault::SelfLifetime, fault);
                lemma_when(r.has_type, MethodFault::SelfTyped, fault);
                lemma_contains_add(a, b, fault);
                lemma_contains_add(a + b, c, fault);
                lemma_contains_add(a + b + c, d, fault);
            },
            InputShape::Typed(_) => {
                lemma_when(true, MethodFault::FirstNotSelf, fault);
                assert(first_input_faults(inputs) == crate::codegen::parse::when(true, MethodFault::FirstNotSelf));
            },
        }
    }
}

proof fn lemma_signature_faults(method: MethodShape, fault: MethodFault)
    requires
        method.inputs.len() <= usize::MAX,
    ensures
        signature_faults(method).contains(fault) <==> has_signature_fault(method, fault),
{
    let a = crate::codegen::parse::when(method.has_body, MethodFault::DefaultBody);
    let b = crate::codegen::parse::when(method.is_const, MethodFault::Const);
    let c = crate::codegen::parse::when(method.is_unsafe, MethodFault::Unsafe);
    let d = crate::codegen::parse::when(method.has_abi, MethodFault::Abi);
    let e = crate::codegen::parse::when(method.is_variadic, MethodFault::Variadic);
    let f = crate::codegen::parse::when(method.generics > 0, MethodFault::Generics);
    let g = crate::codegen::parse::when(method.has_where, MethodFault::WhereClause);
    let first = first_input_faults(method.inputs);
    let later = later_input_faults(method.inputs, method.inputs.len() as int);
    lemma_when(method.has_body, MethodFault::DefaultBody, fault);
    lemma_when(method.is_const, MethodFault::Const, fault);
    lemma_when(method.is_unsafe, MethodFault::Unsafe, fault);
    lemma_when(method.has_abi, MethodFault::Abi, fault);
    lemma_when(method.is_variadic, MethodFault::Variadic, fault);
    lemma_when(method.generics > 0, MethodFault::Generics, fault);
    lemma_when(method.has_where, MethodFault::WhereClause, fault);
    lemma_first_faults(method.inputs, fault);
    lemma_later_faults(method.inputs, method.inputs.len() as int, fault);
    lemma_contains_add(a, b, fault);
    lemma_contains_add(a + b, c, fault);
    lemma_contains_add(a + b + c, d, fault);
    lemma_contains_add(a + b + c + d, e, fault);
    lemma_contains_add(a + b + c + d + e, f, fault);
    lemma_contains_add(a + b + c + d + e + f, g, fault);
    lemma_contains_add(a + b + c + d + e + f + g, first, fault);
    lemma_contains_add(a + b + c + d + e + f + g + first, later, fault);
}

/// Exactly the faults that a function has are reported, each for what it is.
pub proof fn law_every_fault_is_reported(method: MethodShape, fault: MethodFault)
    requires
        method.inputs.len() <= usize::MAX,
    ensures
        method_faults(method).contains(fault) <==> has_fault(method, fault),
{
    lemma_signature_faults(method, fault);
    let faults = signature_faults(method);
    let invalid = seq![MethodFault::InvalidVariant];
    lemma_when(true, MethodFault::InvalidVariant, fault);
    assert(crate::codegen::parse::when(true, MethodFault::InvalidVariant) == invalid);
    if faults.len() == 0 {
        assert forall|other: MethodFault| other != MethodFault::InvalidVariant implies
            !#[trigger] has_signature_fault(method, other) by {
            lemma_signature_faults(method, other);
        }
    } else {
        let found = faults[0];
        assert(faults.contains(found));
        lemma_signature_faults(method, found);
        assert(has_signature_fault(method, found) && found != MethodFault::InvalidVariant);
    }
}

/// Whether a trait has what `error` names, but for names that are derived from
/// its own.
pub open spec fn has_error(shape: TraitShape, error: ServiceError) -> bool {
    match error {
        ServiceError::TraitGenerics => shape.generics > 0,
        ServiceError::TraitWhereClause => shape.has_where,
        ServiceError::Supertraits => shape.supertraits > 0,
        ServiceError::UnsafeTrait => shape.is_unsafe,
        ServiceError::AutoTrait => shape.is_auto,
        ServiceError::NotNamedService => forall|stem: Seq<char>|
            shape.ident != #[trigger] (stem + "Service"@),
        ServiceError::EmptyStem => shape.ident == "Service"@,
        ServiceError::InvalidStem => false,
        ServiceError::NotAFunction { item } => item < shape.items.len()
            && shape.items[item as int] is None,
        ServiceError::Method { item, fault } => item < shape.items.len() && (
        shape.items[item as int] matches Some(method) && has_fault(method, fault)),
    }
}

proof fn lemma_items_reported(items: Seq<Option<MethodShape>>, end: int, error: ServiceError)
    requires
        0 <= end <= items.len() <= usize::MAX,
        forall|i: int|
            0 <= i < items.len() ==> (#[trigger] items[i] matches Some(m) ==> m.inputs.len()
                <= usize::MAX),
    ensures
        items_errors(items, end).contains(error) <==> match error {
            ServiceError::NotAFunction { item } => item < end && items[item as int] is None,
            ServiceError::Method { item, fault } => item < end && (
            items[item as int] matches Some(method) && has_fault(method, fault)),
            _ => false,
        },
    decreases end,
{
    if end > 0 {
        lemma_items_reported(items, end - 1, error);
        let added = item_errors(items[end - 1], end - 1);
        let item = (end - 1) as usize;
        lemma_contains_add(items_errors(items, end - 1), added, error);
        match items[end - 1] {
            Some(method) => {
                let faults = method_faults(method);
                if let ServiceError::Method { item: at, fault } = error {
                    law_every_fault_is_reported(method, fault);
                    if faults.contains(fault) && at == item {
                        let k = choose|k: int| 0 <= k < faults.len() && faults[k] == fault;
                        assert(added[k] == error);
                    }
                }
                if added.contains(error) {
                    let k = choose|k: int| 0 <= k < added.len() && added[k] == error;
                    assert(error == ServiceError::Method { item, fault: faults[k] });
                    assert(faults.contains(faults[k]));
                }
            },
            None => {
                lemma_when(true, ServiceError::NotAFunction { item }, error);
                assert(added == crate::codegen::parse::when(true, ServiceError::NotAFunction { item }));
            },
        }
    }
}

proof fn lemma_stem_reported(ident: Seq<char>)
    ensures
        stem_of(ident) == Err::<Seq<char>, ServiceError>(ServiceError::NotNamedService) <==> forall|
            stem: Seq<char>,
        |
            ident != #[trigger] (stem + "Service"@),
        stem_of(ident) == Err::<Seq<char>, ServiceError>(ServiceError::EmptyStem) <==> ident
            == "Service"@,
{
    let suffix = "Service"@;
    let split = ident.len() - suffix.len();
    if stem_of(ident) != Err::<Seq<char>, ServiceError>(ServiceError::NotNamedService) {
        assert(ident =~= ident.subrange(0, split) + suffix);
        if ident.subrange(0, split).len() == 0 {
            assert(ident =~= suffix);
        }
    }
    assert forall|stem: Seq<char>| ident == #[trigger] (stem + suffix) implies stem_of(ident)
        != Err::<Seq<char>, ServiceError>(ServiceError::NotNamedService) by {
        assert(ident.subrange(split, ident.len() as int) =~= suffix);
    }
    if ident == suffix {
        assert(ident =~= Seq::<char>::empty() + suffix);
        assert(ident.subrange(split, ident.len() as int) =~= suffix);
    }
}

/// Exactly the errors that a trait has are reported, all of them at once, and
/// each for the item that it concerns. Whether derived names are names is asked
/// last, of a trait that has no other error.
pub proof fn law_every_error_is_reported(shape: TraitShape, error: ServiceError)
    requires
        shape.items.len() <= usize::MAX,
        forall|i: int|
            0 <= i < shape.items.len() ==> (#[trigger] shape.items[i] matches Some(m)
                ==> m.inputs.len() <= usize::MAX),
    ensures
        error != ServiceError::InvalidStem ==> (trait_errors(shape).contains(error) <==> has_error(
            shape,
            error,
        )),
        trait_errors(shape).contains(ServiceError::InvalidStem) <==> trait_errors(shape) == seq![
            ServiceError::InvalidStem,
        ],
{
    lemma_declared(shape, error);
    lemma_declared(shape, ServiceError::InvalidStem);
    let invalid = seq![ServiceError::InvalidStem];
    assert(invalid[0] == ServiceError::InvalidStem);
    lemma_when(true, ServiceError::InvalidStem, error);
    assert(crate::codegen::parse::when(true, ServiceError::InvalidStem) == invalid);
}

proof fn lemma_declared(shape: TraitShape, error: ServiceError)
    requires
        shape.items.len() <= usize::MAX,
        forall|i: int|
            0 <= i < shape.items.len() ==> (#[trigger] shape.items[i] matches Some(m)
                ==> m.inputs.len() <= usize::MAX),
    ensures
        declared_errors(shape).contains(error) <==> has_error(shape, error),
{
    let a = crate::codegen::parse::when(shape.generics > 0, ServiceError::TraitGenerics);
    let b = crate::codegen::parse::when(shape.has_where, ServiceError::TraitWhereClause);
    let c = crate::codegen::parse::when(shape.supertraits > 0, ServiceError::Supertraits);
    let d = crate::codegen::parse::when(shape.is_unsafe, ServiceError::UnsafeTrait);
    let e = crate::codegen::parse::when(shape.is_auto, ServiceError::AutoTrait);
    let named = match stem_of(shape.ident) {
        Ok(_) => Seq::empty(),
        Err(e) => seq![e],
    };
    lemma_stem_reported(shape.ident);
    lemma_when(shape.generics > 0, ServiceError::TraitGenerics, error);
    lemma_when(shape.has_where, ServiceError::TraitWhereClause, error);
    lemma_when(shape.supertraits > 0, ServiceError::Supertraits, error);
    lemma_when(shape.is_unsafe, ServiceError::UnsafeTrait, error);
    lemma_when(shape.is_auto, ServiceError::AutoTrait, error);
    if let Err(fault) = stem_of(shape.ident) {
        lemma_when(true, fault, error);
        assert(named == crate::codegen::parse::when(true, fault));
    }
    lemma_contains_add(a, b, error);
    lemma_contains_add(a + b, c, error);
    lemma_contains_add(a + b + c, d, error);
    lemma_contains_add(a + b + c + d, e, error);
    lemma_contains_add(a + b + c + d + e, named, error);
    lemma_items_reported(shape.items, shape.items.len() as int, error);
    lemma_contains_add(
        head_errors(shape),
        items_errors(shape.items, shape.items.len() as int),
        error,
    );
}

/// Whether `item` is a function that declares `method`.
pub open spec fn declares_function(item: Option<MethodShape>, method: ServiceMethod) -> bool {
    item is Some && method.sig.ident@ == item->0.ident && method.is_method(item->0)
}

/// A service is what its trait declares: the same visibility, the name but for
/// `Service`, and its functions in their order.
pub proof fn law_service_is_what_the_trait_declares(svc: ServiceTrait, shape: TraitShape)
    requires
        svc.is_service(shape),
    ensures
        svc.vis@ == shape.vis,
        svc.item.ident@ == shape.ident,
        svc.item.text@ == shape.text,
        svc.stem@ + "Service"@ == shape.ident,
        svc.stem@.len() > 0,
        svc.methods@.len() == shape.items.len(),
        forall|i: int|
            0 <= i < svc.methods@.len() ==> #[trigger] declares_function(
                shape.items[i],
                svc.methods@[i],
            ),
{
    law_stem_is_name_without_suffix(shape.ident, svc.stem@);
    assert forall|i: int| 0 <= i < svc.methods@.len() implies #[trigger] declares_function(
        shape.items[i],
        svc.methods@[i],
    ) by {
        assert(is_item(svc.methods@[i], shape.items[i]));
    }
}

/// Whether `input` is a parameter with the name and the type of `arg`.
pub open spec fn declares_argument(input: InputShape, arg: ServiceArg) -> bool {
    match input {
        InputShape::Receiver(_) => false,
        InputShape::Typed(typed) => match typed.binding {
            Some(binding) => binding.ident == arg.ident@ && typed.ty == arg.ty@,
            None => false,
        },
    }
}

/// A function of a service is what the trait's function declares: its name, its
/// parameters behind `&self` with their names and types, in their order, its
/// return type, and whether it is `async`.
pub proof fn law_function_is_what_the_trait_declares(method: ServiceMethod, shape: MethodShape)
    requires
        method.is_method(shape),
    ensures
        method.sig.ident@ == shape.ident,
        method.sig.params@ == shape.params,
        method.is_async == shape.is_async,
        method.args@.len() + 1 == shape.inputs.len(),
        forall|j: int|
            0 <= j < method.args@.len() ==> #[trigger] declares_argument(
                shape.inputs[j + 1],
                method.args@[j],
            ),
        shape.output is None <==> method.ret is Unit,
        shape.output matches Some(ty) ==> (method.ret matches ReturnKind::Type(t) && t@ == ty),
{
    assert forall|j: int| 0 <= j < method.args@.len() implies #[trigger] declares_argument(
        shape.inputs[j + 1],
        method.args@[j],
    ) by {
        assert(is_argument(method.args@[j], shape.inputs[j + 1]));
    }
}

/// Where in a function the cause of a fault stands: what stands before its
/// parameters, `self`, the other parameters in their order, and last its name.
pub open spec fn fault_place(fault: MethodFault) -> int {
    match fault {
        MethodFault::DefaultBody => 0,
        MethodFault::Const => 1,
        MethodFault::Unsafe => 2,
        MethodFault::Abi => 3,
        MethodFault::Variadic => 4,
        MethodFault::Generics => 5,
        MethodFault::WhereClause => 6,
        MethodFault::NoSelf | MethodFault::FirstNotSelf | MethodFault::SelfByValue => 7,
        MethodFault::SelfMutable => 8,
        MethodFault::SelfLifetime => 9,
        MethodFault::SelfTyped => 10,
        MethodFault::LateSelf { input } | MethodFault::NotAName { input } => 11 + 2 * input,
        MethodFault::Borrowed { input } => 12 + 2 * input,
        MethodFault::InvalidVariant => -1,
    }
}

/// Where in a trait the cause of an error stands: its head, or an item.
pub open spec fn error_place(error: ServiceError) -> int {
    match error {
        ServiceError::TraitGenerics => -6,
        ServiceError::TraitWhereClause => -5,
        ServiceError::Supertraits => -4,
        ServiceError::UnsafeTrait => -3,
        ServiceError::AutoTrait => -2,
        ServiceError::NotNamedService | ServiceError::EmptyStem | ServiceError::InvalidStem => -1,
        ServiceError::NotAFunction { item } | ServiceError::Method { item, .. } => item as int,
    }
}

/// Whether the places of `list` only go up.
pub open spec fn ordered<T>(list: Seq<T>, place: spec_fn(T) -> int) -> bool {
    forall|i: int, j: int|
        0 <= i < j < list.len() ==> place(#[trigger] list[i]) <= place(#[trigger] list[j])
}

/// Whether the places of `list` are from `low` and below `high`.
pub open spec fn between<T>(list: Seq<T>, place: spec_fn(T) -> int, low: int, high: int) -> bool {
    forall|i: int| 0 <= i < list.len() ==> low <= place(#[trigger] list[i]) < high
}

proof fn lemma_ordered_add<T>(
    a: Seq<T>,
    b: Seq<T>,
    place: spec_fn(T) -> int,
    low: int,
    middle: int,
    high: int,
)
    requires
        ordered(a, place),
        ordered(b, place),
        between(a, place, low, middle),
        between(b, place, middle, high),
        low <= middle <= high,
    ensures
        ordered(a + b, place),
        between(a + b, place, low, high),
{
    let both = a + b;
    assert forall|i: int| 0 <= i < both.len() implies low <= place(#[trigger] both[i]) < high by {
        if i < a.len() {
            assert(both[i] == a[i]);
        } else {
            assert(both[i] == b[i - a.len()]);
        }
    }
    assert forall|i: int, j: int| 0 <= i < j < both.len() implies place(#[trigger] both[i])
        <= place(#[trigger] both[j]) by {
        if j < a.len() {
            assert(both[i] == a[i] && both[j] == a[j]);
        } else if i < a.len() {
            assert(both[i] == a[i] && both[j] == b[j - a.len()]);
        } else {
            assert(both[i] == b[i - a.len()] && both[j] == b[j - a.len()]);
        }
    }
}

proof fn lemma_later_ordered(inputs: Seq<InputShape>, end: int)
    requires
        1 <= end <= inputs.len() <= usize::MAX,
    ensures
        ordered(later_input_faults(inputs, end), |f: MethodFault| fault_place(f)),
        between(later_input_faults(inputs, end), |f: MethodFault| fault_place(f), 11, 11 + 2 * end),
    decreases end,
{
    let place = |f: MethodFault| fault_place(f);
    if end > 1 {
        lemma_later_ordered(inputs, end - 1);
        let added = input_faults(inputs[end - 1], end - 1);
        assert(ordered(added, place));
        assert(between(added, place, 11 + 2 * (end - 1), 11 + 2 * end));
        lemma_ordered_add(
            later_input_faults(inputs, end - 1),
            added,
            place,
            11,
            11 + 2 * (end - 1),
            11 + 2 * end,
        );
    }
}

proof fn lemma_when_ordered<T>(present: bool, item: T, place: spec_fn(T) -> int, low: int, high: int)
    requires
        low <= place(item) < high,
    ensures
        ordered(crate::codegen::parse::when(present, item), place),
        between(crate::codegen::parse::when(present, item), place, low, high),
{
}

proof fn lemma_marks_ordered(method: MethodShape)
    ensures
        ({
            let place = |f: MethodFault| fault_place(f);
            let faults = crate::codegen::parse::when(method.has_body, MethodFault::DefaultBody) + crate::codegen::parse::when(
                method.is_const,
                MethodFault::Const,
            ) + crate::codegen::parse::when(method.is_unsafe, MethodFault::Unsafe) + crate::codegen::parse::when(
                method.has_abi,
                MethodFault::Abi,
            ) + crate::codegen::parse::when(method.is_variadic, MethodFault::Variadic) + crate::codegen::parse::when(
                method.generics > 0,
                MethodFault::Generics,
            ) + crate::codegen::parse::when(method.has_where, MethodFault::WhereClause);
            ordered(faults, place) && between(faults, place, 0, 7)
        }),
{
    let place = |f: MethodFault| fault_place(f);
    let a = crate::codegen::parse::when(method.has_body, MethodFault::DefaultBody);
    let b = crate::codegen::parse::when(method.is_const, MethodFault::Const);
    let c = crate::codegen::parse::when(method.is_unsafe, MethodFault::Unsafe);
    let d = crate::codegen::parse::when(method.has_abi, MethodFault::Abi);
    let e = crate::codegen::parse::when(method.is_variadic, MethodFault::Variadic);
    let f = crate::codegen::parse::when(method.generics > 0, MethodFault::Generics);
    let g = crate::codegen::parse::when(method.has_where, MethodFault::WhereClause);
    lemma_when_ordered(method.has_body, MethodFault::DefaultBody, place, 0, 1);
    lemma_when_ordered(method.is_const, MethodFault::Const, place, 1, 2);
    lemma_when_ordered(method.is_unsafe, MethodFault::Unsafe, place, 2, 3);
    lemma_when_ordered(method.has_abi, MethodFault::Abi, place, 3, 4);
    lemma_when_ordered(method.is_variadic, MethodFault::Variadic, place, 4, 5);
    lemma_when_ordered(method.generics > 0, MethodFault::Generics, place, 5, 6);
    lemma_when_ordered(method.has_where, MethodFault::WhereClause, place, 6, 7);
    lemma_ordered_add(a, b, place, 0, 1, 2);
    lemma_ordered_add(a + b, c, place, 0, 2, 3);
    lemma_ordered_add(a + b + c, d, place, 0, 3, 4);
    lemma_ordered_add(a + b + c + d, e, place, 0, 4, 5);
    lemma_ordered_add(a + b + c + d + e, f, place, 0, 5, 6);
    lemma_ordered_add(a + b + c + d + e + f, g, place, 0, 6, 7);
}

proof fn lemma_first_ordered(inputs: Seq<InputShape>)
    ensures
        ordered(first_input_faults(inputs), |f: MethodFault| fault_place(f)),
        between(first_input_faults(inputs), |f: MethodFault| fault_place(f), 7, 11),
{
    let place = |f: MethodFault| fault_place(f);
    if inputs.len() > 0 {
        if let InputShape::Receiver(r) = inputs[0] {
            let a = crate::codegen::parse::when(!r.by_reference, MethodFault::SelfByValue);
            let b = crate::codegen::parse::when(r.is_mut, MethodFault::SelfMutable);
            let c = crate::codegen::parse::when(r.has_lifetime, MethodFault::SelfLifetime);
            let d = crate::codegen::parse::when(r.has_type, MethodFault::SelfTyped);
            lemma_when_ordered(!r.by_reference, MethodFault::SelfByValue, place, 7, 8);
            lemma_when_ordered(r.is_mut, MethodFault::SelfMutable, place, 8, 9);
            lemma_when_ordered(r.has_lifetime, MethodFault::SelfLifetime, place, 9, 10);
            lemma_when_ordered(r.has_type, MethodFault::SelfTyped, place, 10, 11);
            lemma_ordered_add(a, b, place, 7, 8, 9);
            lemma_ordered_add(a + b, c, place, 7, 9, 10);
            lemma_ordered_add(a + b + c, d, place, 7, 10, 11);
        }
    }
}

/// The faults of a function are reported in the order in which their causes
/// stand in it.
pub proof fn law_faults_are_reported_in_order(method: MethodShape)
    requires
        method.inputs.len() <= usize::MAX,
    ensures
        ordered(method_faults(method), |f: MethodFault| fault_place(f)),
{
    let place = |f: MethodFault| fault_place(f);
    let marks = crate::codegen::parse::when(method.has_body, MethodFault::DefaultBody) + crate::codegen::parse::when(
        method.is_const,
        MethodFault::Const,
    ) + crate::codegen::parse::when(method.is_unsafe, MethodFault::Unsafe) + crate::codegen::parse::when(method.has_abi, MethodFault::Abi)
        + crate::codegen::parse::when(method.is_variadic, MethodFault::Variadic) + crate::codegen::parse::when(
        method.generics > 0,
        MethodFault::Generics,
    ) + crate::codegen::parse::when(method.has_where, MethodFault::WhereClause);
    let first = first_input_faults(method.inputs);
    let len = method.inputs.len() as int;
    let later = later_input_faults(method.inputs, len);
    lemma_marks_ordered(method);
    lemma_first_ordered(method.inputs);
    lemma_ordered_add(marks, first, place, 0, 7, 11);
    if len > 0 {
        lemma_later_ordered(method.inputs, len);
    }
    lemma_ordered_add(marks + first, later, place, 0, 11, 11 + 2 * len);
    assert(method_faults(method) == signature_faults(method) || method_faults(method).len() == 1);
}

proof fn lemma_items_ordered(items: Seq<Option<MethodShape>>, end: int)
    requires
        0 <= end <= items.len() <= usize::MAX,
    ensures
        ordered(items_errors(items, end), |e: ServiceError| error_place(e)),
        between(items_errors(items, end), |e: ServiceError| error_place(e), 0, end),
    decreases end,
{
    let place = |e: ServiceError| error_place(e);
    if end > 0 {
        lemma_items_ordered(items, end - 1);
        let added = item_errors(items[end - 1], end - 1);
        assert(between(added, place, end - 1, end));
        assert(ordered(added, place));
        lemma_ordered_add(items_errors(items, end - 1), added, place, 0, end - 1, end);
    }
}

/// The errors of a trait are reported in the order in which their causes stand
/// in it: those of its head first, then those of its items, item by item.
pub proof fn law_errors_are_reported_in_order(shape: TraitShape)
    requires
        shape.items.len() <= usize::MAX,
    ensures
        ordered(trait_errors(shape), |e: ServiceError| error_place(e)),
{
    let place = |e: ServiceError| error_place(e);
    let a = crate::codegen::parse::when(shape.generics > 0, ServiceError::TraitGenerics);
    let b = crate::codegen::parse::when(shape.has_where, ServiceError::TraitWhereClause);
    let c = crate::codegen::parse::when(shape.supertraits > 0, ServiceError::Supertraits);
    let d = crate::codegen::parse::when(shape.is_unsafe, ServiceError::UnsafeTrait);
    let e = crate::codegen::parse::when(shape.is_auto, ServiceError::AutoTrait);
    let named = match stem_of(shape.ident) {
        Ok(_) => Seq::empty(),
        Err(e) => seq![e],
    };
    lemma_ordered_add(a, b, place, -6, -5, -4);
    lemma_ordered_add(a + b, c, place, -6, -4, -3);
    lemma_ordered_add(a + b + c, d, place, -6, -3, -2);
    lemma_ordered_add(a + b + c + d, e, place, -6, -2, -1);
    lemma_ordered_add(a + b + c + d + e, named, place, -6, -1, 0);
    let len = shape.items.len() as int;
    lemma_items_ordered(shape.items, len);
    lemma_ordered_add(
        head_errors(shape),
        items_errors(shape.items, len),
        place,
        -6,
        0,
        len,
    );
    assert(trait_errors(shape) == declared_errors(shape) || trait_errors(shape).len() == 1);
}

/// Whether `word` stands in `text` from the character `at` on.
pub open spec fn stands_at(text: Seq<char>, word: Seq<char>, at: int) -> bool {
    &&& 0 <= at <= at + word.len() <= text.len()
    &&& text.subrange(at, at + word.len()) == word
}

/// Whether `word` stands in `text`.
pub open spec fn mentions(text: Seq<char>, word: Seq<char>) -> bool {
    exists|at: int| #[trigger] stands_at(text, word, at)
}

/// Whether `text` starts with the name of the attribute.
pub open spec fn is_headed(text: Seq<char>) -> bool {
    text.len() >= 17 && text.take(17) == "myelin::service: "@
}

/// What the text for a fault is about.
pub open spec fn fault_subject(fault: MethodFault) -> Seq<char> {
    match fault {
        MethodFault::DefaultBody => "default body"@,
        MethodFault::Const => "const fn"@,
        MethodFault::Unsafe => "unsafe fn"@,
        MethodFault::Abi => "extern fn"@,
        MethodFault::Variadic => "variadic fn"@,
        MethodFault::Generics => "method generics"@,
        MethodFault::WhereClause => "where-clauses on methods"@,
        MethodFault::SelfByValue => "(not `self`)"@,
        MethodFault::SelfMutable => "(not `&mut self`)"@,
        MethodFault::SelfLifetime => "explicit lifetimes on `&self`"@,
        MethodFault::SelfTyped => "no explicit type"@,
        MethodFault::FirstNotSelf => "first argument must be `&self`"@,
        MethodFault::NoSelf => "must take `&self`"@,
        MethodFault::LateSelf { .. } => "may only appear as the first argument"@,
        MethodFault::NotAName { .. } => "plain `ident: Type`"@,
        MethodFault::Borrowed { .. } => "must be owned"@,
        MethodFault::InvalidVariant => "variant name of this method"@,
    }
}

/// The text for a fault names the attribute, and says what is wrong.
pub proof fn law_fault_text_says_what_is_wrong(fault: MethodFault)
    ensures
        is_headed(fault.text()),
        mentions(fault.text(), fault_subject(fault)),
{
    let text = fault.text();
    match fault {
        MethodFault::DefaultBody => {
            reveal_strlit("myelin::service: trait methods must not have a default body");
            reveal_strlit("default body");
            reveal_strlit("myelin::service: ");
            assert(text.subrange(47, 59) =~= "default body"@);
            assert(stands_at(text, "default body"@, 47));
            assert(text.take(17) =~= "myelin::service: "@);
        },
        MethodFault::Const => {
            reveal_strlit("myelin::service: const fn not supported");
            reveal_strlit("const fn");
            reveal_strlit("myelin::service: ");
            assert(text.subrange(17, 25) =~= "const fn"@);
            assert(stands_at(text, "const fn"@, 17));
            assert(text.take(17) =~= "myelin::service: "@);
        },
        MethodFault::Unsafe => {
            reveal_strlit("myelin::service: unsafe fn not supported");
            reveal_strlit("unsafe fn");
            reveal_strlit("myelin::service: ");
            assert(text.subrange(17, 26) =~= "unsafe fn"@);
            assert(stands_at(text, "unsafe fn"@, 17));
            assert(text.take(17) =~= "myelin::service: "@);
        },
        MethodFault::Abi => {
            reveal_strlit("myelin::service: extern fn not supported");
            reveal_strlit("extern fn");
            reveal_strlit("myelin::service: ");
            assert(text.subrange(17, 26) =~= "extern fn"@);
            assert(stands_at(text, "extern fn"@, 17));
            assert(text.take(17) =~= "myelin::service: "@);
        },
        MethodFault::Variadic => {
            reveal_strlit("myelin::service: variadic fn not supported");
            reveal_strlit("variadic fn");
            reveal_strlit("myelin::service: ");
            assert(text.subrange(17, 28) =~= "variadic fn"@);
            assert(stands_at(text, "variadic fn"@, 17));
            assert(text.take(17) =~= "myelin::service: "@);
        },
        MethodFault::Generics => {
            reveal_strlit("myelin::service: method generics are not supported");
            reveal_strlit("method generics");
            reveal_strlit("myelin::service: ");
            assert(text.subrange(17, 32) =~= "method generics"@);
            assert(stands_at(text, "method generics"@, 17));
            assert(text.take(17) =~= "myelin::service: "@);
        },
        MethodFault::WhereClause => {
            reveal_strlit("myelin::service: where-clauses on methods are not supported");
            reveal_strlit("where-clauses on methods");
            reveal_strlit("myelin::service: ");
            assert(text.subrange(17, 41) =~= "where-clauses on methods"@);
            assert(stands_at(text, "where-clauses on methods"@, 17));
            assert(text.take(17) =~= "myelin::service: "@);
        },
        MethodFault::SelfByValue => {
            reveal_strlit("myelin::service: receiver must be `&self` (not `self`)");
            reveal_strlit("(not `self`)");
            reveal_strlit("myelin::service: ");
            assert(text.subrange(42, 54) =~= "(not `self`)"@);
            assert(stands_at(text, "(not `self`)"@, 42));
            assert(text.take(17) =~= "myelin::service: "@);
        },
        MethodFault::SelfMutable => {
            reveal_strlit("myelin::service: receiver must be `&self` (not `&mut self`)");
            reveal_strlit("(not `&mut self`)");
            reveal_strlit("myelin::service: ");
            assert(text.subrange(42, 59) =~= "(not `&mut self`)"@);
            assert(stands_at(text, "(not `&mut self`)"@, 42));
            assert(text.take(17) =~= "myelin::service: "@);
        },
        MethodFault::SelfLifetime => {
            reveal_strlit("myelin::service: explicit lifetimes on `&self` not supported");
            reveal_strlit("explicit lifetimes on `&self`");
            reveal_strlit("myelin::service: ");
            assert(text.subrange(17, 46) =~= "explicit lifetimes on `&self`"@);
            assert(stands_at(text, "explicit lifetimes on `&self`"@, 17));
            assert(text.take(17) =~= "myelin::service: "@);
        },
        MethodFault::SelfTyped => {
            reveal_strlit("myelin::service: receiver must be plain `&self` (no explicit type)");
            reveal_strlit("no explicit type");
            reveal_strlit("myelin::service: ");
            assert(text.subrange(49, 65) =~= "no explicit type"@);
            assert(stands_at(text, "no explicit type"@, 49));
            assert(text.take(17) =~= "myelin::service: "@);
        },
        MethodFault::FirstNotSelf => {
            reveal_strlit("myelin::service: first argument must be `&self`");
            reveal_strlit("first argument must be `&self`");
            reveal_strlit("myelin::service: ");
            assert(text.subrange(17, 47) =~= "first argument must be `&self`"@);
            assert(stands_at(text, "first argument must be `&self`"@, 17));
            assert(text.take(17) =~= "myelin::service: "@);
        },
        MethodFault::NoSelf => {
            reveal_strlit("myelin::service: method must take `&self`");
            reveal_strlit("must take `&self`");
            reveal_strlit("myelin::service: ");
            assert(text.subrange(24, 41) =~= "must take `&self`"@);
            assert(stands_at(text, "must take `&self`"@, 24));
            assert(text.take(17) =~= "myelin::service: "@);
        },
        MethodFault::LateSelf { .. } => {
            reveal_strlit("myelin::service: receiver may only appear as the first argument");
            reveal_strlit("may only appear as the first argument");
            reveal_strlit("myelin::service: ");
            assert(text.subrange(26, 63) =~= "may only appear as the first argument"@);
            assert(stands_at(text, "may only appear as the first argument"@, 26));
            assert(text.take(17) =~= "myelin::service: "@);
        },
        MethodFault::NotAName { .. } => {
            reveal_strlit("myelin::service: argument must be a plain `ident: Type` (no destructuring, `_`, `ref`, or `mut`)");
            reveal_strlit("plain `ident: Type`");
            reveal_strlit("myelin::service: ");
            assert(text.subrange(36, 55) =~= "plain `ident: Type`"@);
            assert(stands_at(text, "plain `ident: Type`"@, 36));
            assert(text.take(17) =~= "myelin::service: "@);
        },
        MethodFault::Borrowed { .. } => {
            reveal_strlit("myelin::service: argument types must be owned (use `String`/`Vec<T>`/... instead of `&str`/`&[T]`)");
            reveal_strlit("must be owned");
            reveal_strlit("myelin::service: ");
            assert(text.subrange(32, 45) =~= "must be owned"@);
            assert(stands_at(text, "must be owned"@, 32));
            assert(text.take(17) =~= "myelin::service: "@);
        },
        MethodFault::InvalidVariant => {
            reveal_strlit("myelin::service: the variant name of this method would not be an identifier");
            reveal_strlit("variant name of this method");
            reveal_strlit("myelin::service: ");
            assert(text.subrange(21, 48) =~= "variant name of this method"@);
            assert(stands_at(text, "variant name of this method"@, 21));
            assert(text.take(17) =~= "myelin::service: "@);
        },
    }
}

/// What the text for an error is about.
pub open spec fn error_subject(error: ServiceError) -> Seq<char> {
    match error {
        ServiceError::TraitGenerics => "trait generics"@,
        ServiceError::TraitWhereClause => "where-clauses on the trait"@,
        ServiceError::Supertraits => "supertraits"@,
        ServiceError::UnsafeTrait => "unsafe traits"@,
        ServiceError::AutoTrait => "auto traits"@,
        ServiceError::NotNamedService => "must end in `Service`"@,
        ServiceError::EmptyStem => "non-empty stem"@,
        ServiceError::InvalidStem => "names derived from this trait"@,
        ServiceError::NotAFunction { .. } => "only `fn` items"@,
        ServiceError::Method { fault, .. } => fault_subject(fault),
    }
}

/// The text for an error names the attribute, and says what is wrong.
pub proof fn law_error_text_says_what_is_wrong(error: ServiceError)
    ensures
        is_headed(error.text()),
        mentions(error.text(), error_subject(error)),
{
    let text = error.text();
    match error {
        ServiceError::TraitGenerics => {
            reveal_strlit("myelin::service: trait generics are not supported in v1");
            reveal_strlit("trait generics");
            reveal_strlit("myelin::service: ");
            assert(text.subrange(17, 31) =~= "trait generics"@);
            assert(stands_at(text, "trait generics"@, 17));
            assert(text.take(17) =~= "myelin::service: "@);
        },
        ServiceError::TraitWhereClause => {
            reveal_strlit("myelin::service: where-clauses on the trait are not supported");
            reveal_strlit("where-clauses on the trait");
            reveal_strlit("myelin::service: ");
            assert(text.subrange(17, 43) =~= "where-clauses on the trait"@);
            assert(stands_at(text, "where-clauses on the trait"@, 17));
            assert(text.take(17) =~= "myelin::service: "@);
        },
        ServiceError::Supertraits => {
            reveal_strlit("myelin::service: supertraits are not supported");
            reveal_strlit("supertraits");
            reveal_strlit("myelin::service: ");
            assert(text.subrange(17, 28) =~= "supertraits"@);
            assert(stands_at(text, "supertraits"@, 17));
            assert(text.take(17) =~= "myelin::service: "@);
        },
        ServiceError::UnsafeTrait => {
            reveal_strlit("myelin::service: unsafe traits are not supported");
            reveal_strlit("unsafe traits");
            reveal_strlit("myelin::service: ");
            assert(text.subrange(17, 30) =~= "unsafe traits"@);
            assert(stands_at(text, "unsafe traits"@, 17));
            assert(text.take(17) =~= "myelin::service: "@);
        },
        ServiceError::AutoTrait => {
            reveal_strlit("myelin::service: auto traits are not supported");
            reveal_strlit("auto traits");
            reveal_strlit("myelin::service: ");
            assert(text.subrange(17, 28) =~= "auto traits"@);
            assert(stands_at(text, "auto traits"@, 17));
            assert(text.take(17) =~= "myelin::service: "@);
        },
        ServiceError::NotNamedService => {
            reveal_strlit("myelin::service: trait name must end in `Service` (e.g. `GreeterService`)");
            reveal_strlit("must end in `Service`");
            reveal_strlit("myelin::service: ");
            assert(text.subrange(28, 49) =~= "must end in `Service`"@);
            assert(stands_at(text, "must end in `Service`"@, 28));
            assert(text.take(17) =~= "myelin::service: "@);
        },
        ServiceError::EmptyStem => {
            reveal_strlit("myelin::service: trait name must have a non-empty stem before `Service`");
            reveal_strlit("non-empty stem");
            reveal_strlit("myelin::service: ");
            assert(text.subrange(40, 54) =~= "non-empty stem"@);
            assert(stands_at(text, "non-empty stem"@, 40));
            assert(text.take(17) =~= "myelin::service: "@);
        },
        ServiceError::InvalidStem => {
            reveal_strlit("myelin::service: the names derived from this trait would not be identifiers");
            reveal_strlit("names derived from this trait");
            reveal_strlit("myelin::service: ");
            assert(text.subrange(21, 50) =~= "names derived from this trait"@);
            assert(stands_at(text, "names derived from this trait"@, 21));
            assert(text.take(17) =~= "myelin::service: "@);
        },
        ServiceError::NotAFunction { .. } => {
            reveal_strlit("myelin::service: only `fn` items are allowed in service traits");
            reveal_strlit("only `fn` items");
            reveal_strlit("myelin::service: ");
            assert(text.subrange(17, 32) =~= "only `fn` items"@);
            assert(stands_at(text, "only `fn` items"@, 17));
            assert(text.take(17) =~= "myelin::service: "@);
        },
        ServiceError::Method { fault, .. } => {
            law_fault_text_says_what_is_wrong(fault);
        },
    }
}

} // verus!
