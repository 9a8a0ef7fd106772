//! Reading token text: what a tokenizer makes of generated code.
//!
//! A space ends a token, and a round or square bracket is a token of its own.
//! The laws about generated code are stated over the tokens that are read.

use vstd::prelude::*;

use crate::codegen::emit::{
    argument_decls, argument_names, arrow_output_text, attrs_text, await_suffix_text, vis_prefix,
};
use crate::codegen::parse::{ReturnKind, ServiceArg};
use crate::codegen::syntax::Attr;

verus! {

/// Whether `c` is a bracket that stands next to other tokens without a space.
pub open spec fn is_bracket(c: char) -> bool {
    c == '(' || c == ')' || c == '[' || c == ']'
}

/// Whether `c` ends the token before it.
pub open spec fn is_break(c: char) -> bool {
    c == ' ' || is_bracket(c)
}

/// Whether `text` is one token and no bracket.
pub open spec fn is_word(text: Seq<char>) -> bool {
    &&& text.len() > 0
    &&& forall|i: int| 0 <= i < text.len() ==> !is_break(#[trigger] text[i])
}

/// Whether `text` is one token.
pub open spec fn is_token(text: Seq<char>) -> bool {
    is_word(text) || (text.len() == 1 && is_bracket(text[0]))
}

/// How far a text has been read.
pub struct Reading {
    /// The tokens that have ended.
    pub done: Seq<Seq<char>>,
    /// What has been read of the next word.
    pub word: Seq<char>,
}

/// The tokens that were read if the text ends here.
pub open spec fn ended(reading: Reading) -> Seq<Seq<char>> {
    if reading.word.len() == 0 {
        reading.done
    } else {
        reading.done.push(reading.word)
    }
}

/// What has been read after all of `text`.
pub open spec fn reading(text: Seq<char>) -> Reading
    decreases text.len(),
{
    if text.len() == 0 {
        Reading { done: Seq::empty(), word: Seq::empty() }
    } else {
        let before = reading(text.drop_last());
        let c = text.last();
        if c == ' ' {
            Reading { done: ended(before), word: Seq::empty() }
        } else if is_bracket(c) {
            Reading { done: ended(before).push(seq![c]), word: Seq::empty() }
        } else {
            Reading { done: before.done, word: before.word.push(c) }
        }
    }
}

/// The tokens of `text`, in their order.
pub open spec fn tokens(text: Seq<char>) -> Seq<Seq<char>> {
    ended(reading(text))
}

/// Whether no token reaches from `a` into `b`.
pub open spec fn apart(a: Seq<char>, b: Seq<char>) -> bool {
    a.len() == 0 || b.len() == 0 || is_break(a.last()) || is_break(b[0])
}

proof fn lemma_reading_add(a: Seq<char>, b: Seq<char>)
    requires
        apart(a, b),
        b.len() > 0,
    ensures
        reading(a + b).done == tokens(a) + reading(b).done,
        reading(a + b).word == reading(b).word,
    decreases b.len(),
{
    let d = b.drop_last();
    assert((a + b).drop_last() =~= a + d);
    assert((a + b).last() == b.last());
    if d.len() == 0 {
        assert(a + d =~= a);
        assert(reading(d).done =~= Seq::empty());
        assert(b[0] == b.last());
        if !is_break(b[0]) {
            assert(reading(a).word =~= Seq::empty());
        }
        assert(reading(a + b).done =~= tokens(a) + reading(b).done);
    } else {
        lemma_reading_add(a, d);
        assert(reading(a + b).done =~= tokens(a) + reading(b).done);
    }
}

/// Texts that no token reaches across are read one after the other.
pub proof fn lemma_tokens_add(a: Seq<char>, b: Seq<char>)
    requires
        apart(a, b),
    ensures
        tokens(a + b) == tokens(a) + tokens(b),
{
    if b.len() == 0 {
        assert(a + b =~= a);
        assert(tokens(b) =~= Seq::empty());
        assert(tokens(a) + tokens(b) =~= tokens(a));
    } else {
        lemma_reading_add(a, b);
        assert(tokens(a + b) =~= tokens(a) + tokens(b));
    }
}

proof fn lemma_word_reading(text: Seq<char>)
    requires
        forall|i: int| 0 <= i < text.len() ==> !is_break(#[trigger] text[i]),
    ensures
        reading(text).done == Seq::<Seq<char>>::empty(),
        reading(text).word == text,
    decreases text.len(),
{
    if text.len() > 0 {
        lemma_word_reading(text.drop_last());
        assert(text.drop_last().push(text.last()) =~= text);
    } else {
        assert(text =~= Seq::empty());
    }
}

/// A token is read as itself.
pub proof fn lemma_token(text: Seq<char>)
    requires
        is_token(text),
    ensures
        tokens(text) == seq![text],
{
    if is_word(text) {
        lemma_word_reading(text);
    } else {
        let c = text[0];
        let none = text.drop_last();
        assert(none =~= Seq::empty());
        assert(text.last() == c);
        assert(text =~= seq![c]);
        assert(ended(reading(none)) =~= Seq::empty());
        assert(tokens(text) =~= seq![text]);
    }
}

/// Words without anything between them are one word.
pub proof fn lemma_glued_word(a: Seq<char>, b: Seq<char>)
    requires
        is_word(a),
        is_word(b),
    ensures
        is_word(a + b),
{
    assert forall|i: int| 0 <= i < (a + b).len() implies !is_break(#[trigger] (a + b)[i]) by {
        if i < a.len() {
            assert((a + b)[i] == a[i]);
        } else {
            assert((a + b)[i] == b[i - a.len()]);
        }
    }
}

/// A name is read behind what stands before it.
pub proof fn lemma_read_name(before: Seq<char>, name: Seq<char>)
    requires
        apart(before, name),
        is_word(name),
    ensures
        tokens(before + name) == tokens(before) + seq![name],
{
    lemma_token(name);
    lemma_tokens_add(before, name);
}

/// A name with more of it at the start of `text` is read as one token.
pub proof fn lemma_read_start(
    name: Seq<char>,
    text: Seq<char>,
    tail: Seq<char>,
    rest: Seq<char>,
)
    requires
        is_word(name),
        is_word(tail),
        text == tail + rest,
        rest.len() > 0,
        is_break(rest[0]),
    ensures
        tokens(name + text) == seq![name + tail] + tokens(rest),
{
    lemma_glued_word(name, tail);
    lemma_token(name + tail);
    lemma_tokens_add(name + tail, rest);
    assert(name + text =~= (name + tail) + rest);
}

/// A name with more of it at the start of `text` is read as one token.
pub proof fn lemma_read_joined(
    before: Seq<char>,
    name: Seq<char>,
    text: Seq<char>,
    tail: Seq<char>,
    rest: Seq<char>,
)
    requires
        apart(before, name),
        is_word(name),
        is_word(tail),
        text == tail + rest,
        rest.len() > 0,
        is_break(rest[0]),
    ensures
        tokens(before + name + text) == tokens(before) + seq![name + tail] + tokens(rest),
{
    lemma_glued_word(name, tail);
    lemma_read_name(before, name + tail);
    lemma_tokens_add(before + (name + tail), rest);
    assert(before + name + text =~= before + (name + tail) + rest);
}

/// Whether `a` and `b` stand next to each other without a space.
pub open spec fn glued(a: Seq<char>, b: Seq<char>) -> bool {
    ||| a.len() == 1 && (a[0] == '(' || a[0] == '[')
    ||| b.len() == 1 && (b[0] == ')' || b[0] == ']')
}

/// The text of the first `n` tokens of `ts`.
pub open spec fn spread(ts: Seq<Seq<char>>, n: nat) -> Seq<char>
    decreases n,
{
    if n == 0 {
        Seq::empty()
    } else if n == 1 {
        ts[0]
    } else if glued(ts[n - 2], ts[n - 1]) {
        spread(ts, (n - 1) as nat) + ts[n - 1]
    } else {
        spread(ts, (n - 1) as nat) + " "@ + ts[n - 1]
    }
}

/// Whether the first `n` of `ts` are tokens.
pub open spec fn all_tokens(ts: Seq<Seq<char>>, n: nat) -> bool
    decreases n,
{
    n == 0 || (is_token(ts[n - 1]) && all_tokens(ts, (n - 1) as nat))
}

/// A space, or nothing.
pub open spec fn edge(space: bool) -> Seq<char> {
    if space {
        " "@
    } else {
        Seq::empty()
    }
}

/// A space is no token.
pub proof fn lemma_space()
    ensures
        tokens(" "@) == Seq::<Seq<char>>::empty(),
        " "@.len() == 1,
        " "@[0] == ' ',
{
    reveal_strlit(" ");
    let none = " "@.drop_last();
    assert(none =~= Seq::empty());
    assert(" "@.last() == ' ');
    assert(ended(reading(none)) =~= Seq::empty());
    assert(tokens(" "@) =~= Seq::empty());
}

proof fn lemma_spread(ts: Seq<Seq<char>>, n: nat)
    requires
        n <= ts.len(),
        all_tokens(ts, n),
    ensures
        tokens(spread(ts, n)) == ts.take(n as int),
        n > 0 ==> spread(ts, n).len() > 0 && spread(ts, n).last() == ts[n - 1].last(),
    decreases n,
{
    if n == 0 {
        assert(tokens(spread(ts, n)) =~= ts.take(0));
    } else {
        let t = ts[n - 1];
        lemma_token(t);
        if n == 1 {
            assert(ts.take(1) =~= seq![t]);
        } else {
            lemma_space();
            let before = spread(ts, (n - 1) as nat);
            lemma_spread(ts, (n - 1) as nat);
            if glued(ts[n - 2], t) {
                lemma_tokens_add(before, t);
            } else {
                lemma_tokens_add(before, " "@);
                lemma_tokens_add(before + " "@, t);
            }
            assert(tokens(spread(ts, n)) =~= ts.take(n as int));
        }
    }
}

/// Tokens are read from their text, with or without a space round it.
pub proof fn lemma_edged(ts: Seq<Seq<char>>, n: nat, lead: bool, trail: bool)
    requires
        0 < n <= ts.len(),
        all_tokens(ts, n),
    ensures
        tokens(edge(lead) + spread(ts, n) + edge(trail)) == ts.take(n as int),
{
    lemma_space();
    lemma_spread(ts, n);
    let text = spread(ts, n);
    lemma_tokens_add(edge(lead), text);
    lemma_tokens_add(edge(lead) + text, edge(trail));
    assert(tokens(Seq::empty()) =~= Seq::empty());
    assert(tokens(edge(lead) + text + edge(trail)) =~= ts.take(n as int));
}

/// A visibility is read as it stands.
pub proof fn lemma_vis(vis: Seq<char>)
    ensures
        tokens(vis_prefix(vis)) == tokens(vis),
        vis_prefix(vis).len() > 0 ==> is_break(vis_prefix(vis).last()),
{
    lemma_space();
    if vis.len() > 0 {
        lemma_tokens_add(vis, " "@);
        assert(tokens(vis) + Seq::<Seq<char>>::empty() =~= tokens(vis));
    } else {
        assert(vis =~= Seq::empty());
    }
}

/// Names with a comma between each two of them: the tokens of the arguments of
/// a call.
pub open spec fn passed(args: Seq<ServiceArg>) -> Seq<Seq<char>> {
    Seq::new(
        if args.len() == 0 {
            0
        } else {
            (2 * args.len() - 1) as nat
        },
        |k: int|
            if k % 2 == 0 {
                args[k / 2].ident@
            } else {
                ","@
            },
    )
}

/// Names with their types, and a comma between each two of them: the tokens of
/// the parameters of a function, or of the fields of a variant.
pub open spec fn declared(args: Seq<ServiceArg>) -> Seq<Seq<char>>
    decreases args.len(),
{
    if args.len() == 0 {
        Seq::empty()
    } else if args.len() == 1 {
        seq![args[0].ident@, ":"@] + tokens(args[0].ty@)
    } else {
        declared(args.drop_last()) + seq![","@, args.last().ident@, ":"@] + tokens(
            args.last().ty@,
        )
    }
}

/// Whether every parameter has a name.
pub open spec fn named_arguments(args: Seq<ServiceArg>) -> bool {
    forall|i: int| 0 <= i < args.len() ==> is_word((#[trigger] args[i]).ident@)
}

proof fn lemma_comma()
    ensures
        tokens(" , "@) == seq![","@],
        " , "@.len() == 3,
        is_break(" , "@[0]),
        is_break(" , "@.last()),
{
    reveal_strlit(" , ");
    reveal_strlit(",");
    reveal_strlit(" ");
    let ts = seq![","@];
    reveal_with_fuel(spread, 2);
    reveal_with_fuel(all_tokens, 2);
    assert(" , "@ =~= edge(true) + spread(ts, 1) + edge(true));
    lemma_edged(ts, 1, true, true);
    assert(ts.take(1) =~= ts);
}

/// The names of the parameters are read in their order.
pub proof fn lemma_names(args: Seq<ServiceArg>)
    requires
        named_arguments(args),
    ensures
        tokens(crate::text::join(argument_names(args), " , "@)) == passed(args),
    decreases args.len(),
{
    let text = crate::text::join(argument_names(args), " , "@);
    if args.len() == 0 {
        assert(tokens(text) =~= passed(args));
    } else {
        lemma_token(args.last().ident@);
        if args.len() == 1 {
            assert(tokens(text) =~= passed(args));
        } else {
            lemma_comma();
            lemma_names(args.drop_last());
            assert(argument_names(args).drop_last() =~= argument_names(args.drop_last()));
            let before = crate::text::join(argument_names(args.drop_last()), " , "@);
            lemma_tokens_add(before, " , "@);
            lemma_tokens_add(before + " , "@, args.last().ident@);
            assert(tokens(text) =~= passed(args));
        }
    }
}

proof fn lemma_decl(arg: ServiceArg)
    requires
        is_word(arg.ident@),
    ensures
        tokens(arg.ident@ + " : "@ + arg.ty@) == seq![arg.ident@, ":"@] + tokens(arg.ty@),
{
    reveal_strlit(" : ");
    reveal_strlit(":");
    reveal_strlit(" ");
    let ts = seq![":"@];
    reveal_with_fuel(spread, 2);
    reveal_with_fuel(all_tokens, 2);
    assert(" : "@ =~= edge(true) + spread(ts, 1) + edge(true));
    lemma_edged(ts, 1, true, true);
    assert(ts.take(1) =~= ts);
    lemma_token(arg.ident@);
    lemma_tokens_add(arg.ident@, " : "@);
    lemma_tokens_add(arg.ident@ + " : "@, arg.ty@);
    assert(seq![arg.ident@] + ts =~= seq![arg.ident@, ":"@]);
}

/// The parameters are read in their order, each with its type.
pub proof fn lemma_decls(args: Seq<ServiceArg>)
    requires
        named_arguments(args),
    ensures
        tokens(crate::text::join(argument_decls(args), " , "@)) == declared(args),
    decreases args.len(),
{
    let text = crate::text::join(argument_decls(args), " , "@);
    if args.len() == 0 {
        assert(tokens(text) =~= declared(args));
    } else {
        lemma_decl(args.last());
        if args.len() > 1 {
            lemma_comma();
            lemma_decls(args.drop_last());
            assert(argument_decls(args).drop_last() =~= argument_decls(args.drop_last()));
            let before = crate::text::join(argument_decls(args.drop_last()), " , "@);
            lemma_tokens_add(before, " , "@);
            lemma_tokens_add(before + " , "@, argument_decls(args).last());
            assert(tokens(text) =~= declared(args));
        }
    }
}

/// The tokens behind a call that is awaited.
pub open spec fn awaiting(awaited: bool) -> Seq<Seq<char>> {
    if awaited {
        seq!["."@, "await"@]
    } else {
        Seq::empty()
    }
}

/// An awaited call is read as one.
pub proof fn lemma_await_suffix(awaited: bool)
    ensures
        tokens(await_suffix_text(awaited)) == awaiting(awaited),
        awaited ==> is_break(await_suffix_text(awaited)[0]),
{
    reveal_strlit(" . await");
    reveal_strlit("");
    reveal_strlit(".");
    reveal_strlit("await");
    reveal_strlit(" ");
    let ts = seq!["."@, "await"@];
    reveal_with_fuel(spread, 3);
    reveal_with_fuel(all_tokens, 3);
    assert(" . await"@ =~= edge(true) + spread(ts, 2) + edge(false));
    lemma_edged(ts, 2, true, false);
    assert(ts.take(2) =~= ts);
    assert(""@ =~= Seq::empty());
}

/// The tokens of an arrow and a return type; none if nothing is returned.
pub open spec fn returning(output: Option<Seq<char>>) -> Seq<Seq<char>> {
    match output {
        Some(ty) => seq!["->"@] + tokens(ty),
        None => Seq::empty(),
    }
}

/// The return type as it was written, if there is one.
pub open spec fn output_of(ret: ReturnKind) -> Option<Seq<char>> {
    match ret {
        ReturnKind::Unit => None,
        ReturnKind::Type(ty) => Some(ty@),
    }
}

/// The arrow and the return type are read as they stand.
pub proof fn lemma_arrow(ret: ReturnKind)
    ensures
        tokens(arrow_output_text(ret)) == returning(output_of(ret)),
        ret is Type ==> is_break(arrow_output_text(ret)[0]),
        ret is Unit ==> arrow_output_text(ret).len() == 0,
{
    reveal_strlit(" -> ");
    reveal_strlit("->");
    reveal_strlit("");
    reveal_strlit(" ");
    let ts = seq!["->"@];
    reveal_with_fuel(spread, 2);
    reveal_with_fuel(all_tokens, 2);
    assert(" -> "@ =~= edge(true) + spread(ts, 1) + edge(true));
    lemma_edged(ts, 1, true, true);
    assert(ts.take(1) =~= ts);
    match ret {
        ReturnKind::Unit => {
            assert(""@ =~= Seq::empty());
        },
        ReturnKind::Type(ty) => {
            lemma_tokens_add(" -> "@, ty@);
        },
    }
}

/// The tokens of the attributes that stand inside (or not) of what they belong
/// to, in their order.
pub open spec fn attributes(attrs: Seq<Attr>, inner: bool) -> Seq<Seq<char>> {
    attrs.filter(|attr: Attr| attr.inner == inner).fold_left(
        Seq::empty(),
        |before: Seq<Seq<char>>, attr: Attr| before + tokens(attr.text@),
    )
}

/// The attributes are read in their order.
pub proof fn lemma_attrs(attrs: Seq<Attr>, inner: bool)
    ensures
        tokens(attrs_text(attrs, inner)) == attributes(attrs, inner),
        attrs_text(attrs, inner).len() > 0 ==> is_break(attrs_text(attrs, inner).last()),
    decreases attrs.len(),
{
    reveal(Seq::filter);
    let wanted = |attr: Attr| attr.inner == inner;
    let join = |before: Seq<Seq<char>>, attr: Attr| before + tokens(attr.text@);
    if attrs.len() == 0 {
        assert(attrs.filter(wanted) =~= Seq::empty());
        assert(tokens(attrs_text(attrs, inner)) =~= attributes(attrs, inner));
    } else {
        let front = attrs.drop_last();
        lemma_attrs(front, inner);
        if attrs.last().inner == inner {
            lemma_space();
            let before = attrs_text(front, inner);
            let text = attrs.last().text@;
            lemma_tokens_add(before, text);
            lemma_tokens_add(before + text, " "@);
            assert(tokens(before + text + " "@) =~= tokens(before) + tokens(text));
            let kept = attrs.filter(wanted);
            assert(kept == front.filter(wanted).push(attrs.last()));
            assert(kept.drop_last() =~= front.filter(wanted));
            assert(kept.fold_left(Seq::empty(), join) == join(
                front.filter(wanted).fold_left(Seq::empty(), join),
                attrs.last(),
            ));
        }
    }
}

} // verus!
