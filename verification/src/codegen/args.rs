//! Arguments of the service attribute.
//!
//! The only argument is `api_id = <integer>`, which fixes the id of the
//! service on the wire.

use vstd::prelude::*;

use crate::error::ErrorText;
use crate::text::{decimal_text, text_is};
use proc_macro2::{Delimiter, Spacing, TokenStream, TokenTree};

verus! {

/// A sequence of tokens, from the `proc_macro2` crate.
#[verifier::external_type_specification]
#[verifier::external_body]
pub struct ExTokenStream(TokenStream);

/// A token of an argument list.
pub enum Token {
    /// An identifier or keyword.
    Word(String),
    /// A punctuation character, and whether the next token is another one
    /// without a gap.
    Mark(char, bool),
    /// A literal as it is written.
    Literal(String),
    /// Something in brackets.
    Group,
    /// A pair of invisible brackets with nothing in it.
    Gap,
}

/// A token of an argument list.
pub enum TokenShape {
    /// An identifier or keyword.
    Word(Seq<char>),
    /// A punctuation character, and whether the next token is another one
    /// without a gap.
    Mark(char, bool),
    /// A literal as it is written.
    Literal(Seq<char>),
    /// Something in brackets.
    Group,
    /// A pair of invisible brackets with nothing in it.
    Gap,
}

impl View for Token {
    type V = TokenShape;

    open spec fn view(&self) -> TokenShape {
        match *self {
            Token::Word(text) => TokenShape::Word(text@),
            Token::Mark(mark, joint) => TokenShape::Mark(mark, joint),
            Token::Literal(text) => TokenShape::Literal(text@),
            Token::Group => TokenShape::Group,
            Token::Gap => TokenShape::Gap,
        }
    }
}

/// The tokens that `tokens` stands for.
pub open spec fn token_shapes(tokens: Seq<Token>) -> Seq<TokenShape> {
    Seq::new(tokens.len(), |i: int| tokens[i]@)
}

/// A token tree.
pub enum Tree {
    /// An identifier or keyword.
    Word(String),
    /// A punctuation character, and whether the next token is another one
    /// without a gap.
    Mark(char, bool),
    /// A literal as it is written.
    Literal(String),
    /// A group, whether its brackets are invisible, and what is in it.
    Group(bool, TokenStream),
}

/// A token tree.
pub enum TreeShape {
    /// An identifier or keyword.
    Word(Seq<char>),
    /// A punctuation character, and whether the next token is another one
    /// without a gap.
    Mark(char, bool),
    /// A literal as it is written.
    Literal(Seq<char>),
    /// A group, whether its brackets are invisible, and what is in it.
    Group(bool, TokenStream),
}

impl View for Tree {
    type V = TreeShape;

    open spec fn view(&self) -> TreeShape {
        match *self {
            Tree::Word(text) => TreeShape::Word(text@),
            Tree::Mark(mark, joint) => TreeShape::Mark(mark, joint),
            Tree::Literal(text) => TreeShape::Literal(text@),
            Tree::Group(hidden, inner) => TreeShape::Group(hidden, inner),
        }
    }
}

/// The token trees of a stream.
pub uninterp spec fn stream_trees(stream: TokenStream) -> Seq<TreeShape>;

/// How deep the groups of a stream are nested.
pub uninterp spec fn stream_nesting(stream: TokenStream) -> nat;

/// Iteration over a `proc_macro2::TokenStream`: its token trees in order. What
/// is in a group is nested less deep than the stream that holds the group.
#[verifier::external_body]
pub(crate) fn read_trees(stream: &TokenStream) -> (trees: Vec<Tree>)
    ensures
        Seq::new(trees@.len(), |i: int| trees@[i]@) == stream_trees(*stream),
        forall|i: int|
            0 <= i < trees@.len() ==> (#[trigger] trees@[i] matches Tree::Group(_, inner)
                ==> stream_nesting(inner) < stream_nesting(*stream)),
{
    stream.clone().into_iter().map(|tree| match tree {
        TokenTree::Ident(i) => Tree::Word(i.to_string()),
        TokenTree::Punct(p) => Tree::Mark(p.as_char(), p.spacing() == Spacing::Joint),
        TokenTree::Literal(l) => Tree::Literal(l.to_string()),
        TokenTree::Group(g) => Tree::Group(g.delimiter() == Delimiter::None, g.stream()),
    }).collect()
}

/// The tokens that stand for a tree of `stream`. A group without visible
/// brackets counts as what is in it, or as a gap if there is nothing.
pub open spec fn tree_tokens(stream: TokenStream, tree: TreeShape) -> Seq<TokenShape>
    decreases stream_nesting(stream), 0nat,
{
    match tree {
        TreeShape::Word(text) => seq![TokenShape::Word(text)],
        TreeShape::Mark(mark, joint) => seq![TokenShape::Mark(mark, joint)],
        TreeShape::Literal(text) => seq![TokenShape::Literal(text)],
        TreeShape::Group(hidden, inner) => if hidden && stream_nesting(inner) < stream_nesting(
            stream,
        ) {
            if stream_tokens(inner).len() > 0 {
                stream_tokens(inner)
            } else {
                seq![TokenShape::Gap]
            }
        } else {
            seq![TokenShape::Group]
        },
    }
}

/// The tokens that stand for the first `n` trees of a stream.
pub open spec fn tokens_before(stream: TokenStream, n: nat) -> Seq<TokenShape>
    decreases stream_nesting(stream), n + 1,
{
    if n == 0 {
        Seq::empty()
    } else {
        tokens_before(stream, (n - 1) as nat) + tree_tokens(stream, stream_trees(stream)[n - 1])
    }
}

/// The tokens of a stream.
pub open spec fn stream_tokens(stream: TokenStream) -> Seq<TokenShape>
    decreases stream_nesting(stream), stream_trees(stream).len() + 2,
{
    tokens_before(stream, stream_trees(stream).len())
}

/// The tokens of a stream.
fn read_tokens(stream: &TokenStream) -> (tokens: Vec<Token>)
    ensures
        token_shapes(tokens@) == stream_tokens(*stream),
    decreases stream_nesting(*stream),
{
    let trees: Vec<Tree> = read_trees(stream);
    let ghost shapes = stream_trees(*stream);
    let mut tokens: Vec<Token> = Vec::new();
    let mut i: usize = 0;
    assert(token_shapes(tokens@) =~= tokens_before(*stream, 0));
    while i < trees.len()
        invariant
            i <= trees@.len(),
            shapes == stream_trees(*stream),
            shapes == Seq::new(trees@.len(), |k: int| trees@[k]@),
            forall|k: int|
                0 <= k < trees@.len() ==> (#[trigger] trees@[k] matches Tree::Group(_, inner)
                    ==> stream_nesting(inner) < stream_nesting(*stream)),
            token_shapes(tokens@) == tokens_before(*stream, i as nat),
        decreases trees.len() - i,
    {
        let ghost before = tokens@;
        assert(shapes[i as int] == trees@[i as int]@);
        match &trees[i] {
            Tree::Word(text) => tokens.push(Token::Word(text.clone())),
            Tree::Mark(mark, joint) => tokens.push(Token::Mark(*mark, *joint)),
            Tree::Literal(text) => tokens.push(Token::Literal(text.clone())),
            Tree::Group(hidden, inner) => {
                if *hidden {
                    let mut inside: Vec<Token> = read_tokens(inner);
                    if inside.len() == 0 {
                        inside.push(Token::Gap);
                        assert(token_shapes(inside@) =~= seq![TokenShape::Gap]);
                    }
                    let ghost added = inside@;
                    tokens.append(&mut inside);
                    assert(token_shapes(tokens@) =~= token_shapes(before) + token_shapes(added));
                } else {
                    tokens.push(Token::Group);
                }
            },
        }
        assert(token_shapes(tokens@) =~= token_shapes(before) + tree_tokens(
            *stream,
            shapes[i as int],
        ));
        i = i + 1;
    }
    tokens
}

/// An integer literal, from the `syn` crate.
#[verifier::external_type_specification]
#[verifier::external_body]
pub struct ExLitInt(syn::LitInt);

/// The decimal digits of an integer literal, behind a minus sign if it is
/// negative.
pub uninterp spec fn literal_digits(literal: syn::LitInt) -> Seq<char>;

/// The decimal digits of the integer literal that `text` spells, if it spells
/// one.
pub uninterp spec fn digits_of(text: Seq<char>) -> Option<Seq<char>>;

/// `syn::parse_str` to a `syn::LitInt`: the integer literal that `text` spells,
/// in any base, underscores and suffix permitted.
#[verifier::external_body]
fn parse_int_literal(text: &str) -> (literal: Option<syn::LitInt>)
    ensures
        match digits_of(text@) {
            Some(digits) => literal matches Some(l) && literal_digits(l) == digits,
            None => literal is None,
        },
{
    syn::parse_str::<syn::LitInt>(text).ok()
}

/// The text of the error that reading digits as a number of 64 bits ends in, if
/// they are not such a number.
pub uninterp spec fn digits_error(digits: Seq<char>) -> Seq<char>;

/// The decimal value of `digits`, if they are digits without a sign and their
/// value fits in 64 bits.
pub open spec fn unsigned_value(digits: Seq<char>) -> Option<u64> {
    if crate::text::is_decimal(digits) && crate::text::decimal_value(digits) <= u64::MAX {
        Some(crate::text::decimal_value(digits) as u64)
    } else {
        None
    }
}

/// The number that digits stand for, or the text of the error if it is not an
/// unsigned number of 64 bits.
pub open spec fn digits_value(digits: Seq<char>) -> Result<u64, Seq<char>> {
    match unsigned_value(digits) {
        Some(n) => Ok(n),
        None => Err(digits_error(digits)),
    }
}

/// `syn::LitInt::base10_parse` to a `u64`: the decimal value of the literal's
/// digits if it is not negative and fits, else the text of the error. The text
/// depends on the digits alone.
#[verifier::external_body]
fn literal_value(literal: &syn::LitInt) -> (value: Result<u64, String>)
    ensures
        match unsigned_value(literal_digits(*literal)) {
            Some(n) => value == Ok::<u64, String>(n),
            None => value matches Err(message) && message@ == digits_error(
                literal_digits(*literal),
            ),
        },
{
    literal.base10_parse::<u64>().map_err(|e| e.to_string())
}

/// Whether `text` spells a literal.
pub uninterp spec fn spells_literal(text: Seq<char>) -> bool;

/// `syn::parse_str` to a `syn::Lit`: whether `text` spells a literal, which may
/// be a negative number.
#[verifier::external_body]
fn is_literal(text: &str) -> (found: bool)
    ensures
        found == spells_literal(text@),
{
    syn::parse_str::<syn::Lit>(text).is_ok()
}

/// Why an argument list is rejected.
#[derive(Debug)]
pub enum ArgsError {
    /// The list ends where an argument name is expected.
    MissingKey,
    /// There is a literal where an argument name is expected.
    LiteralKey,
    /// There is something else where an argument name is expected.
    InvalidKey,
    /// A path goes on without a name, at the end of the list or not.
    MissingName { at_end: bool },
    /// The name is not followed by `=`.
    ExpectedEquals,
    /// The value is not an integer literal, or the list ends before it.
    ExpectedInteger { at_end: bool },
    /// The value is an integer literal that cannot be read; this is why.
    UnreadableInteger(String),
    /// The value does not fit in 16 bits.
    TooLarge(u64),
    /// The argument was given before.
    Duplicate,
    /// The argument is not known. `None` stands for a path of several names.
    UnknownKey(Option<String>),
    /// An argument is not followed by a comma.
    ExpectedComma,
}

/// What an argument list is rejected for, as a mathematical value.
pub enum ArgsFault {
    MissingKey,
    LiteralKey,
    InvalidKey,
    MissingName { at_end: bool },
    ExpectedEquals,
    ExpectedInteger { at_end: bool },
    UnreadableInteger(Seq<char>),
    TooLarge(u64),
    Duplicate,
    UnknownKey(Option<Seq<char>>),
    ExpectedComma,
}

impl View for ArgsError {
    type V = ArgsFault;

    open spec fn view(&self) -> ArgsFault {
        match *self {
            ArgsError::MissingKey => ArgsFault::MissingKey,
            ArgsError::LiteralKey => ArgsFault::LiteralKey,
            ArgsError::InvalidKey => ArgsFault::InvalidKey,
            ArgsError::MissingName { at_end } => ArgsFault::MissingName { at_end },
            ArgsError::ExpectedEquals => ArgsFault::ExpectedEquals,
            ArgsError::ExpectedInteger { at_end } => ArgsFault::ExpectedInteger { at_end },
            ArgsError::UnreadableInteger(message) => ArgsFault::UnreadableInteger(message@),
            ArgsError::TooLarge(n) => ArgsFault::TooLarge(n),
            ArgsError::Duplicate => ArgsFault::Duplicate,
            ArgsError::UnknownKey(Some(name)) => ArgsFault::UnknownKey(Some(name@)),
            ArgsError::UnknownKey(None) => ArgsFault::UnknownKey(None),
            ArgsError::ExpectedComma => ArgsFault::ExpectedComma,
        }
    }
}

impl ErrorText for ArgsError {
    open spec fn text(&self) -> Seq<char> {
        match *self {
            ArgsError::MissingKey => "unexpected end of input, expected nested attribute"@,
            ArgsError::LiteralKey => "unexpected literal in nested attribute, expected ident"@,
            ArgsError::InvalidKey => "unexpected token in nested attribute, expected ident"@,
            ArgsError::MissingName { at_end } => if at_end {
                "unexpected end of input, expected ident"@
            } else {
                "expected ident"@
            },
            ArgsError::ExpectedEquals => "expected `=`"@,
            ArgsError::ExpectedInteger { at_end } => if at_end {
                "unexpected end of input, expected integer literal"@
            } else {
                "expected integer literal"@
            },
            ArgsError::UnreadableInteger(message) => message@,
            ArgsError::TooLarge(n) => "myelin::service: api_id = "@ + crate::text::decimal(
                n as nat,
            ) + " does not fit in u16 (max 65535)"@,
            ArgsError::Duplicate => "myelin::service: `api_id` specified more than once"@,
            ArgsError::UnknownKey(name) => "myelin::service: unknown argument `"@ + (match name {
                Some(n) => n@,
                None => "<non-ident>"@,
            }) + "`; the only currently supported key is `api_id`"@,
            ArgsError::ExpectedComma => "expected `,`"@,
        }
    }

    fn to_text(&self) -> (text: String) {
        match self {
            ArgsError::MissingKey =>
                "unexpected end of input, expected nested attribute".to_owned(),
            ArgsError::LiteralKey =>
                "unexpected literal in nested attribute, expected ident".to_owned(),
            ArgsError::InvalidKey =>
                "unexpected token in nested attribute, expected ident".to_owned(),
            ArgsError::MissingName { at_end } => if *at_end {
                "unexpected end of input, expected ident".to_owned()
            } else {
                "expected ident".to_owned()
            },
            ArgsError::ExpectedEquals => "expected `=`".to_owned(),
            ArgsError::ExpectedInteger { at_end } => if *at_end {
                "unexpected end of input, expected integer literal".to_owned()
            } else {
                "expected integer literal".to_owned()
            },
            ArgsError::UnreadableInteger(message) => message.clone(),
            ArgsError::TooLarge(n) => {
                let mut text = "myelin::service: api_id = ".to_owned();
                text.append(decimal_text(*n).as_str());
                text.append(" does not fit in u16 (max 65535)");
                text
            },
            ArgsError::Duplicate => "myelin::service: `api_id` specified more than once".to_owned(),
            ArgsError::UnknownKey(name) => {
                let mut text = "myelin::service: unknown argument `".to_owned();
                match name {
                    Some(n) => text.append(n.as_str()),
                    None => text.append("<non-ident>"),
                }
                text.append("`; the only currently supported key is `api_id`");
                text
            },
            ArgsError::ExpectedComma => "expected `,`".to_owned(),
        }
    }
}

/// The position of the first token at `i` or behind it that is no gap.
pub open spec fn past_gaps(tokens: Seq<TokenShape>, i: int) -> int
    decreases tokens.len() - i,
{
    if 0 <= i < tokens.len() && tokens[i] is Gap {
        past_gaps(tokens, i + 1)
    } else {
        i
    }
}

/// Whether the next token from `i` on is the punctuation `mark`.
pub open spec fn mark_at(tokens: Seq<TokenShape>, i: int, mark: char) -> bool {
    let at = past_gaps(tokens, i);
    0 <= at < tokens.len() && (tokens[at] matches TokenShape::Mark(c, _) && c == mark)
}

/// Where a `::` ends that comes next from `i` on, if one does.
pub open spec fn separator_end(tokens: Seq<TokenShape>, i: int) -> Option<int> {
    let first = past_gaps(tokens, i);
    if 0 <= first < tokens.len() && tokens[first] == TokenShape::Mark(':', true) && mark_at(
        tokens,
        first + 1,
        ':',
    ) {
        Some(past_gaps(tokens, first + 1) + 1)
    } else {
        None
    }
}

/// Where a path ends whose next name comes from `i` on, and how many names it
/// has from there.
pub open spec fn path_from(tokens: Seq<TokenShape>, i: int) -> Result<(int, int), ArgsFault>
    decreases tokens.len() - i,
    via path_from_decreases
{
    let at = past_gaps(tokens, i);
    if 0 <= at < tokens.len() && tokens[at] is Word {
        match separator_end(tokens, at + 1) {
            Some(next) => match path_from(tokens, next) {
                Ok((end, names)) => Ok((end, names + 1)),
                Err(e) => Err(e),
            },
            None => Ok((at + 1, 1)),
        }
    } else {
        Err(ArgsFault::MissingName { at_end: i >= tokens.len() })
    }
}

/// Gaps lie ahead.
proof fn lemma_past_gaps(tokens: Seq<TokenShape>, i: int)
    ensures
        i <= past_gaps(tokens, i),
        i <= tokens.len() ==> past_gaps(tokens, i) <= tokens.len(),
    decreases tokens.len() - i,
{
    if 0 <= i < tokens.len() && tokens[i] is Gap {
        lemma_past_gaps(tokens, i + 1);
    }
}

/// A `::` has two characters.
proof fn lemma_separator_end(tokens: Seq<TokenShape>, i: int)
    ensures
        separator_end(tokens, i) matches Some(end) ==> i + 2 <= end <= tokens.len(),
{
    lemma_past_gaps(tokens, i);
    lemma_past_gaps(tokens, past_gaps(tokens, i) + 1);
}

#[via_fn]
proof fn path_from_decreases(tokens: Seq<TokenShape>, i: int) {
    lemma_past_gaps(tokens, i);
    lemma_separator_end(tokens, past_gaps(tokens, i) + 1);
}

/// Whether a literal comes next from `i` on, which may be a negative number.
pub open spec fn literal_at(tokens: Seq<TokenShape>, i: int) -> bool {
    let at = past_gaps(tokens, i);
    let behind = past_gaps(tokens, at + 1);
    &&& 0 <= at < tokens.len()
    &&& tokens[at] is Literal || (mark_at(tokens, i, '-') && 0 <= behind < tokens.len()
        && tokens[behind] is Literal && spells_literal("-"@ + tokens[behind]->Literal_0))
}

/// The argument name at `i` and where it ends: `Some` of the name if it is a
/// single one, `None` for a path.
pub open spec fn key_at(tokens: Seq<TokenShape>, i: int) -> Result<
    (Option<Seq<char>>, int),
    ArgsFault,
> {
    let root = separator_end(tokens, i);
    let start = match root {
        Some(end) => end,
        None => i,
    };
    let at = past_gaps(tokens, start);
    if 0 <= at < tokens.len() && tokens[at] is Word {
        match path_from(tokens, start) {
            Ok((end, names)) => if root is None && names == 1 {
                Ok((Some(tokens[at]->Word_0), end))
            } else {
                Ok((None, end))
            },
            Err(e) => Err(e),
        }
    } else if start >= tokens.len() {
        Err(ArgsFault::MissingKey)
    } else if literal_at(tokens, start) {
        Err(ArgsFault::LiteralKey)
    } else {
        Err(ArgsFault::InvalidKey)
    }
}

/// The value that `=` at `i` assigns and where it ends.
pub open spec fn value_at(tokens: Seq<TokenShape>, i: int) -> Result<(u64, int), ArgsFault> {
    if !mark_at(tokens, i, '=') {
        Err(ArgsFault::ExpectedEquals)
    } else {
        let start = past_gaps(tokens, i) + 1;
        let negative = mark_at(tokens, start, '-');
        let at = if negative {
            past_gaps(tokens, past_gaps(tokens, start) + 1)
        } else {
            past_gaps(tokens, start)
        };
        if 0 <= at < tokens.len() && tokens[at] is Literal {
            let text = if negative {
                "-"@ + tokens[at]->Literal_0
            } else {
                tokens[at]->Literal_0
            };
            match digits_of(text) {
                Some(digits) => match digits_value(digits) {
                    Ok(n) => Ok((n, at + 1)),
                    Err(message) => Err(ArgsFault::UnreadableInteger(message)),
                },
                None => Err(ArgsFault::ExpectedInteger { at_end: false }),
            }
        } else {
            Err(ArgsFault::ExpectedInteger { at_end: start >= tokens.len() })
        }
    }
}

/// The api id that the value `n` gives, when one has been given before or not.
pub open spec fn accepted_id(given: Option<u16>, n: u64) -> Result<u16, ArgsFault> {
    if n > 65535 {
        Err(ArgsFault::TooLarge(n))
    } else if given is Some {
        Err(ArgsFault::Duplicate)
    } else {
        Ok(n as u16)
    }
}

/// The outcome of an argument list whose next argument starts at `i`, when
/// `api_id` has been given before or not.
pub open spec fn args_from(tokens: Seq<TokenShape>, i: int, api_id: Option<u16>) -> Result<
    Option<u16>,
    ArgsFault,
>
    decreases tokens.len() - i,
    via args_from_decreases
{
    match key_at(tokens, i) {
        Err(e) => Err(e),
        Ok((name, at)) => if name == Some("api_id"@) {
            match value_at(tokens, at) {
                Err(e) => Err(e),
                Ok((n, end)) => match accepted_id(api_id, n) {
                    Err(e) => Err(e),
                    Ok(id) => if end >= tokens.len() {
                        Ok(Some(id))
                    } else if !mark_at(tokens, end, ',') {
                        Err(ArgsFault::ExpectedComma)
                    } else if past_gaps(tokens, end) + 1 >= tokens.len() {
                        Ok(Some(id))
                    } else {
                        args_from(tokens, past_gaps(tokens, end) + 1, Some(id))
                    },
                },
            }
        } else {
            Err(ArgsFault::UnknownKey(name))
        },
    }
}

/// The outcome of an argument list: the api id, if one is given.
pub open spec fn parsed_args(tokens: Seq<TokenShape>) -> Result<Option<u16>, ArgsFault> {
    if tokens.len() == 0 {
        Ok(None)
    } else {
        args_from(tokens, 0, None)
    }
}

proof fn lemma_path_end(tokens: Seq<TokenShape>, i: int)
    ensures
        path_from(tokens, i) matches Ok((end, names)) ==> i < end <= tokens.len() && names >= 1,
    decreases tokens.len() - i,
{
    let at = past_gaps(tokens, i);
    lemma_past_gaps(tokens, i);
    lemma_separator_end(tokens, at + 1);
    if 0 <= at < tokens.len() && tokens[at] is Word {
        match separator_end(tokens, at + 1) {
            Some(next) => lemma_path_end(tokens, next),
            None => {},
        }
    }
}

proof fn lemma_key_end(tokens: Seq<TokenShape>, i: int)
    ensures
        key_at(tokens, i) matches Ok((_, end)) ==> i < end <= tokens.len(),
{
    lemma_separator_end(tokens, i);
    lemma_path_end(tokens, i);
    match separator_end(tokens, i) {
        Some(end) => lemma_path_end(tokens, end),
        None => {},
    }
}

proof fn lemma_value_end(tokens: Seq<TokenShape>, i: int)
    ensures
        value_at(tokens, i) matches Ok((_, end)) ==> i < end <= tokens.len(),
{
    let start = past_gaps(tokens, i) + 1;
    lemma_past_gaps(tokens, i);
    lemma_past_gaps(tokens, start);
    lemma_past_gaps(tokens, past_gaps(tokens, start) + 1);
}

/// The argument behind the one at `i` comes later.
proof fn lemma_argument_end(tokens: Seq<TokenShape>, i: int)
    ensures
        key_at(tokens, i) matches Ok((_, at)) ==> (i < at <= tokens.len() && (value_at(
            tokens,
            at,
        ) matches Ok((_, end)) ==> at < end <= past_gaps(tokens, end) && end <= tokens.len())),
{
    lemma_key_end(tokens, i);
    match key_at(tokens, i) {
        Ok((_, at)) => {
            lemma_value_end(tokens, at);
            match value_at(tokens, at) {
                Ok((_, end)) => lemma_past_gaps(tokens, end),
                Err(_) => {},
            }
        },
        Err(_) => {},
    }
}

#[via_fn]
proof fn args_from_decreases(tokens: Seq<TokenShape>, i: int, api_id: Option<u16>) {
    lemma_argument_end(tokens, i);
}

/// Arguments of the service attribute.
#[derive(Debug, Default)]
pub struct ServiceArgs {
    /// The explicit api id, if there is one.
    pub api_id: Option<u16>,
}

/// The position of the first token at `i` or behind it that is no gap.
fn skip_gaps(tokens: &Vec<Token>, i: usize) -> (at: usize)
    ensures
        at == past_gaps(token_shapes(tokens@), i as int),
        i <= at,
        i <= tokens@.len() ==> at <= tokens@.len(),
{
    let ghost shapes = token_shapes(tokens@);
    proof {
        lemma_past_gaps(shapes, i as int);
    }
    let mut at: usize = i;
    while at < tokens.len()
        invariant_except_break
            shapes == token_shapes(tokens@),
            i <= at,
            past_gaps(shapes, i as int) == past_gaps(shapes, at as int),
        ensures
            i <= at,
            at == past_gaps(shapes, i as int),
        decreases tokens@.len() - at,
    {
        let gap: bool = match &tokens[at] {
            Token::Gap => true,
            _ => false,
        };
        assert(gap == (shapes[at as int] is Gap));
        if !gap {
            break;
        }
        at = at + 1;
    }
    at
}

/// Whether the next token from `i` on is the punctuation `mark`.
fn is_mark(tokens: &Vec<Token>, i: usize, mark: char) -> (found: bool)
    ensures
        found == mark_at(token_shapes(tokens@), i as int, mark),
{
    let at: usize = skip_gaps(tokens, i);
    if at < tokens.len() {
        match &tokens[at] {
            Token::Mark(c, _) => *c == mark,
            _ => false,
        }
    } else {
        false
    }
}

/// Where a `::` ends that comes next from `i` on, if one does.
fn find_separator(tokens: &Vec<Token>, i: usize) -> (end: Option<usize>)
    ensures
        match separator_end(token_shapes(tokens@), i as int) {
            Some(e) => end == Some(e as usize) && i < e <= tokens@.len(),
            None => end is None,
        },
{
    proof {
        lemma_separator_end(token_shapes(tokens@), i as int);
    }
    let first: usize = skip_gaps(tokens, i);
    if first >= tokens.len() {
        return None;
    }
    let joint: bool = match &tokens[first] {
        Token::Mark(c, joint) => *c == ':' && *joint,
        _ => false,
    };
    if joint && is_mark(tokens, first + 1, ':') {
        let second: usize = skip_gaps(tokens, first + 1);
        assert(second < tokens@.len());
        Some(second + 1)
    } else {
        None
    }
}

/// The text of the literal at `at`, with a sign if it is `negative`.
fn literal_text(tokens: &Vec<Token>, at: usize, negative: bool) -> (text: Option<String>)
    ensures
        match text {
            Some(t) => {
                &&& at < tokens@.len()
                &&& token_shapes(tokens@)[at as int] matches TokenShape::Literal(written) && t@
                    == if negative {
                    "-"@ + written
                } else {
                    written
                }
            },
            None => at >= tokens@.len() || !(token_shapes(tokens@)[at as int] is Literal),
        },
{
    if at >= tokens.len() {
        return None;
    }
    match &tokens[at] {
        Token::Literal(written) => {
            let mut text = String::new();
            if negative {
                text.append("-");
                assert(text@ =~= "-"@);
            }
            text.append(written.as_str());
            assert(!negative ==> text@ =~= written@);
            Some(text)
        },
        _ => None,
    }
}

/// Whether a literal comes next from `i` on.
fn finds_literal(tokens: &Vec<Token>, i: usize) -> (found: bool)
    ensures
        found == literal_at(token_shapes(tokens@), i as int),
{
    let at: usize = skip_gaps(tokens, i);
    if at >= tokens.len() {
        return false;
    }
    match &tokens[at] {
        Token::Literal(_) => {
            return true;
        },
        _ => {},
    }
    if !is_mark(tokens, i, '-') {
        return false;
    }
    let behind: usize = skip_gaps(tokens, at + 1);
    match literal_text(tokens, behind, true) {
        Some(text) => is_literal(text.as_str()),
        None => false,
    }
}

/// Reads the argument name at `i`.
fn read_key(tokens: &Vec<Token>, i: usize) -> (key: Result<(Option<String>, usize), ArgsError>)
    ensures
        match key_at(token_shapes(tokens@), i as int) {
            Ok((name, end)) => {
                &&& key matches Ok((n, e)) && e == end && match name {
                    Some(text) => n matches Some(t) && t@ == text,
                    None => n is None,
                }
            },
            Err(e) => key matches Err(f) && f@ == e,
        },
{
    let ghost shapes = token_shapes(tokens@);
    let root: Option<usize> = find_separator(tokens, i);
    let rooted: bool = root.is_some();
    let start: usize = match root {
        Some(end) => end,
        None => i,
    };
    let head: usize = skip_gaps(tokens, start);
    let named: bool = if head < tokens.len() {
        match &tokens[head] {
            Token::Word(_) => true,
            _ => false,
        }
    } else {
        false
    };
    assert(named == (head < shapes.len() && shapes[head as int] is Word));
    if !named {
        if start >= tokens.len() {
            return Err(ArgsError::MissingKey);
        }
        if finds_literal(tokens, start) {
            return Err(ArgsError::LiteralKey);
        }
        return Err(ArgsError::InvalidKey);
    }
    let mut next: usize = start;
    let mut names: usize = 0;
    let ghost whole = path_from(shapes, start as int);
    loop
        invariant
            shapes == token_shapes(tokens@),
            head == past_gaps(shapes, start as int),
            head < tokens@.len(),
            shapes[head as int] is Word,
            names <= next,
            next <= tokens@.len(),
            names == 0 ==> next == start,
            whole == match path_from(shapes, next as int) {
                Ok((end, n)) => Ok((end, n + names)),
                Err(e) => Err(e),
            },
            whole == path_from(shapes, start as int),
            rooted == (separator_end(shapes, i as int) is Some),
            start == match separator_end(shapes, i as int) {
                Some(end) => end,
                None => i as int,
            },
        decreases tokens@.len() - next,
    {
        let at: usize = skip_gaps(tokens, next);
        if at >= tokens.len() {
            return Err(ArgsError::MissingName { at_end: next >= tokens.len() });
        }
        match &tokens[at] {
            Token::Word(_) => {},
            _ => {
                return Err(ArgsError::MissingName { at_end: false });
            },
        }
        assert(shapes[at as int] is Word);
        proof {
            lemma_path_end(shapes, next as int);
            lemma_separator_end(shapes, at + 1);
        }
        match find_separator(tokens, at + 1) {
            Some(end) => {
                names = names + 1;
                next = end;
            },
            None => {
                if !rooted && names == 0 {
                    match &tokens[head] {
                        Token::Word(text) => {
                            return Ok((Some(text.clone()), at + 1));
                        },
                        _ => {},
                    }
                }
                proof {
                    if names > 0 {
                        assert(whole->Ok_0.1 > 1);
                    }
                }
                return Ok((None, at + 1));
            },
        }
    }
}

/// Reads the value that `=` at `i` assigns.
fn read_value(tokens: &Vec<Token>, i: usize) -> (value: Result<(u64, usize), ArgsError>)
    ensures
        match value_at(token_shapes(tokens@), i as int) {
            Ok((n, end)) => value matches Ok((m, e)) && m == n && e == end,
            Err(e) => value matches Err(f) && f@ == e,
        },
{
    if !is_mark(tokens, i, '=') {
        return Err(ArgsError::ExpectedEquals);
    }
    let equals: usize = skip_gaps(tokens, i);
    assert(equals < tokens.len());
    let start: usize = equals + 1;
    let negative: bool = is_mark(tokens, start, '-');
    let first: usize = skip_gaps(tokens, start);
    let at: usize = if negative {
        assert(first < tokens.len());
        skip_gaps(tokens, first + 1)
    } else {
        first
    };
    match literal_text(tokens, at, negative) {
        Some(text) => match parse_int_literal(text.as_str()) {
            Some(literal) => match literal_value(&literal) {
                Ok(n) => Ok((n, at + 1)),
                Err(message) => Err(ArgsError::UnreadableInteger(message)),
            },
            None => Err(ArgsError::ExpectedInteger { at_end: false }),
        },
        None => Err(ArgsError::ExpectedInteger { at_end: start >= tokens.len() }),
    }
}

/// The api id that the value `n` gives, when one has been given before or not:
/// it must fit in 16 bits and may be given once.
pub fn accept_api_id(given: Option<u16>, n: u64) -> (id: Result<u16, ArgsError>)
    ensures
        n > 65535 ==> (id matches Err(e) && e@ == ArgsFault::TooLarge(n)),
        n <= 65535 && given is Some ==> (id matches Err(e) && e@ == ArgsFault::Duplicate),
        n <= 65535 && given is None ==> id == Ok::<u16, ArgsError>(n as u16),
{
    if n > u16::MAX as u64 {
        Err(ArgsError::TooLarge(n))
    } else if given.is_some() {
        Err(ArgsError::Duplicate)
    } else {
        Ok(n as u16)
    }
}

impl ServiceArgs {
    /// Parses the tokens of an argument list. An empty list sets nothing.
    pub fn from_tokens(tokens: &Vec<Token>) -> (args: Result<Self, ArgsError>)
        ensures
            match parsed_args(token_shapes(tokens@)) {
                Ok(api_id) => args matches Ok(a) && a.api_id == api_id,
                Err(e) => args matches Err(f) && f@ == e,
            },
    {
        let ghost shapes = token_shapes(tokens@);
        let mut api_id: Option<u16> = None;
        if tokens.len() == 0 {
            return Ok(ServiceArgs { api_id });
        }
        let mut i: usize = 0;
        loop
            invariant
                shapes == token_shapes(tokens@),
                tokens@.len() > 0,
                parsed_args(shapes) == args_from(shapes, i as int, api_id),
            decreases tokens@.len() - i,
        {
            proof {
                lemma_argument_end(shapes, i as int);
            }
            let (name, at) = match read_key(tokens, i) {
                Ok(key) => key,
                Err(e) => {
                    return Err(e);
                },
            };
            let is_api_id: bool = match &name {
                Some(text) => text_is(text, "api_id"),
                None => false,
            };
            if !is_api_id {
                return Err(ArgsError::UnknownKey(name));
            }
            let (n, end) = match read_value(tokens, at) {
                Ok(value) => value,
                Err(e) => {
                    return Err(e);
                },
            };
            match accept_api_id(api_id, n) {
                Ok(id) => {
                    api_id = Some(id);
                },
                Err(e) => {
                    return Err(e);
                },
            }
            if end >= tokens.len() {
                return Ok(ServiceArgs { api_id });
            }
            if !is_mark(tokens, end, ',') {
                return Err(ArgsError::ExpectedComma);
            }
            let comma: usize = skip_gaps(tokens, end);
            if comma + 1 >= tokens.len() {
                return Ok(ServiceArgs { api_id });
            }
            i = comma + 1;
        }
    }

    /// Parses the argument list of a service attribute.
    pub fn parse(attr: &TokenStream) -> (args: Result<Self, ArgsError>)
        ensures
            match parsed_args(stream_tokens(*attr)) {
                Ok(api_id) => args matches Ok(a) && a.api_id == api_id,
                Err(e) => args matches Err(f) && f@ == e,
            },
    {
        Self::from_tokens(&read_tokens(attr))
    }
}

/// An api id is only ever accepted if it is the value of an integer literal
/// that stands behind `api_id =`.
pub proof fn law_accepted_id_was_written(tokens: Seq<TokenShape>)
    ensures
        parsed_args(tokens) matches Ok(Some(id)) ==> exists|at: int|
            0 <= at < tokens.len() && (#[trigger] value_at(tokens, at) matches Ok((n, _)) && n
                == id),
{
    if tokens.len() > 0 {
        lemma_accepted_id(tokens, 0, None);
    }
}

proof fn lemma_accepted_id(tokens: Seq<TokenShape>, i: int, api_id: Option<u16>)
    requires
        0 <= i < tokens.len(),
        api_id is None,
    ensures
        args_from(tokens, i, api_id) matches Ok(Some(id)) ==> exists|at: int|
            0 <= at < tokens.len() && (#[trigger] value_at(tokens, at) matches Ok((n, _)) && n
                == id),
{
    lemma_key_end(tokens, i);
    if args_from(tokens, i, api_id) is Ok {
        let (_, at) = key_at(tokens, i)->Ok_0;
        let (n, end) = value_at(tokens, at)->Ok_0;
        assert(value_at(tokens, at) == Ok::<(u64, int), ArgsFault>((n, end)));
        law_api_id_is_given_once(tokens, past_gaps(tokens, end) + 1, n as u16);
    }
}

/// `api_id` may be given once: after it, no second argument is accepted.
pub proof fn law_api_id_is_given_once(tokens: Seq<TokenShape>, i: int, given: u16)
    ensures
        args_from(tokens, i, Some(given)) is Err,
{
}

/// The tokens of `api_id = literal`.
pub open spec fn id_argument(literal: Seq<char>, joint: bool) -> Seq<TokenShape> {
    seq![
        TokenShape::Word("api_id"@),
        TokenShape::Mark('=', joint),
        TokenShape::Literal(literal),
    ]
}

/// Without arguments there is no api id. `api_id = n` gives the id `n`, with or
/// without a comma behind it, if `n` fits 16 bits; a larger one is refused by its
/// value, and a literal that is no integer for that.
pub proof fn law_written_id_is_the_api_id(literal: Seq<char>, joint: bool, comma: bool)
    ensures
        parsed_args(Seq::empty()) == Ok::<Option<u16>, ArgsFault>(None),
        ({
            let parsed = parsed_args(id_argument(literal, joint));
            &&& parsed_args(id_argument(literal, joint).push(TokenShape::Mark(',', comma)))
                == parsed
            &&& match digits_of(literal) {
                None => parsed == Err::<Option<u16>, ArgsFault>(
                    ArgsFault::ExpectedInteger { at_end: false },
                ),
                Some(digits) => crate::text::is_decimal(digits) ==> {
                    let n = crate::text::decimal_value(digits);
                    &&& n <= 65535 ==> parsed == Ok::<Option<u16>, ArgsFault>(Some(n as u16))
                    &&& 65535 < n <= u64::MAX ==> parsed == Err::<Option<u16>, ArgsFault>(
                        ArgsFault::TooLarge(n as u64),
                    )
                },
            }
        }),
{
    lemma_id_argument(id_argument(literal, joint), literal, joint);
    lemma_id_argument(
        id_argument(literal, joint).push(TokenShape::Mark(',', comma)),
        literal,
        joint,
    );
}

proof fn lemma_id_argument(tokens: Seq<TokenShape>, literal: Seq<char>, joint: bool)
    requires
        tokens.len() >= 3,
        tokens[0] == TokenShape::Word("api_id"@),
        tokens[1] == TokenShape::Mark('=', joint),
        tokens[2] == TokenShape::Literal(literal),
    ensures
        key_at(tokens, 0) == Ok::<(Option<Seq<char>>, int), ArgsFault>((Some("api_id"@), 1)),
        value_at(tokens, 1) == match digits_of(literal) {
            Some(digits) => match digits_value(digits) {
                Ok(n) => Ok::<(u64, int), ArgsFault>((n, 3)),
                Err(message) => Err(ArgsFault::UnreadableInteger(message)),
            },
            None => Err(ArgsFault::ExpectedInteger { at_end: false }),
        },
{
    assert(past_gaps(tokens, 0) == 0);
    assert(past_gaps(tokens, 1) == 1);
    assert(past_gaps(tokens, 2) == 2);
    assert(separator_end(tokens, 0) is None);
    assert(separator_end(tokens, 1) is None);
    assert(path_from(tokens, 0) == Ok::<(int, int), ArgsFault>((1, 1)));
}

/// An id that is given a second time is refused, whatever it is, if both fit 16
/// bits.
pub proof fn law_second_id_is_refused(
    first: Seq<char>,
    second: Seq<char>,
    n: u16,
    m: u16,
    joint: bool,
)
    requires
        digits_of(first) matches Some(d) && digits_value(d) == Ok::<u64, Seq<char>>(n as u64),
        digits_of(second) matches Some(d) && digits_value(d) == Ok::<u64, Seq<char>>(m as u64),
    ensures
        parsed_args(
            id_argument(first, joint).push(TokenShape::Mark(',', joint)) + id_argument(
                second,
                joint,
            ),
        ) == Err::<Option<u16>, ArgsFault>(ArgsFault::Duplicate),
{
    let tokens = id_argument(first, joint).push(TokenShape::Mark(',', joint)) + id_argument(
        second,
        joint,
    );
    lemma_id_argument(tokens, first, joint);
    assert(tokens[3] == TokenShape::Mark(',', joint));
    assert(tokens[4] == TokenShape::Word("api_id"@));
    assert(tokens[5] == TokenShape::Mark('=', joint));
    assert(tokens[6] == TokenShape::Literal(second));
    assert(past_gaps(tokens, 3) == 3);
    assert(past_gaps(tokens, 4) == 4);
    assert(past_gaps(tokens, 5) == 5);
    assert(past_gaps(tokens, 6) == 6);
    assert(separator_end(tokens, 4) is None);
    assert(separator_end(tokens, 5) is None);
    assert(path_from(tokens, 4) == Ok::<(int, int), ArgsFault>((5, 1)));
    assert(key_at(tokens, 4) == Ok::<(Option<Seq<char>>, int), ArgsFault>((Some("api_id"@), 5)));
    assert(value_at(tokens, 5) == Ok::<(u64, int), ArgsFault>((m as u64, 7)));
    assert(args_from(tokens, 4, Some(n)) == Err::<Option<u16>, ArgsFault>(ArgsFault::Duplicate));
}

/// A key that is another word is refused by its name, whatever follows it but a
/// path separator.
pub proof fn law_unknown_key_is_named(name: Seq<char>, rest: Seq<TokenShape>)
    requires
        name != "api_id"@,
        rest.len() > 0 ==> !(rest[0] is Gap) && !(rest[0] matches TokenShape::Mark(c, _) && c
            == ':'),
    ensures
        parsed_args(seq![TokenShape::Word(name)] + rest) == Err::<Option<u16>, ArgsFault>(
            ArgsFault::UnknownKey(Some(name)),
        ),
{
    let tokens = seq![TokenShape::Word(name)] + rest;
    if rest.len() > 0 {
        assert(tokens[1] == rest[0]);
    }
    assert(tokens[0] == TokenShape::Word(name));
    assert(past_gaps(tokens, 0) == 0);
    assert(past_gaps(tokens, 1) == 1);
    assert(separator_end(tokens, 0) is None);
    assert(separator_end(tokens, 1) is None);
    assert(path_from(tokens, 0) == Ok::<(int, int), ArgsFault>((1, 1)));
}

/// `api_id` needs a value: without an equals sign behind it, the sign is asked
/// for, and without anything behind the sign, the integer.
pub proof fn law_id_needs_a_value(rest: Seq<TokenShape>, joint: bool)
    requires
        rest.len() > 0 ==> !(rest[0] is Gap) && !(rest[0] matches TokenShape::Mark(c, _) && (c
            == ':' || c == '=')),
    ensures
        parsed_args(seq![TokenShape::Word("api_id"@)] + rest) == Err::<Option<u16>, ArgsFault>(
            ArgsFault::ExpectedEquals,
        ),
        parsed_args(seq![TokenShape::Word("api_id"@), TokenShape::Mark('=', joint)]) == Err::<
            Option<u16>,
            ArgsFault,
        >(ArgsFault::ExpectedInteger { at_end: true }),
{
    let tokens = seq![TokenShape::Word("api_id"@)] + rest;
    if rest.len() > 0 {
        assert(tokens[1] == rest[0]);
    }
    assert(tokens[0] == TokenShape::Word("api_id"@));
    assert(past_gaps(tokens, 0) == 0);
    assert(past_gaps(tokens, 1) == 1);
    assert(separator_end(tokens, 0) is None);
    assert(separator_end(tokens, 1) is None);
    assert(path_from(tokens, 0) == Ok::<(int, int), ArgsFault>((1, 1)));
    let short = seq![TokenShape::Word("api_id"@), TokenShape::Mark('=', joint)];
    assert(past_gaps(short, 0) == 0);
    assert(past_gaps(short, 1) == 1);
    assert(past_gaps(short, 2) == 2);
    assert(separator_end(short, 0) is None);
    assert(separator_end(short, 1) is None);
    assert(path_from(short, 0) == Ok::<(int, int), ArgsFault>((1, 1)));
}

/// The digits of a literal stand for the number that they spell in decimal, if it
/// fits 64 bits.
pub proof fn law_digits_are_read_in_decimal(n: u64)
    ensures
        unsigned_value(crate::text::decimal(n as nat)) == Some(n),
{
    crate::text::law_decimal_round_trip(n as nat);
}

} // verus!
