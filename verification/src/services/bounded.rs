//! Texts with a fixed capacity, for services that have no heap.

use vstd::prelude::*;

use crate::services::salutation::Salutation;

verus! {

/// A text of at most 64 bytes: a `heapless::String<64>`.
#[verifier::external_body]
pub struct BoundedText {
    inner: heapless::String<64>,
}

/// The characters of a bounded text.
pub uninterp spec fn bounded_chars(text: BoundedText) -> Seq<char>;

/// The number of bytes that `chars` take.
pub open spec fn byte_len(chars: Seq<char>) -> int {
    vstd::utf8::encode_utf8(chars).len() as int
}

/// What a text of at most 64 bytes becomes when `piece` is put behind it: a
/// piece that does not fit is left out.
pub open spec fn pushed(chars: Seq<char>, piece: Seq<char>) -> Seq<char> {
    if byte_len(chars) + byte_len(piece) <= 64 {
        chars + piece
    } else {
        chars
    }
}

/// `heapless::String::new`: the new text is empty.
#[verifier::external_body]
fn new_bounded() -> (text: BoundedText)
    ensures
        bounded_chars(text) == Seq::<char>::empty(),
{
    BoundedText { inner: heapless::String::new() }
}

/// `heapless::String::push_str`: the piece is appended if all of it fits, else
/// nothing changes and the call reports that the capacity does not suffice.
#[verifier::external_body]
fn push_bounded(text: &mut BoundedText, piece: &str) -> (fits: bool)
    ensures
        fits == (byte_len(bounded_chars(*old(text))) + byte_len(piece@) <= 64),
        bounded_chars(*final(text)) == pushed(bounded_chars(*old(text)), piece@),
{
    text.inner.push_str(piece).is_ok()
}

/// `heapless::String::as_str`: the characters of the text.
#[verifier::external_body]
fn bounded_str(text: &BoundedText) -> (chars: &str)
    ensures
        chars@ == bounded_chars(*text),
{
    text.inner.as_str()
}

impl BoundedText {
    /// The text on the heap.
    pub fn to_text(&self) -> (text: String)
        ensures
            text@ == bounded_chars(*self),
    {
        bounded_str(self).to_owned()
    }
}

impl Salutation {
    /// Greets `name` in at most 64 bytes. What does not fit is left out: a
    /// name that is too long leaves the text around it.
    pub fn greet_bounded(&self, name: &str) -> (greeting: BoundedText)
        ensures
            bounded_chars(greeting) == pushed(
                pushed(pushed(Seq::empty(), self.opening@), name@),
                self.closing@,
            ),
    {
        let mut greeting = new_bounded();
        push_bounded(&mut greeting, self.opening.as_str());
        push_bounded(&mut greeting, name);
        push_bounded(&mut greeting, self.closing.as_str());
        greeting
    }
}

/// Concatenation takes the bytes of both parts.
proof fn lemma_byte_len(a: Seq<char>, b: Seq<char>)
    ensures
        byte_len(a + b) == byte_len(a) + byte_len(b),
    decreases a.len(),
{
    if a.len() == 0 {
        assert(a + b =~= b);
    } else {
        assert((a + b).drop_first() =~= a.drop_first() + b);
        lemma_byte_len(a.drop_first(), b);
    }
}

/// A bounded greeting never takes more than 64 bytes.
pub proof fn law_bounded_greeting_fits(opening: Seq<char>, name: Seq<char>, closing: Seq<char>)
    ensures
        byte_len(pushed(pushed(pushed(Seq::empty(), opening), name), closing)) <= 64,
{
    lemma_pushed(Seq::empty(), opening);
    lemma_pushed(pushed(Seq::empty(), opening), name);
    lemma_pushed(pushed(pushed(Seq::empty(), opening), name), closing);
}

proof fn lemma_pushed(chars: Seq<char>, piece: Seq<char>)
    requires
        byte_len(chars) <= 64,
    ensures
        byte_len(pushed(chars, piece)) <= 64,
{
    lemma_byte_len(chars, piece);
}

/// A greeting that takes at most 64 bytes is not cut.
pub proof fn law_short_greeting_is_whole(opening: Seq<char>, name: Seq<char>, closing: Seq<char>)
    requires
        byte_len(opening) + byte_len(name) + byte_len(closing) <= 64,
    ensures
        pushed(pushed(pushed(Seq::empty(), opening), name), closing) == opening + name + closing,
{
    assert(Seq::<char>::empty() + opening =~= opening);
    lemma_byte_len(opening, name);
}

} // verus!
