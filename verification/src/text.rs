//! Work with texts.

use vstd::prelude::*;

verus! {

/// The digit of value `d`, in lower case where it is a letter.
pub open spec fn digit(d: int) -> Seq<char>
    recommends
        0 <= d < 16,
{
    if d == 0 {
        "0"@
    } else if d == 1 {
        "1"@
    } else if d == 2 {
        "2"@
    } else if d == 3 {
        "3"@
    } else if d == 4 {
        "4"@
    } else if d == 5 {
        "5"@
    } else if d == 6 {
        "6"@
    } else if d == 7 {
        "7"@
    } else if d == 8 {
        "8"@
    } else if d == 9 {
        "9"@
    } else if d == 10 {
        "a"@
    } else if d == 11 {
        "b"@
    } else if d == 12 {
        "c"@
    } else if d == 13 {
        "d"@
    } else if d == 14 {
        "e"@
    } else {
        "f"@
    }
}

/// `n` in decimal, without leading zeros.
pub open spec fn decimal(n: nat) -> Seq<char>
    decreases n,
{
    if n < 10 {
        digit(n as int)
    } else {
        decimal(n / 10) + digit((n % 10) as int)
    }
}

/// Whether `text` is one decimal digit or more, and nothing else.
pub open spec fn is_decimal(text: Seq<char>) -> bool {
    &&& text.len() > 0
    &&& forall|i: int| 0 <= i < text.len() ==> '0' <= #[trigger] text[i] <= '9'
}

/// The number that decimal digits stand for.
pub open spec fn decimal_value(text: Seq<char>) -> nat
    decreases text.len(),
{
    if text.len() == 0 {
        0
    } else {
        10 * decimal_value(text.drop_last()) + (text.last() as nat - '0' as nat) as nat
    }
}

/// A number written in decimal stands for itself.
pub proof fn law_decimal_round_trip(n: nat)
    ensures
        is_decimal(decimal(n)),
        decimal_value(decimal(n)) == n,
    decreases n,
{
    lemma_digit((n % 10) as int);
    let last = digit((n % 10) as int);
    if n < 10 {
        assert(decimal(n) == last);
        assert(last.drop_last() =~= Seq::empty());
        reveal_with_fuel(decimal_value, 2);
    } else {
        law_decimal_round_trip(n / 10);
        let text = decimal(n / 10) + last;
        assert(text.drop_last() =~= decimal(n / 10));
        assert(text.last() == last[0]);
        assert forall|i: int| 0 <= i < text.len() implies '0' <= #[trigger] text[i] <= '9' by {
            if i < decimal(n / 10).len() {
                assert(text[i] == decimal(n / 10)[i]);
            }
        }
    }
}

proof fn lemma_digit(d: int)
    requires
        0 <= d < 10,
    ensures
        digit(d).len() == 1,
        '0' <= digit(d)[0] <= '9',
        digit(d)[0] as nat - '0' as nat == d,
{
    reveal_strlit("0");
    reveal_strlit("1");
    reveal_strlit("2");
    reveal_strlit("3");
    reveal_strlit("4");
    reveal_strlit("5");
    reveal_strlit("6");
    reveal_strlit("7");
    reveal_strlit("8");
    reveal_strlit("9");
}

/// `n` as four hexadecimal digits.
pub open spec fn hex4(n: u16) -> Seq<char> {
    digit(n as int / 4096) + digit(n as int / 256 % 16) + digit(n as int / 16 % 16) + digit(
        n as int % 16,
    )
}

fn digit_text(d: u64) -> (text: &'static str)
    requires
        d < 16,
    ensures
        text@ == digit(d as int),
{
    if d == 0 {
        "0"
    } else if d == 1 {
        "1"
    } else if d == 2 {
        "2"
    } else if d == 3 {
        "3"
    } else if d == 4 {
        "4"
    } else if d == 5 {
        "5"
    } else if d == 6 {
        "6"
    } else if d == 7 {
        "7"
    } else if d == 8 {
        "8"
    } else if d == 9 {
        "9"
    } else if d == 10 {
        "a"
    } else if d == 11 {
        "b"
    } else if d == 12 {
        "c"
    } else if d == 13 {
        "d"
    } else if d == 14 {
        "e"
    } else {
        "f"
    }
}

/// `n` in decimal.
pub fn decimal_text(n: u64) -> (text: String)
    ensures
        text@ == decimal(n as nat),
    decreases n,
{
    if n < 10 {
        digit_text(n).to_owned()
    } else {
        let mut text = decimal_text(n / 10);
        text.append(digit_text(n % 10));
        text
    }
}

/// `n` as four hexadecimal digits.
pub fn hex4_text(n: u16) -> (text: String)
    ensures
        text@ == hex4(n),
{
    let mut text = digit_text((n / 4096) as u64).to_owned();
    text.append(digit_text((n / 256 % 16) as u64));
    text.append(digit_text((n / 16 % 16) as u64));
    text.append(digit_text((n % 16) as u64));
    text
}

/// Whether `text` reads `literal`.
pub fn text_is(text: &String, literal: &str) -> (same: bool)
    ensures
        same == (text@ == literal@),
{
    *text == literal.to_owned()
}

/// What stands before `suffix` in `text`, if `text` ends in it.
pub open spec fn before_suffix(text: Seq<char>, suffix: Seq<char>) -> Option<Seq<char>> {
    let split = text.len() - suffix.len();
    if split >= 0 && text.subrange(split, text.len() as int) == suffix {
        Some(text.subrange(0, split))
    } else {
        None
    }
}

/// What stands before `suffix` in `text`, if `text` ends in it.
pub fn strip_suffix(text: &String, suffix: &str) -> (stripped: Option<String>)
    ensures
        match before_suffix(text@, suffix@) {
            Some(front) => stripped matches Some(s) && s@ == front,
            None => stripped is None,
        },
{
    let len: usize = text.as_str().unicode_len();
    let suffix_len: usize = suffix.unicode_len();
    if len < suffix_len {
        return None;
    }
    let tail = text.as_str().substring_char(len - suffix_len, len).to_owned();
    if text_is(&tail, suffix) {
        Some(text.as_str().substring_char(0, len - suffix_len).to_owned())
    } else {
        None
    }
}

/// The texts that `list` holds.
pub open spec fn texts(list: Seq<String>) -> Seq<Seq<char>> {
    Seq::new(list.len(), |i: int| list[i]@)
}

/// The parts one after the other, with `separator` between them.
pub open spec fn join(parts: Seq<Seq<char>>, separator: Seq<char>) -> Seq<char>
    decreases parts.len(),
{
    if parts.len() == 0 {
        Seq::empty()
    } else if parts.len() == 1 {
        parts[0]
    } else {
        join(parts.drop_last(), separator) + separator + parts.last()
    }
}

/// Joins texts with a separator between them.
pub fn join_texts(parts: &Vec<String>, separator: &str) -> (text: String)
    ensures
        text@ == join(texts(parts@), separator@),
{
    let ghost all = texts(parts@);
    let mut text = String::new();
    let mut i: usize = 0;
    while i < parts.len()
        invariant
            i <= parts@.len(),
            all == texts(parts@),
            text@ == join(all.take(i as int), separator@),
        decreases parts.len() - i,
    {
        proof {
            let next = all.take(i + 1);
            assert(next.drop_last() =~= all.take(i as int));
            assert(next.last() == parts@[i as int]@);
        }
        if i > 0 {
            text.append(separator);
        }
        text.append(parts[i].as_str());
        i = i + 1;
        assert(text@ =~= join(all.take(i as int), separator@));
    }
    assert(all.take(parts@.len() as int) =~= all);
    text
}

/// The parts one after the other.
pub open spec fn concat(parts: Seq<Seq<char>>) -> Seq<char>
    decreases parts.len(),
{
    if parts.len() == 0 {
        Seq::empty()
    } else {
        concat(parts.drop_last()) + parts.last()
    }
}

/// Puts texts one after the other.
pub fn concat_texts(parts: &Vec<String>) -> (text: String)
    ensures
        text@ == concat(texts(parts@)),
{
    let ghost all = texts(parts@);
    let mut text = String::new();
    let mut i: usize = 0;
    while i < parts.len()
        invariant
            i <= parts@.len(),
            all == texts(parts@),
            text@ == concat(all.take(i as int)),
        decreases parts.len() - i,
    {
        proof {
            let next = all.take(i + 1);
            assert(next.drop_last() =~= all.take(i as int));
            assert(next.last() == parts@[i as int]@);
        }
        text.append(parts[i].as_str());
        i = i + 1;
    }
    assert(all.take(parts@.len() as int) =~= all);
    text
}

/// The value of a hexadecimal digit in lower case.
pub open spec fn hex_digit_value(c: char) -> int {
    if '0' <= c <= '9' {
        c as int - '0' as int
    } else {
        c as int - 'a' as int + 10
    }
}

proof fn lemma_hex_digit(d: int)
    requires
        0 <= d < 16,
    ensures
        digit(d).len() == 1,
        '0' <= digit(d)[0] <= '9' || 'a' <= digit(d)[0] <= 'f',
        hex_digit_value(digit(d)[0]) == d,
{
    if d < 10 {
        lemma_digit(d);
    } else {
        reveal_strlit("a");
        reveal_strlit("b");
        reveal_strlit("c");
        reveal_strlit("d");
        reveal_strlit("e");
        reveal_strlit("f");
    }
}

/// A number in hexadecimal is four digits in lower case that stand for it, the
/// most significant first.
pub proof fn law_hex_digits_stand_for_the_number(n: u16)
    ensures
        hex4(n).len() == 4,
        forall|i: int|
            0 <= i < 4 ==> '0' <= #[trigger] hex4(n)[i] <= '9' || 'a' <= hex4(n)[i] <= 'f',
        hex_digit_value(hex4(n)[0]) * 4096 + hex_digit_value(hex4(n)[1]) * 256 + hex_digit_value(
            hex4(n)[2],
        ) * 16 + hex_digit_value(hex4(n)[3]) == n,
{
    let a = n as int / 4096;
    let b = n as int / 256 % 16;
    let c = n as int / 16 % 16;
    let d = n as int % 16;
    lemma_hex_digit(a);
    lemma_hex_digit(b);
    lemma_hex_digit(c);
    lemma_hex_digit(d);
    assert(hex4(n)[0] == digit(a)[0]);
    assert(hex4(n)[1] == digit(b)[0]);
    assert(hex4(n)[2] == digit(c)[0]);
    assert(hex4(n)[3] == digit(d)[0]);
}

/// A number in decimal has no leading zero, unless it is zero.
pub proof fn law_decimal_has_no_leading_zero(n: nat)
    ensures
        decimal(n).len() > 0,
        n > 0 ==> decimal(n)[0] != '0',
        n == 0 ==> decimal(n) == seq!['0'],
    decreases n,
{
    if n < 10 {
        lemma_digit(n as int);
        if n == 0 {
            assert(decimal(n) =~= seq!['0']);
        }
    } else {
        law_decimal_has_no_leading_zero(n / 10);
        assert(decimal(n)[0] == decimal(n / 10)[0]);
    }
}

/// Texts that are put one after the other are all there, whole and in their
/// order: so many parts more make so much text more, behind what was there.
pub proof fn law_concat_keeps_every_part(front: Seq<Seq<char>>, back: Seq<Seq<char>>)
    ensures
        concat(front + back) == concat(front) + concat(back),
        front.len() == 1 ==> concat(front) == front[0],
        front.len() == 0 ==> concat(front).len() == 0,
    decreases back.len(),
{
    reveal_with_fuel(concat, 2);
    if back.len() == 0 {
        assert(front + back =~= front);
        assert(concat(front) + concat(back) =~= concat(front));
    } else {
        law_concat_keeps_every_part(front, back.drop_last());
        assert((front + back).drop_last() =~= front + back.drop_last());
        assert(concat(front + back) =~= concat(front) + concat(back));
    }
    if front.len() == 1 {
        assert(front.drop_last() =~= Seq::empty());
        assert(concat(front) =~= front[0]);
    }
}

/// Texts that are joined are all there, whole and in their order, with the
/// separator between each two of them and nowhere else.
pub proof fn law_join_separates_every_two_parts(
    front: Seq<Seq<char>>,
    back: Seq<Seq<char>>,
    separator: Seq<char>,
)
    ensures
        front.len() > 0 && back.len() > 0 ==> join(front + back, separator) == join(
            front,
            separator,
        ) + separator + join(back, separator),
        front.len() == 1 ==> join(front, separator) == front[0],
        front.len() == 0 ==> join(front, separator).len() == 0,
    decreases back.len(),
{
    if front.len() > 0 && back.len() > 0 {
        assert((front + back).drop_last() =~= front + back.drop_last());
        if back.len() > 1 {
            law_join_separates_every_two_parts(front, back.drop_last(), separator);
            assert(join(front + back, separator) =~= join(front, separator) + separator + join(
                back,
                separator,
            ));
        } else {
            assert(front + back.drop_last() =~= front);
        }
    }
}

/// A suffix is taken off exactly the texts that end in it, and nothing else of
/// them.
pub proof fn law_suffix_is_taken_off(front: Seq<char>, text: Seq<char>, suffix: Seq<char>)
    ensures
        before_suffix(text, suffix) == Some(front) <==> text == front + suffix,
{
    let split = text.len() - suffix.len();
    if text == front + suffix {
        assert(text.subrange(split, text.len() as int) =~= suffix);
        assert(text.subrange(0, split) =~= front);
    }
    if before_suffix(text, suffix) == Some(front) {
        assert(text =~= front + suffix);
    }
}

} // verus!
