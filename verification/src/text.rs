use vstd::prelude::*;

use vstd::string::StringSliceAdditionalSpecFns;
use vstd::utf8::{decode_utf8, encode_utf8, encode_utf8_decode_utf8};

verus! {

/// Whether two strings hold the same characters.
pub fn str_eq(a: &str, b: &str) -> (res: bool)
    ensures
        res == (a@ == b@),
{
    let x = a.as_bytes();
    let y = b.as_bytes();
    proof {
        encode_utf8_decode_utf8(a@);
        encode_utf8_decode_utf8(b@);
    }
    if x.len() != y.len() {
        return false;
    }
    let mut i: usize = 0;
    while i < x.len()
        invariant
            i <= x@.len() == y@.len(),
            x@ == a.spec_bytes(),
            y@ == b.spec_bytes(),
            a.spec_bytes() == encode_utf8(a@),
            b.spec_bytes() == encode_utf8(b@),
            decode_utf8(encode_utf8(a@)) == a@,
            decode_utf8(encode_utf8(b@)) == b@,
            forall|j: int| 0 <= j < i ==> #[trigger] x@[j] == y@[j],
        decreases x@.len() - i,
    {
        if x[i] != y[i] {
            assert(x@[i as int] != y@[i as int]);
            return false;
        }
        i = i + 1;
    }
    assert(x@ =~= y@);
    true
}

/// Whether `b` is the ASCII code of a decimal digit.
pub open spec fn is_ascii_digit(b: u8) -> bool {
    48 <= b <= 57
}

/// The value of a string of decimal digits.
pub open spec fn digits_value(digits: Seq<u8>) -> nat
    decreases digits.len(),
{
    if digits.len() == 0 {
        0
    } else {
        digits_value(digits.drop_last()) * 10 + (digits.last() - 48) as nat
    }
}

/// The digits of a number with its optional leading `+` taken off.
pub open spec fn unsigned_digits(text: Seq<u8>) -> Seq<u8> {
    if text.len() > 0 && text[0] == 43 {
        text.drop_first()
    } else {
        text
    }
}

/// What `u8::from_str` accepts: an optional `+` and at least one decimal
/// digit, with a value that fits in a byte.
pub open spec fn parsed_u8(text: Seq<u8>) -> Option<u8> {
    let digits = unsigned_digits(text);
    if digits.len() == 0 || exists|i: int| 0 <= i < digits.len() && !is_ascii_digit(
        #[trigger] digits[i],
    ) {
        None
    } else if digits_value(digits) > 255 {
        None
    } else {
        Some(digits_value(digits) as u8)
    }
}

proof fn lemma_digits_value_grows(digits: Seq<u8>, n: int)
    requires
        0 <= n <= digits.len(),
        forall|i: int| 0 <= i < digits.len() ==> is_ascii_digit(#[trigger] digits[i]),
    ensures
        digits_value(digits.take(n)) <= digits_value(digits),
    decreases digits.len() - n,
{
    if n < digits.len() {
        lemma_digits_value_grows(digits.drop_last(), n);
        assert(digits.drop_last().take(n) =~= digits.take(n));
        assert(digits.drop_last() =~= digits.take(digits.len() - 1));
    } else {
        assert(digits.take(n) =~= digits);
    }
}

/// Parses a byte the way `u8::from_str` does.
pub fn parse_u8(text: &str) -> (res: Option<u8>)
    ensures
        res == parsed_u8(text.spec_bytes()),
{
    let bytes = text.as_bytes();
    let ghost all = bytes@;
    let start: usize = if bytes.len() > 0 && bytes[0] == 43 {
        1
    } else {
        0
    };
    let ghost digits = unsigned_digits(all);
    assert(digits =~= all.subrange(start as int, all.len() as int));
    if start == bytes.len() {
        assert(digits.len() == 0);
        return None;
    }
    let mut value: u32 = 0;
    let mut i: usize = start;
    while i < bytes.len()
        invariant
            start <= i <= bytes@.len(),
            bytes@ == all,
            all == text.spec_bytes(),
            digits == unsigned_digits(all),
            digits == all.subrange(start as int, all.len() as int),
            forall|j: int| 0 <= j < i - start ==> is_ascii_digit(#[trigger] digits[j]),
            value == digits_value(digits.take(i - start)),
            value <= 255,
        decreases bytes@.len() - i,
    {
        let b = bytes[i];
        if b < 48 || b > 57 {
            assert(!is_ascii_digit(digits[i - start]));
            return None;
        }
        assert(digits.take(i - start + 1).drop_last() =~= digits.take(i - start));
        value = value * 10 + (b - 48) as u32;
        i = i + 1;
        if value > 255 {
            proof {
                if forall|j: int| 0 <= j < digits.len() ==> is_ascii_digit(#[trigger] digits[j]) {
                    lemma_digits_value_grows(digits, i - start);
                }
            }
            return None;
        }
    }
    assert(digits.take(digits.len() as int) =~= digits);
    Some(value as u8)
}

/// Calls `String::push`, which appends one character.
#[verifier::external_body]
fn push_char(text: &mut String, c: char)
    ensures
        final(text)@ == old(text)@.push(c),
{
    text.push(c);
}

/// `text` without its spaces.
pub open spec fn without_spaces(text: Seq<char>) -> Seq<char> {
    text.filter(|c: char| c != ' ')
}

/// Removes every space, as clients often break long Mii data apart.
pub fn remove_spaces(text: &str) -> (res: String)
    ensures
        res@ == without_spaces(text@),
{
    let mut res = String::new();
    let length = text.unicode_len();
    let mut i: usize = 0;
    while i < length
        invariant
            i <= length == text@.len(),
            res@ == without_spaces(text@.take(i as int)),
        decreases length - i,
    {
        let c = text.get_char(i);
        assert(text@.take(i + 1).drop_last() =~= text@.take(i as int));
        reveal_with_fuel(Seq::filter, 1);
        if c != ' ' {
            push_char(&mut res, c);
        }
        i = i + 1;
    }
    assert(text@.take(length as int) =~= text@);
    res
}

} // verus!
