//! Texts: comparing them, taking them apart and reading numbers in them.

use vstd::prelude::*;

verus! {

/// `String::push` of std appends one character to the end of the string.
pub assume_specification[ String::push ](s: &mut String, c: char)
    ensures
        final(s)@ == old(s)@.push(c),
;

/// The texts of a list as mathematical values.
pub open spec fn texts(list: Seq<String>) -> Seq<Seq<char>> {
    Seq::new(list.len(), |i: int| list[i]@)
}

/// Whether two texts are the same.
pub fn same_text(a: &str, b: &str) -> (res: bool)
    ensures
        res == (a@ == b@),
{
    a.to_owned() == b.to_owned()
}

/// Whether `text` is one of the texts of `list`.
pub fn contains_text(list: &Vec<String>, text: &str) -> (res: bool)
    ensures
        res == texts(list@).contains(text@),
{
    let wanted = text.to_owned();
    for i in 0..list.len()
        invariant
            wanted@ == text@,
            forall|j: int| 0 <= j < i ==> texts(list@)[j] != text@,
    {
        if list[i] == wanted {
            assert(texts(list@)[i as int] == text@);
            return true;
        }
    }
    false
}

/// The characters of `text`.
pub fn chars_of(text: &str) -> (res: Vec<char>)
    ensures
        res@ == text@,
{
    let mut res: Vec<char> = Vec::new();
    for c in it: text.chars()
        invariant
            it.seq() == text@,
            res@ == text@.take(it.index()),
    {
        res.push(c);
    }
    res
}

/// The characters of `chars` from position `from` up to, but not
/// including, position `to`, as a text.
pub fn text_between(chars: &Vec<char>, from: usize, to: usize) -> (res: String)
    requires
        from <= to <= chars.len(),
    ensures
        res@ == chars@.subrange(from as int, to as int),
{
    let mut res = String::new();
    let mut i: usize = from;
    while i < to
        invariant
            from <= i <= to <= chars.len(),
            res@ == chars@.subrange(from as int, i as int),
        decreases to - i,
    {
        res.push(chars[i]);
        i = i + 1;
    }
    res
}

/// Whether `c` is a decimal digit.
pub open spec fn is_digit(c: char) -> bool {
    '0' <= c <= '9'
}

/// The number of decimal digits that `s` begins with.
pub open spec fn digit_run(s: Seq<char>) -> int
    decreases s.len(),
{
    if s.len() > 0 && is_digit(s[0]) {
        1 + digit_run(s.drop_first())
    } else {
        0
    }
}

/// The digits that `s` begins with.
pub open spec fn leading_digits(s: Seq<char>) -> Seq<char> {
    s.take(digit_run(s))
}

/// The number that the decimal digits `digits` stand for.
pub open spec fn digits_value(digits: Seq<char>) -> nat
    decreases digits.len(),
{
    if digits.len() == 0 {
        0
    } else {
        digits_value(digits.drop_last()) * 10 + (digits.last() as nat - '0' as nat) as nat
    }
}

/// The digits that a text begins with are digits, they are followed by
/// something else or by nothing, and they are the whole text if and only if
/// the text holds nothing but digits.
pub proof fn lemma_digit_run(s: Seq<char>)
    ensures
        0 <= digit_run(s) <= s.len(),
        forall|i: int| 0 <= i < digit_run(s) ==> is_digit(#[trigger] s[i]),
        digit_run(s) < s.len() ==> !is_digit(s[digit_run(s)]),
        digit_run(s) == s.len() <==> (forall|i: int|
            0 <= i < s.len() ==> is_digit(#[trigger] s[i])),
    decreases s.len(),
{
    if s.len() > 0 && is_digit(s[0]) {
        let rest = s.drop_first();
        lemma_digit_run(rest);
        assert forall|i: int| 0 <= i < digit_run(s) implies is_digit(#[trigger] s[i]) by {
            if i > 0 {
                assert(s[i] == rest[i - 1]);
            }
        }
        if forall|i: int| 0 <= i < s.len() ==> is_digit(#[trigger] s[i]) {
            assert forall|i: int| 0 <= i < rest.len() implies is_digit(#[trigger] rest[i]) by {
                assert(rest[i] == s[i + 1]);
            }
        }
    }
}

/// Reads the number that begins at `from`. The result holds the position
/// behind the last digit of the number, and its value if that fits in 64
/// bits.
pub fn read_number(chars: &Vec<char>, from: usize) -> (res: (usize, Option<u64>))
    requires
        from <= chars.len(),
    ensures
        res.0 == from + digit_run(chars@.skip(from as int)),
        res.0 <= chars.len(),
        match res.1 {
            Some(value) => value == digits_value(leading_digits(chars@.skip(from as int))),
            None => digits_value(leading_digits(chars@.skip(from as int))) > u64::MAX,
        },
{
    let ghost number = chars@.skip(from as int);
    let mut value: u64 = 0;
    let mut fits = true;
    let mut i: usize = from;
    while i < chars.len() && chars[i] >= '0' && chars[i] <= '9'
        invariant
            from <= i <= chars.len(),
            number == chars@.skip(from as int),
            digit_run(number) == (i - from) + digit_run(chars@.skip(i as int)),
            fits ==> value == digits_value(chars@.subrange(from as int, i as int)),
            !fits ==> digits_value(chars@.subrange(from as int, i as int)) > u64::MAX,
        decreases chars.len() - i,
    {
        let digit: u64 = (chars[i] as u32 - '0' as u32) as u64;
        proof {
            assert(chars@.skip(i as int).drop_first() == chars@.skip(i as int + 1));
            assert(chars@.subrange(from as int, i as int + 1).drop_last() == chars@.subrange(
                from as int,
                i as int,
            ));
        }
        if fits {
            match value.checked_mul(10) {
                Some(shifted) => match shifted.checked_add(digit) {
                    Some(sum) => {
                        value = sum;
                    },
                    None => {
                        fits = false;
                    },
                },
                None => {
                    fits = false;
                },
            }
        }
        i = i + 1;
    }
    assert(number.take(i - from) == chars@.subrange(from as int, i as int));
    if fits {
        (i, Some(value))
    } else {
        (i, None)
    }
}

} // verus!
