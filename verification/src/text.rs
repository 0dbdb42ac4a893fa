//! Small text helpers: the characters of a string, white space and
//! trimming, and numbers in decimal.

use vstd::prelude::*;
use vstd::string::{StrSliceExecFns, StringExecFns};

verus! {

/// The characters of a text, one by one.
pub fn chars_of(text: &str) -> (chars: Vec<char>)
    ensures
        chars@ == text@,
{
    let mut chars: Vec<char> = Vec::new();
    for c in it: text.chars()
        invariant
            chars@ == it.seq().take(it.index() as int),
    {
        chars.push(c);
    }
    chars
}

/// Whether a character is white space: one of the characters with the
/// Unicode property `White_Space`.
pub open spec fn white_space(c: char) -> bool {
    let v = c as u32;
    ||| 0x09 <= v <= 0x0D
    ||| v == 0x20
    ||| v == 0x85
    ||| v == 0xA0
    ||| v == 0x1680
    ||| 0x2000 <= v <= 0x200A
    ||| v == 0x2028
    ||| v == 0x2029
    ||| v == 0x202F
    ||| v == 0x205F
    ||| v == 0x3000
}

/// Tells white space from other characters.
pub fn is_white_space(c: char) -> (r: bool)
    ensures
        r == white_space(c),
{
    let v = c as u32;
    (0x09 <= v && v <= 0x0D) || v == 0x20 || v == 0x85 || v == 0xA0 || v == 0x1680 || (0x2000 <= v
        && v <= 0x200A) || v == 0x2028 || v == 0x2029 || v == 0x202F || v == 0x205F || v
        == 0x3000
}

/// The length of a text once the white space at its end is cut off.
pub open spec fn trimmed_len(text: Seq<char>) -> int
    decreases text.len(),
{
    if text.len() == 0 {
        0
    } else if white_space(text.last()) {
        trimmed_len(text.drop_last())
    } else {
        text.len() as int
    }
}

/// Where the first character from `from` on that is no white space stands;
/// the length of the text where there is none.
pub open spec fn word_from(text: Seq<char>, from: int) -> int
    decreases text.len() - from,
{
    if from >= text.len() {
        text.len() as int
    } else if white_space(text[from]) {
        word_from(text, from + 1)
    } else {
        from
    }
}

/// A text without the white space at its two ends.
pub open spec fn trimmed_text(text: Seq<char>) -> Seq<char> {
    if word_from(text, 0) < trimmed_len(text) {
        text.subrange(word_from(text, 0), trimmed_len(text))
    } else {
        Seq::empty()
    }
}

/// Nothing but white space follows the trimmed length, and none stands
/// just before it.
pub proof fn law_trimmed_len(text: Seq<char>)
    ensures
        0 <= trimmed_len(text) <= text.len(),
        forall|i: int| trimmed_len(text) <= i < text.len() ==> white_space(#[trigger] text[i]),
        trimmed_len(text) > 0 ==> !white_space(text[trimmed_len(text) - 1]),
    decreases text.len(),
{
    if text.len() > 0 && white_space(text.last()) {
        law_trimmed_len(text.drop_last());
        assert forall|i: int| trimmed_len(text) <= i < text.len() implies white_space(
            #[trigger] text[i],
        ) by {
            if i < text.len() - 1 {
                assert(text[i] == text.drop_last()[i]);
            }
        }
        if trimmed_len(text) > 0 {
            assert(text[trimmed_len(text) - 1] == text.drop_last()[trimmed_len(text) - 1]);
        }
    }
}

/// Nothing but white space stands between `from` and the first word from
/// there, and the word does not begin with white space.
pub proof fn law_word_from(text: Seq<char>, from: int)
    requires
        0 <= from <= text.len(),
    ensures
        from <= word_from(text, from) <= text.len(),
        forall|i: int| from <= i < word_from(text, from) ==> white_space(#[trigger] text[i]),
        word_from(text, from) < text.len() ==> !white_space(text[word_from(text, from)]),
    decreases text.len() - from,
{
    if from < text.len() && white_space(text[from]) {
        law_word_from(text, from + 1);
    }
}

/// A trimmed text is the part of the text between its first and its last
/// character that is no white space; it is empty where the text holds
/// nothing but white space.
pub proof fn law_trimmed_text(text: Seq<char>)
    ensures
        trimmed_text(text).len() > 0 ==> !white_space(trimmed_text(text).first()) && !white_space(
            trimmed_text(text).last(),
        ),
        trimmed_text(text).len() == 0 <==> forall|i: int|
            0 <= i < text.len() ==> white_space(#[trigger] text[i]),
        exists|from: int, to: int|
            0 <= from <= to <= text.len() && trimmed_text(text) == #[trigger] text.subrange(
                from,
                to,
            ) && (forall|i: int| 0 <= i < from ==> white_space(#[trigger] text[i])) && (forall|
                i: int,
            | to <= i < text.len() ==> white_space(#[trigger] text[i])),
{
    law_trimmed_len(text);
    law_word_from(text, 0);
    let from = word_from(text, 0);
    let to = trimmed_len(text);
    if from < to {
        assert(trimmed_text(text).first() == text[from]);
        assert(trimmed_text(text).last() == text[to - 1]);
        assert(!white_space(text[from]));
        assert(trimmed_text(text) == text.subrange(from, to));
    } else {
        assert forall|i: int| 0 <= i < text.len() implies white_space(#[trigger] text[i]) by {
            if to > 0 {
                assert(!white_space(text[to - 1]));
            }
        }
        assert(trimmed_text(text) =~= text.subrange(0, 0));
        assert(forall|i: int| 0 <= i < text.len() ==> white_space(#[trigger] text[i]));
    }
}

/// Cuts the white space off both ends of a text.
pub fn trimmed(text: &str) -> (cut: &str)
    ensures
        cut@ == trimmed_text(text@),
{
    let chars = chars_of(text);
    let mut end: usize = chars.len();
    assert(chars@.take(end as int) =~= chars@);
    while end > 0 && is_white_space(chars[end - 1])
        invariant
            end <= chars.len(),
            trimmed_len(chars@) == trimmed_len(chars@.take(end as int)),
        decreases end,
    {
        assert(chars@.take(end as int).drop_last() =~= chars@.take(end - 1));
        end -= 1;
    }
    let mut start: usize = 0;
    while start < chars.len() && is_white_space(chars[start])
        invariant
            start <= chars.len(),
            word_from(chars@, 0) == word_from(chars@, start as int),
        decreases chars.len() - start,
    {
        start += 1;
    }
    if start < end {
        text.substring_char(start, end)
    } else {
        let cut = text.substring_char(0, 0);
        assert(cut@ =~= Seq::<char>::empty());
        cut
    }
}

/// The character that writes a digit.
pub open spec fn digit(d: nat) -> char
    recommends
        d < 10,
{
    "0123456789"@[d as int]
}

/// A number written in decimal, without sign or leading zeros.
pub open spec fn decimal(n: nat) -> Seq<char>
    decreases n,
{
    if n < 10 {
        seq![digit(n)]
    } else {
        decimal(n / 10).push(digit(n % 10))
    }
}

/// Writes a number in decimal.
pub fn decimal_text(n: u64) -> (text: String)
    ensures
        text@ == decimal(n as nat),
    decreases n,
{
    proof {
        reveal_strlit("0123456789");
    }
    let last: usize = (n % 10) as usize;
    let written = "0123456789".substring_char(last, last + 1);
    assert(written@ =~= seq![digit(n as nat % 10)]);
    if n < 10 {
        written.to_owned()
    } else {
        let mut text = decimal_text(n / 10);
        text.append(written);
        text
    }
}

/// Whether a character is one of the ten digits.
pub open spec fn is_digit(c: char) -> bool {
    '0' <= c <= '9'
}

/// The number that a run of digits writes; leading zeros do not count.
pub open spec fn digits_value(digits: Seq<char>) -> nat
    decreases digits.len(),
{
    if digits.len() == 0 {
        0
    } else {
        (10 * digits_value(digits.drop_last()) + (digits.last() as u32 - '0' as u32)) as nat
    }
}

/// The digits of a text that writes a number: the text itself, without the
/// `+` that may stand in front.
pub open spec fn unsigned_part(text: Seq<char>) -> Seq<char> {
    if text.len() > 0 && text[0] == '+' {
        text.drop_first()
    } else {
        text
    }
}

/// Whether a text is made of digits only.
pub open spec fn all_digits(text: Seq<char>) -> bool {
    forall|i: int| 0 <= i < text.len() ==> is_digit(#[trigger] text[i])
}

/// The number that a text writes: one digit at least, digits only, with or
/// without a `+` in front. Any other text writes none.
pub open spec fn number_of(text: Seq<char>) -> Option<nat> {
    let digits = unsigned_part(text);
    if digits.len() > 0 && all_digits(digits) {
        Some(digits_value(digits))
    } else {
        None
    }
}

/// A run of digits writes no less than any of its beginnings does.
proof fn lemma_digits_value_grows(digits: Seq<char>, front: int)
    requires
        0 <= front <= digits.len(),
        all_digits(digits),
    ensures
        digits_value(digits.take(front)) <= digits_value(digits),
    decreases digits.len() - front,
{
    if front < digits.len() {
        lemma_digits_value_grows(digits, front + 1);
        assert(digits.take(front + 1).drop_last() =~= digits.take(front));
        assert(is_digit(digits[front]));
        assert(digits.take(front + 1).last() == digits[front]);
    } else {
        assert(digits.take(front) =~= digits);
    }
}

/// Reads a number: `None` where the text writes none, or one that is too
/// large for 64 bits.
pub fn parse_number(text: &str) -> (number: Option<u64>)
    ensures
        match number {
            Some(n) => number_of(text@) == Some(n as nat),
            None => number_of(text@) matches Some(n) ==> n > u64::MAX,
        },
{
    let chars = chars_of(text);
    let first: usize = if chars.len() > 0 && chars[0] == '+' {
        1
    } else {
        0
    };
    let ghost digits = unsigned_part(chars@);
    assert(digits =~= chars@.skip(first as int));
    if first == chars.len() {
        return None;
    }
    let mut value: u64 = 0;
    let mut i: usize = first;
    assert(digits.take(0) =~= Seq::<char>::empty());
    while i < chars.len()
        invariant
            first <= i <= chars.len(),
            digits == unsigned_part(text@),
            digits == chars@.skip(first as int),
            forall|k: int| 0 <= k < i - first ==> is_digit(#[trigger] digits[k]),
            value == digits_value(digits.take(i - first)),
        decreases chars.len() - i,
    {
        let c = chars[i];
        assert(c == digits[i - first]);
        if c < '0' || c > '9' {
            assert(!is_digit(digits[i - first]));
            return None;
        }
        let d: u64 = (c as u32 - '0' as u32) as u64;
        assert(digits.take(i - first + 1).drop_last() =~= digits.take(i - first));
        assert(digits.take(i - first + 1).last() == c);
        if value > (u64::MAX - d) / 10 {
            proof {
                if number_of(text@) is Some {
                    lemma_digits_value_grows(digits, i - first + 1);
                }
            }
            return None;
        }
        value = value * 10 + d;
        i += 1;
    }
    assert(digits.take(i - first) =~= digits);
    Some(value)
}

/// Reads a position in a list: a number that fits the machine's word.
pub fn parse_index(text: &str) -> (index: Option<usize>)
    ensures
        match index {
            Some(n) => number_of(text@) == Some(n as nat),
            None => number_of(text@) matches Some(n) ==> n > usize::MAX,
        },
{
    match parse_number(text) {
        Some(n) => if n <= usize::MAX as u64 {
            Some(n as usize)
        } else {
            None
        },
        None => None,
    }
}

/// A number is written with digits only, without a zero in front unless it
/// is zero, and read back as itself.
pub proof fn law_decimal_round_trip(n: nat)
    ensures
        decimal(n).len() >= 1,
        all_digits(decimal(n)),
        n >= 10 ==> decimal(n)[0] != '0',
        digits_value(decimal(n)) == n,
        number_of(decimal(n)) == Some(n),
    decreases n,
{
    reveal_strlit("0123456789");
    if n >= 10 {
        law_decimal_round_trip(n / 10);
        assert(decimal(n).drop_last() =~= decimal(n / 10));
        if n / 10 < 10 {
            assert(decimal(n / 10)[0] == digit(n / 10));
        }
        assert(decimal(n)[0] == decimal(n / 10)[0]);
    } else {
        assert(decimal(n).drop_last() =~= Seq::<char>::empty());
        assert(digits_value(decimal(n).drop_last()) == 0);
    }
    assert(decimal(n)[0] != '+');
}

} // verus!
