//! Numbers and white space as text.

use vstd::prelude::*;
use vstd::string::*;

verus! {

/// The std function `String::push`: appends one character.
pub assume_specification [String::push] (text: &mut String, character: char)
    ensures
        final(text)@ == old(text)@.push(character),
;

/// The digit that stands for `value`, in decimal or upper-case hexadecimal.
pub open spec fn digit(value: nat) -> char {
    if value < 10 {
        (0x30 + value) as u8 as char
    } else {
        (0x37 + value) as u8 as char
    }
}

/// `value` in decimal, without leading zeros.
pub open spec fn decimal(value: nat) -> Seq<char>
    decreases value,
{
    if value < 10 {
        seq![digit(value)]
    } else {
        decimal(value / 10).push(digit(value % 10))
    }
}

/// `value` in decimal, with a minus sign when it is below zero.
pub open spec fn signed(value: int) -> Seq<char> {
    if value < 0 {
        seq!['-'] + decimal((-value) as nat)
    } else {
        decimal(value as nat)
    }
}

/// The last `width` hexadecimal digits of `value`, upper case.
pub open spec fn hex(value: nat, width: nat) -> Seq<char>
    decreases width,
{
    if width == 0 {
        Seq::empty()
    } else {
        hex(value / 16, (width - 1) as nat).push(digit(value % 16))
    }
}

fn digit_character(value: u8) -> (character: char)
    requires
        value < 16,
    ensures
        character == digit(value as nat),
{
    if value < 10 {
        (0x30 + value) as char
    } else {
        (0x37 + value) as char
    }
}

/// Appends `value` in decimal.
pub fn push_decimal(text: &mut String, value: u64)
    ensures
        final(text)@ == old(text)@ + decimal(value as nat),
    decreases value,
{
    if value >= 10 {
        push_decimal(text, value / 10);
    }
    text.push(digit_character((value % 10) as u8));
    proof {
        assert(text@ =~= old(text)@ + decimal(value as nat));
    }
}

/// Appends `value` in decimal, signed.
pub fn push_signed(text: &mut String, value: i64)
    requires
        value > i64::MIN,
    ensures
        final(text)@ == old(text)@ + signed(value as int),
{
    if value < 0 {
        text.push('-');
        push_decimal(text, (0 - value) as u64);
        proof {
            assert(text@ =~= old(text)@ + signed(value as int));
        }
    } else {
        push_decimal(text, value as u64);
    }
}

/// Appends the last `width` hexadecimal digits of `value`.
pub fn push_hex(text: &mut String, value: u32, width: u8)
    ensures
        final(text)@ == old(text)@ + hex(value as nat, width as nat),
    decreases width,
{
    if width == 0 {
        proof {
            assert(text@ =~= old(text)@ + hex(value as nat, 0));
        }
        return;
    }
    push_hex(text, value / 16, width - 1);
    text.push(digit_character((value % 16) as u8));
    proof {
        assert(text@ =~= old(text)@ + hex(value as nat, width as nat));
    }
}

/// Whether a character has Unicode's `White_Space` property.
pub open spec fn white_space(character: char) -> bool {
    let code = character as u32;
    ||| 0x09 <= code <= 0x0D
    ||| code == 0x20
    ||| code == 0x85
    ||| code == 0xA0
    ||| code == 0x1680
    ||| 0x2000 <= code <= 0x200A
    ||| code == 0x2028
    ||| code == 0x2029
    ||| code == 0x202F
    ||| code == 0x205F
    ||| code == 0x3000
}

/// Calls std's `char::is_whitespace`, which answers whether the character has
/// the `White_Space` property; the code points that have it are those listed
/// in the Unicode Character Database.
#[verifier::external_body]
fn is_white_space(character: char) -> (white: bool)
    ensures
        white == white_space(character),
{
    character.is_whitespace()
}

/// `text` without the white space at its end.
pub open spec fn trimmed_end(text: Seq<char>) -> Seq<char>
    decreases text.len(),
{
    if text.len() > 0 && white_space(text.last()) {
        trimmed_end(text.drop_last())
    } else {
        text
    }
}

/// `text` without the white space at its start.
pub open spec fn trimmed_start(text: Seq<char>) -> Seq<char>
    decreases text.len(),
{
    if text.len() > 0 && white_space(text.first()) {
        trimmed_start(text.drop_first())
    } else {
        text
    }
}

/// `text` without the white space at either end.
pub open spec fn trimmed(text: Seq<char>) -> Seq<char> {
    trimmed_end(trimmed_start(text))
}

/// Drops the white space at the end of `text`.
pub fn trim_end(text: &str) -> (kept: &str)
    ensures
        kept@ == trimmed_end(text@),
{
    let mut end: usize = text.unicode_len();
    proof {
        assert(text@.take(end as int) =~= text@);
    }
    while end > 0 && is_white_space(text.get_char(end - 1))
        invariant
            end <= text@.len(),
            trimmed_end(text@) == trimmed_end(text@.take(end as int)),
        decreases end,
    {
        proof {
            let before = text@.take(end as int);
            assert(before.last() == text@[end - 1]);
            assert(before.drop_last() =~= text@.take(end - 1));
        }
        end -= 1;
    }
    proof {
        let rest = text@.take(end as int);
        if end > 0 {
            assert(rest.last() == text@[end - 1]);
        }
        assert(text@.subrange(0, end as int) =~= rest);
    }
    text.substring_char(0, end)
}

/// Drops the white space at the start of `text`.
pub fn trim_start(text: &str) -> (kept: &str)
    ensures
        kept@ == trimmed_start(text@),
{
    let length: usize = text.unicode_len();
    let mut start: usize = 0;
    proof {
        assert(text@.skip(0) =~= text@);
    }
    while start < length && is_white_space(text.get_char(start))
        invariant
            start <= length,
            length == text@.len(),
            trimmed_start(text@) == trimmed_start(text@.skip(start as int)),
        decreases length - start,
    {
        proof {
            let before = text@.skip(start as int);
            assert(before.first() == text@[start as int]);
            assert(before.drop_first() =~= text@.skip(start + 1));
        }
        start += 1;
    }
    proof {
        let rest = text@.skip(start as int);
        if start < length {
            assert(rest.first() == text@[start as int]);
        }
        assert(text@.subrange(start as int, length as int) =~= rest);
    }
    text.substring_char(start, length)
}

/// Drops the white space at both ends of `text`.
pub fn trim(text: &str) -> (kept: &str)
    ensures
        kept@ == trimmed(text@),
{
    trim_end(trim_start(text))
}

/// Whether a text starts with another.
pub open spec fn starts_with(text: Seq<char>, start: Seq<char>) -> bool {
    start.len() <= text.len() && text.take(start.len() as int) == start
}

/// Whether a text ends with another.
pub open spec fn ends_with(text: Seq<char>, end: Seq<char>) -> bool {
    end.len() <= text.len() && text.skip(text.len() - end.len()) == end
}

/// Joins two pieces of text.
pub fn joined(first: &str, second: &str) -> (text: String)
    ensures
        text@ == first@ + second@,
{
    let mut text = first.to_owned();
    text.append(second);
    text
}

/// What a digit is worth.
pub open spec fn worth(character: char) -> int {
    if '0' <= character <= '9' {
        character as u32 - '0' as u32
    } else {
        character as u32 - 'A' as u32 + 10
    }
}

/// The number that digits stand for in a base.
pub open spec fn reading(digits: Seq<char>, base: nat) -> int
    decreases digits.len(),
{
    if digits.len() == 0 {
        0
    } else {
        reading(digits.drop_last(), base) * base + worth(digits.last())
    }
}

proof fn a_digit_is_worth_its_value(value: nat)
    requires
        value < 16,
    ensures
        worth(digit(value)) == value,
        value < 10 <==> '0' <= digit(value) <= '9',
        value >= 10 <==> 'A' <= digit(value) <= 'F',
{
}

/// A number in decimal reads back as itself, in nothing but decimal digits, and
/// starts with a zero only when it is zero.
pub proof fn a_number_in_decimal_reads_back(value: nat)
    ensures
        reading(decimal(value), 10) == value,
        decimal(value).len() > 0,
        forall|place: int|
            0 <= place < decimal(value).len() ==> '0' <= #[trigger] decimal(value)[place] <= '9',
        decimal(value)[0] == '0' ==> value == 0,
    decreases value,
{
    if value < 10 {
        a_digit_is_worth_its_value(value);
        reveal_with_fuel(reading, 2);
        assert(decimal(value).drop_last() =~= Seq::empty());
    } else {
        a_number_in_decimal_reads_back(value / 10);
        a_digit_is_worth_its_value(value % 10);
        let front = decimal(value / 10);
        let whole = front.push(digit(value % 10));
        assert(whole.drop_last() =~= front);
        assert(whole.last() == digit(value % 10));
        assert(whole[0] == front[0]);
        assert forall|place: int| 0 <= place < whole.len() implies '0' <= #[trigger] whole[place]
            <= '9' by {
            if place < front.len() {
                assert(whole[place] == front[place]);
            }
        }
    }
}

/// A number with a sign starts with a minus exactly when it is below zero, and
/// the digits read back as how far from zero it is.
pub proof fn a_signed_number_reads_back(value: int)
    ensures
        value < 0 ==> signed(value)[0] == '-' && reading(signed(value).skip(1), 10) == -value,
        value >= 0 ==> '0' <= signed(value)[0] <= '9' && reading(signed(value), 10) == value,
{
    if value < 0 {
        a_number_in_decimal_reads_back((-value) as nat);
        assert(signed(value).skip(1) =~= decimal((-value) as nat));
    } else {
        a_number_in_decimal_reads_back(value as nat);
    }
}

/// The number of values that so many hexadecimal digits tell apart.
pub open spec fn sixteens(width: nat) -> nat
    decreases width,
{
    if width == 0 {
        1
    } else {
        16 * sixteens((width - 1) as nat)
    }
}

/// A number in hexadecimal takes exactly the digits it was given, all of them
/// upper case, and reads back as itself when it fits in them.
pub proof fn a_number_in_hexadecimal_reads_back(value: nat, width: nat)
    ensures
        hex(value, width).len() == width,
        forall|place: int|
            0 <= place < width ==> '0' <= #[trigger] hex(value, width)[place] <= '9' || 'A' <= hex(
                value,
                width,
            )[place] <= 'F',
        value < sixteens(width) ==> reading(hex(value, width), 16) == value,
    decreases width,
{
    if width > 0 {
        let less = (width - 1) as nat;
        a_number_in_hexadecimal_reads_back(value / 16, less);
        a_digit_is_worth_its_value(value % 16);
        let front = hex(value / 16, less);
        let whole = front.push(digit(value % 16));
        assert(whole.drop_last() =~= front);
        assert(whole.last() == digit(value % 16));
        assert forall|place: int| 0 <= place < width implies '0' <= #[trigger] whole[place] <= '9'
            || 'A' <= whole[place] <= 'F' by {
            if place < less {
                assert(whole[place] == front[place]);
            }
        }
    }
}

proof fn trimming_an_end(text: Seq<char>)
    ensures
        ({
            let kept = trimmed_end(text);
            &&& kept.len() <= text.len()
            &&& kept == text.take(kept.len() as int)
            &&& kept.len() > 0 ==> !white_space(kept.last())
            &&& forall|place: int|
                kept.len() <= place < text.len() ==> white_space(#[trigger] text[place])
        }),
    decreases text.len(),
{
    if text.len() > 0 && white_space(text.last()) {
        let shorter = text.drop_last();
        trimming_an_end(shorter);
        let kept = trimmed_end(text);
        assert(shorter.take(kept.len() as int) =~= text.take(kept.len() as int));
        assert forall|place: int| kept.len() <= place < text.len() implies white_space(
            #[trigger] text[place],
        ) by {
            if place < shorter.len() {
                assert(shorter[place] == text[place]);
            }
        }
    } else {
        assert(text.take(text.len() as int) =~= text);
    }
}

proof fn trimming_a_start(text: Seq<char>)
    ensures
        ({
            let kept = trimmed_start(text);
            &&& kept.len() <= text.len()
            &&& kept == text.skip(text.len() - kept.len())
            &&& kept.len() > 0 ==> !white_space(kept.first())
            &&& forall|place: int|
                0 <= place < text.len() - kept.len() ==> white_space(#[trigger] text[place])
        }),
    decreases text.len(),
{
    if text.len() > 0 && white_space(text.first()) {
        let shorter = text.drop_first();
        trimming_a_start(shorter);
        let kept = trimmed_start(text);
        assert(shorter.skip(shorter.len() - kept.len()) =~= text.skip(text.len() - kept.len()));
        assert forall|place: int| 0 <= place < text.len() - kept.len() implies white_space(
            #[trigger] text[place],
        ) by {
            if place > 0 {
                assert(shorter[place - 1] == text[place]);
            }
        }
    } else {
        assert(text.skip(0) =~= text);
    }
}

/// Trimming keeps one run of the text and drops nothing but white space on
/// either side of it. What is kept neither starts nor ends with white space.
/// Trimming the end alone leaves the start as it is.
pub proof fn trimming_drops_white_space_alone(text: Seq<char>)
    ensures
        ({
            let kept = trimmed(text);
            let left = text.len() - trimmed_start(text).len();
            &&& 0 <= left <= left + kept.len() <= text.len()
            &&& kept == text.subrange(left, left + kept.len())
            &&& forall|place: int| 0 <= place < left ==> white_space(#[trigger] text[place])
            &&& forall|place: int|
                left + kept.len() <= place < text.len() ==> white_space(#[trigger] text[place])
            &&& kept.len() > 0 ==> !white_space(kept.first()) && !white_space(kept.last())
        }),
        trimmed_end(text) == text.take(trimmed_end(text).len() as int),
        trimmed_end(text).len() > 0 ==> !white_space(trimmed_end(text).last()),
        forall|place: int|
            trimmed_end(text).len() <= place < text.len() ==> white_space(#[trigger] text[place]),
{
    trimming_an_end(text);
    trimming_a_start(text);
    let rest = trimmed_start(text);
    let kept = trimmed(text);
    let left = text.len() - rest.len();
    trimming_an_end(rest);
    assert(kept =~= text.subrange(left, left + kept.len()));
    assert forall|place: int| left + kept.len() <= place < text.len() implies white_space(
        #[trigger] text[place],
    ) by {
        assert(rest[place - left] == text[place]);
    }
    if kept.len() > 0 {
        assert(kept.first() == rest.first());
    }
}

/// White space below the Latin letters is the six that layout uses, and none of
/// what a keyboard draws; above them it is the spaces of the typesetters, from
/// the quads to the ideographic one, and the two that part lines and paragraphs.
pub proof fn nothing_drawn_is_white_space(character: char)
    ensures
        character as u32 <= 0x7F ==> (white_space(character) <==> character == ' ' || character
            == '\t' || character == '\n' || character == '\u{b}' || character == '\u{c}' || character
            == '\r'),
        0x80 <= character as u32 <= 0xFF ==> (white_space(character) <==> character == '\u{85}'
            || character == '\u{a0}'),
        0x100 <= character as u32 <= 0x1FFF ==> (white_space(character) <==> character
            == '\u{1680}'),
        0x2000 <= character as u32 <= 0x2FFF ==> (white_space(character) <==> '\u{2000}'
            <= character <= '\u{200a}' || character == '\u{2028}' || character == '\u{2029}'
            || character == '\u{202f}' || character == '\u{205f}'),
        0x3000 <= character as u32 ==> (white_space(character) <==> character == '\u{3000}'),
{
}

} // verus!
