//! Text that the device and its USB descriptors carry.

use vstd::prelude::*;

verus! {

/// Whether `c` is white space: the characters of Unicode's `White_Space`
/// property.
pub open spec fn is_white_space(c: char) -> bool {
    let code = c as u32;
    ||| 0x9 <= code <= 0xd
    ||| code == 0x20
    ||| code == 0x85
    ||| code == 0xa0
    ||| code == 0x1680
    ||| 0x2000 <= code <= 0x200a
    ||| code == 0x2028
    ||| code == 0x2029
    ||| code == 0x202f
    ||| code == 0x205f
    ||| code == 0x3000
}

/// Whether `c` is white space.
pub fn white_space(c: char) -> (result: bool)
    ensures
        result == is_white_space(c),
{
    let code: u32 = c as u32;
    (0x9 <= code && code <= 0xd) || code == 0x20 || code == 0x85 || code == 0xa0 || code == 0x1680
        || (0x2000 <= code && code <= 0x200a) || code == 0x2028 || code == 0x2029 || code == 0x202f
        || code == 0x205f || code == 0x3000
}

/// `text` without the white space at its beginning.
pub open spec fn trim_start(text: Seq<char>) -> Seq<char>
    decreases text.len(),
{
    if text.len() > 0 && is_white_space(text[0]) {
        trim_start(text.drop_first())
    } else {
        text
    }
}

/// `text` without the white space at its end.
pub open spec fn trim_end(text: Seq<char>) -> Seq<char>
    decreases text.len(),
{
    if text.len() > 0 && is_white_space(text.last()) {
        trim_end(text.drop_last())
    } else {
        text
    }
}

/// Whether `text` begins with `prefix`.
pub open spec fn begins_with(text: Seq<char>, prefix: Seq<char>) -> bool {
    prefix.len() <= text.len() && text.take(prefix.len() as int) == prefix
}

/// Whether `text` begins with `prefix`.
pub fn starts_with(text: &str, prefix: &str) -> (result: bool)
    ensures
        result == begins_with(text@, prefix@),
{
    let length: usize = prefix.unicode_len();
    if length > text.unicode_len() {
        return false;
    }
    let mut i: usize = 0;
    while i < length
        invariant
            length == prefix@.len(),
            length <= text@.len(),
            i <= length,
            forall|k: int| 0 <= k < i ==> text@[k] == prefix@[k],
        decreases length - i,
    {
        if text.get_char(i) != prefix.get_char(i) {
            assert(text@.take(prefix@.len() as int)[i as int] != prefix@[i as int]);
            return false;
        }
        i = i + 1;
    }
    assert(text@.take(prefix@.len() as int) =~= prefix@);
    true
}

/// Positions of what is left of `text` from `start` on once white space is
/// trimmed from both ends.
pub fn trimmed_range(text: &str, start: usize) -> (range: (usize, usize))
    requires
        start <= text@.len(),
    ensures
        range.0 <= range.1 <= text@.len(),
        text@.subrange(range.0 as int, range.1 as int) == trim_end(
            trim_start(text@.skip(start as int)),
        ),
{
    let total: usize = text.unicode_len();
    let mut first: usize = start;
    while first < total && white_space(text.get_char(first))
        invariant
            total == text@.len(),
            start <= first <= total,
            trim_start(text@.skip(first as int)) == trim_start(text@.skip(start as int)),
        decreases total - first,
    {
        assert(text@.skip(first as int).drop_first() =~= text@.skip(first + 1));
        first = first + 1;
    }
    let ghost rest = text@.skip(first as int);
    assert(trim_start(rest) == rest);
    let mut end: usize = total;
    assert(text@.subrange(first as int, end as int) =~= rest);
    while end > first && white_space(text.get_char(end - 1))
        invariant
            total == text@.len(),
            first <= end <= total,
            trim_end(text@.subrange(first as int, end as int)) == trim_end(rest),
        decreases end,
    {
        assert(text@.subrange(first as int, end as int).drop_last() =~= text@.subrange(
            first as int,
            end - 1,
        ));
        end = end - 1;
    }
    (first, end)
}

/// Value of a hexadecimal digit, in either case.
pub open spec fn hex_digit(c: char) -> Option<int> {
    let code = c as int;
    if 48 <= code <= 57 {
        Some(code - 48)
    } else if 65 <= code <= 70 {
        Some(code - 55)
    } else if 97 <= code <= 102 {
        Some(code - 87)
    } else {
        None
    }
}

/// Value of a hexadecimal digit, in either case.
pub fn hex_digit_value(c: char) -> (value: Option<u64>)
    ensures
        value is Some <==> hex_digit(c) is Some,
        value matches Some(digit) ==> hex_digit(c) == Some(digit as int) && digit < 16,
{
    let code: u32 = c as u32;
    if 48 <= code && code <= 57 {
        Some((code - 48) as u64)
    } else if 65 <= code && code <= 70 {
        Some((code - 55) as u64)
    } else if 97 <= code && code <= 102 {
        Some((code - 87) as u64)
    } else {
        None
    }
}

/// Whether every character of `text` is a hexadecimal digit.
pub open spec fn all_hex(text: Seq<char>) -> bool {
    forall|i: int| 0 <= i < text.len() ==> hex_digit(#[trigger] text[i]) is Some
}

/// Number that the hexadecimal digits of `text` write.
pub open spec fn hex_value(text: Seq<char>) -> int
    decreases text.len(),
{
    if text.len() == 0 {
        0
    } else {
        16 * hex_value(text.drop_last()) + hex_digit(text.last()).unwrap_or(0)
    }
}

/// Upper-case hexadecimal digit of `value`.
pub open spec fn hex_char(value: int) -> char {
    if value < 10 {
        (48 + value) as char
    } else {
        (55 + value) as char
    }
}

/// The `count` lowest hexadecimal digits of `value`, upper case.
pub open spec fn hex_text(value: nat, count: nat) -> Seq<char>
    decreases count,
{
    if count == 0 {
        Seq::empty()
    } else {
        hex_text(value / 16, (count - 1) as nat).push(hex_char((value % 16) as int))
    }
}

/// `16` multiplied with itself `count` times.
pub open spec fn hex_range(count: nat) -> nat
    decreases count,
{
    if count == 0 {
        1
    } else {
        16 * hex_range((count - 1) as nat)
    }
}

/// Law: a number that fits is read back from its hexadecimal digits.
pub proof fn law_hex_text_reads_back(value: nat, count: nat)
    requires
        value < hex_range(count),
    ensures
        hex_text(value, count).len() == count,
        all_hex(hex_text(value, count)),
        hex_value(hex_text(value, count)) == value,
    decreases count,
{
    if count > 0 {
        let rest = hex_text(value / 16, (count - 1) as nat);
        law_hex_text_reads_back(value / 16, (count - 1) as nat);
        let text = hex_text(value, count);
        assert(text.drop_last() =~= rest);
        assert(hex_digit(hex_char((value % 16) as int)) == Some((value % 16) as int));
        assert forall|i: int| 0 <= i < text.len() implies hex_digit(#[trigger] text[i]) is Some by {
            if i < count - 1 {
                assert(rest[i] == text[i]);
            }
        }
    }
}

/// Append the `count` lowest hexadecimal digits of `value`, upper case.
pub fn append_hex(text: &mut String, value: u64, count: usize)
    ensures
        final(text)@ == old(text)@ + hex_text(value as nat, count as nat),
    decreases count,
{
    if count == 0 {
        assert(text@ + hex_text(value as nat, 0) =~= text@);
        return;
    }
    let ghost before = text@;
    append_hex(text, value / 16, count - 1);
    let digit: &str = match value % 16 {
        0 => "0",
        1 => "1",
        2 => "2",
        3 => "3",
        4 => "4",
        5 => "5",
        6 => "6",
        7 => "7",
        8 => "8",
        9 => "9",
        10 => "A",
        11 => "B",
        12 => "C",
        13 => "D",
        14 => "E",
        _ => "F",
    };
    proof {
        reveal_strlit("0");
        reveal_strlit("1");
        reveal_strlit("2");
        reveal_strlit("3");
        reveal_strlit("4");
        reveal_strlit("5");
        reveal_strlit("6");
        reveal_strlit("7");
        reveal_strlit("8");
        reveal_strlit("9");
        reveal_strlit("A");
        reveal_strlit("B");
        reveal_strlit("C");
        reveal_strlit("D");
        reveal_strlit("E");
        reveal_strlit("F");
        assert(digit@ =~= seq![hex_char((value % 16) as int)]);
    }
    text.append(digit);
    assert(text@ =~= before + hex_text(value as nat, count as nat));
}

/// Text of `bytes`, as `String::from_utf8_lossy` reads it.
pub uninterp spec fn lossy_text(bytes: Seq<u8>) -> Seq<char>;

/// `String::from_utf8_lossy`: valid UTF-8 is read as it is; what the text of
/// other bytes is, is left to the function.
#[verifier::external_body]
fn utf8_lossy(bytes: &[u8]) -> (text: String)
    ensures
        text@ == lossy_text(bytes@),
        vstd::utf8::valid_utf8(bytes@) ==> text@ == vstd::utf8::decode_utf8(bytes@),
{
    String::from_utf8_lossy(bytes).into_owned()
}

/// Bytes of a C string: those before the first zero, or all.
pub open spec fn c_string_bytes(bytes: Seq<u8>) -> Seq<u8>
    decreases bytes.len(),
{
    if bytes.len() == 0 || bytes[0] == 0 {
        Seq::empty()
    } else {
        seq![bytes[0]] + c_string_bytes(bytes.drop_first())
    }
}

/// Length of a C string: the number of bytes before the first zero, or of all.
pub fn c_string_len(bytes: &[u8]) -> (length: usize)
    ensures
        length <= bytes@.len(),
        bytes@.take(length as int) == c_string_bytes(bytes@),
{
    let total: usize = bytes.len();
    let mut length: usize = 0;
    assert(bytes@.skip(0) =~= bytes@);
    assert(bytes@.take(0) + c_string_bytes(bytes@) =~= c_string_bytes(bytes@));
    while length < total && bytes[length] != 0
        invariant
            total == bytes@.len(),
            length <= total,
            bytes@.take(length as int) + c_string_bytes(bytes@.skip(length as int))
                == c_string_bytes(bytes@),
        decreases total - length,
    {
        proof {
            let rest = bytes@.skip(length as int);
            assert(rest.drop_first() =~= bytes@.skip(length + 1));
            assert(bytes@.take(length as int) + (seq![rest[0]] + c_string_bytes(
                rest.drop_first(),
            )) =~= bytes@.take(length + 1) + c_string_bytes(rest.drop_first()));
        }
        length = length + 1;
    }
    assert(bytes@.take(length as int) + Seq::<u8>::empty() =~= bytes@.take(length as int));
    length
}

/// Decode a C string.
pub fn decode_c_string(bytes: &[u8]) -> (text: String)
    ensures
        text@ == lossy_text(c_string_bytes(bytes@)),
        vstd::utf8::valid_utf8(c_string_bytes(bytes@)) ==> text@ == vstd::utf8::decode_utf8(
            c_string_bytes(bytes@),
        ),
{
    let length: usize = c_string_len(bytes);
    let content: &[u8] = vstd::slice::slice_subrange(bytes, 0, length);
    assert(content@ =~= bytes@.take(length as int));
    utf8_lossy(content)
}

/// Law: trimming takes white space from the end it is named after, and nothing
/// else: what is left is the rest of the text, and does not end there in white
/// space.
pub proof fn law_trimming_takes_white_space_only(text: Seq<char>)
    ensures
        ({
            let rest = trim_start(text);
            let taken = text.len() - rest.len();
            &&& 0 <= taken
            &&& rest == text.skip(taken)
            &&& forall|i: int| 0 <= i < taken ==> is_white_space(#[trigger] text[i])
            &&& rest.len() > 0 ==> !is_white_space(rest[0])
        }),
        ({
            let rest = trim_end(text);
            &&& rest.len() <= text.len()
            &&& rest == text.take(rest.len() as int)
            &&& forall|i: int|
                rest.len() <= i < text.len() ==> is_white_space(#[trigger] text[i])
            &&& rest.len() > 0 ==> !is_white_space(rest.last())
        }),
    decreases text.len(),
{
    if text.len() == 0 {
        assert(text.skip(0) =~= text);
        assert(text.take(0) =~= text);
    } else {
        if is_white_space(text[0]) {
            let tail = text.drop_first();
            law_trimming_takes_white_space_only(tail);
            let rest = trim_start(tail);
            let taken = text.len() - rest.len();
            assert(rest =~= text.skip(taken));
            assert forall|i: int| 0 <= i < taken implies is_white_space(#[trigger] text[i]) by {
                if i > 0 {
                    assert(tail[i - 1] == text[i]);
                }
            }
        } else {
            assert(text.skip(0) =~= text);
        }
        if is_white_space(text.last()) {
            let head = text.drop_last();
            law_trimming_takes_white_space_only(head);
            let rest = trim_end(head);
            assert(rest =~= text.take(rest.len() as int));
            assert forall|i: int| rest.len() <= i < text.len() implies is_white_space(
                #[trigger] text[i],
            ) by {
                if i < text.len() - 1 {
                    assert(head[i] == text[i]);
                }
            }
        } else {
            assert(text.take(text.len() as int) =~= text);
        }
    }
}

/// Law: a text begins with a prefix exactly where something completes the prefix to
/// the text.
pub proof fn law_a_prefix_can_be_completed(text: Seq<char>, prefix: Seq<char>, rest: Seq<char>)
    ensures
        begins_with(prefix + rest, prefix),
        begins_with(text, prefix) ==> text == prefix + text.skip(prefix.len() as int),
{
    assert((prefix + rest).take(prefix.len() as int) =~= prefix);
    if begins_with(text, prefix) {
        assert(text =~= text.take(prefix.len() as int) + text.skip(prefix.len() as int));
    }
}

/// Law: the digits are 0 to 9, and A to F in either case, with their values, and no
/// other character is a digit.
pub proof fn law_the_hexadecimal_digits(c: char)
    ensures
        hex_digit(c) is Some <==> '0' <= c <= '9' || 'A' <= c <= 'F' || 'a' <= c <= 'f',
        '0' <= c <= '9' ==> hex_digit(c) == Some(c as int - '0' as int),
        'A' <= c <= 'F' ==> hex_digit(c) == Some(c as int - 'A' as int + 10),
        'a' <= c <= 'f' ==> hex_digit(c) == Some(c as int - 'a' as int + 10),
{
}

/// Law: each further digit multiplies what stands before it by 16.
pub proof fn law_each_digit_counts_16_times_the_next(text: Seq<char>, digit: char)
    requires
        hex_digit(digit) is Some,
    ensures
        hex_value(Seq::empty()) == 0,
        hex_value(text.push(digit)) == 16 * hex_value(text) + hex_digit(digit)->0,
{
    assert(text.push(digit).drop_last() =~= text);
}

/// Law: the characters that are white space: those that ASCII has, and no letter,
/// digit or mark of ASCII.
pub proof fn law_the_white_space_of_ascii(c: char)
    requires
        c as u32 <= 0x7f,
    ensures
        is_white_space(c) <==> c == ' ' || c == '\t' || c == '\n' || c == '\r' || c as u32 == 0xb
            || c as u32 == 0xc,
{
}

/// Law: a C string is everything before the first zero byte, or all bytes where
/// there is none.
pub proof fn law_a_c_string_ends_at_the_first_zero(bytes: Seq<u8>)
    ensures
        ({
            let held = c_string_bytes(bytes);
            &&& held.len() <= bytes.len()
            &&& held == bytes.take(held.len() as int)
            &&& forall|i: int| 0 <= i < held.len() ==> #[trigger] bytes[i] != 0
            &&& held.len() < bytes.len() ==> bytes[held.len() as int] == 0
        }),
    decreases bytes.len(),
{
    if bytes.len() > 0 && bytes[0] != 0 {
        let rest = bytes.drop_first();
        law_a_c_string_ends_at_the_first_zero(rest);
        let held = c_string_bytes(bytes);
        assert(held =~= bytes.take(held.len() as int));
        assert forall|i: int| 0 <= i < held.len() implies #[trigger] bytes[i] != 0 by {
            if i > 0 {
                assert(rest[i - 1] == bytes[i]);
            }
        }
    } else {
        assert(c_string_bytes(bytes) =~= bytes.take(0));
    }
}

/// Law: a number is written with upper-case digits.
pub proof fn law_numbers_are_written_in_upper_case(value: nat, count: nat, i: int)
    requires
        0 <= i < hex_text(value, count).len(),
    ensures
        hex_text(value, count).len() == count,
        ({
            let c = hex_text(value, count)[i];
            '0' <= c <= '9' || 'A' <= c <= 'F'
        }),
    decreases count,
{
    if count > 0 {
        let rest = hex_text(value / 16, (count - 1) as nat);
        if rest.len() > 0 {
            if i < rest.len() {
                law_numbers_are_written_in_upper_case(value / 16, (count - 1) as nat, i);
            } else {
                law_numbers_are_written_in_upper_case(value / 16, (count - 1) as nat, 0);
            }
        } else {
            lemma_hex_text_length(value / 16, (count - 1) as nat);
        }
        assert(hex_text(value, count) =~= rest.push(hex_char((value % 16) as int)));
    }
}

/// A number is written with as many digits as are asked for.
proof fn lemma_hex_text_length(value: nat, count: nat)
    ensures
        hex_text(value, count).len() == count,
    decreases count,
{
    if count > 0 {
        lemma_hex_text_length(value / 16, (count - 1) as nat);
    }
}

/// Law: the characters beyond ASCII that are white space are the spaces and line
/// ends of Unicode.
pub proof fn law_the_white_space_beyond_ascii(c: char)
    requires
        c as u32 > 0x7f,
    ensures
        is_white_space(c) <==> {
            let code = c as u32;
            code == 0x85 || code == 0xa0 || code == 0x1680 || 0x2000 <= code <= 0x200a || code
                == 0x2028 || code == 0x2029 || code == 0x202f || code == 0x205f || code == 0x3000
        },
{
}

} // verus!
