//! Text: decimal numbers, percent-encoding, and comparison without regard to case.

use vstd::prelude::*;
use vstd::string::*;

verus! {

/// The decimal digit of a number below ten.
pub open spec fn digit(value: int) -> char {
    ('0' as int + value) as char
}

/// The decimal digits of a number, most significant first, without leading zeros.
pub open spec fn decimal_digits(number: nat) -> Seq<char>
    decreases number,
{
    if number < 10 {
        seq![digit(number as int)]
    } else {
        decimal_digits(number / 10).push(digit((number % 10) as int))
    }
}

/// Whether a byte stands for itself in a percent-encoded text.
pub open spec fn is_unreserved(byte: u8) -> bool {
    ||| '0' as u8 <= byte <= '9' as u8
    ||| 'A' as u8 <= byte <= 'Z' as u8
    ||| 'a' as u8 <= byte <= 'z' as u8
    ||| byte == '-' as u8
    ||| byte == '.' as u8
    ||| byte == '_' as u8
    ||| byte == '~' as u8
}

/// The upper-case hexadecimal digit of a number below sixteen.
pub open spec fn hex_digit(value: int) -> char {
    if value < 10 {
        ('0' as int + value) as char
    } else {
        ('A' as int + (value - 10)) as char
    }
}

/// One byte, percent-encoded.
pub open spec fn percent_encoded_byte(byte: u8) -> Seq<char> {
    if is_unreserved(byte) {
        seq![byte as char]
    } else {
        seq!['%', hex_digit(byte as int / 16), hex_digit(byte as int % 16)]
    }
}

/// Bytes, percent-encoded one after the other.
pub open spec fn percent_encoded(bytes: Seq<u8>) -> Seq<char>
    decreases bytes.len(),
{
    if bytes.len() == 0 {
        Seq::empty()
    } else {
        percent_encoded(bytes.drop_last()) + percent_encoded_byte(bytes.last())
    }
}

/// The lower-case form of an ASCII character.
pub open spec fn ascii_lower(c: char) -> char {
    if 'A' <= c <= 'Z' {
        ('a' as int + (c as int - 'A' as int)) as char
    } else {
        c
    }
}

/// The lower-case form of an ASCII text.
pub open spec fn ascii_lowercase(text: Seq<char>) -> Seq<char> {
    text.map_values(|c: char| ascii_lower(c))
}

/// The lower-case form of a text, as Unicode has it.
pub uninterp spec fn unicode_lowercase(text: Seq<char>) -> Seq<char>;

/// The lower-case form of a text.
pub open spec fn lowercase(text: Seq<char>) -> Seq<char> {
    if vstd::utf8::is_ascii_chars(text) {
        ascii_lowercase(text)
    } else {
        unicode_lowercase(text)
    }
}

/// Whether `text` starts with `prefix` once both are in lower case.
pub open spec fn starts_with_ignoring_case(text: Seq<char>, prefix: Seq<char>) -> bool {
    lowercase(prefix).is_prefix_of(lowercase(text))
}

/// `urlencoding::encode`: each byte of the UTF-8 text is percent-encoded, except alphanumerics
/// and `-`, `_`, `.`, `~`; the hexadecimal digits are upper case.
#[verifier::external_body]
pub(crate) fn percent_encode(text: &str) -> (encoded: String)
    ensures
        encoded@ == percent_encoded(text.spec_bytes()),
{
    urlencoding::encode(text).into_owned()
}

/// `str::to_lowercase`: in an ASCII text `A` to `Z` become `a` to `z`, and nothing else
/// changes. The lower-case form of any other text depends on the text alone; which characters
/// change, and how, is left to Unicode.
#[verifier::external_body]
fn to_lowercase(text: &str) -> (lower: String)
    ensures
        lower@ == (if vstd::utf8::is_ascii_chars(text@) {
            ascii_lowercase(text@)
        } else {
            unicode_lowercase(text@)
        }),
{
    text.to_lowercase()
}

/// Writes a number in decimal.
pub fn decimal(number: u64) -> (text: String)
    ensures
        text@ == decimal_digits(number as nat),
    decreases number,
{
    let digits = "0123456789";
    proof {
        reveal_strlit("0123456789");
    }
    let last: usize = (number % 10) as usize;
    let last_digit = digits.substring_ascii(last, last + 1);
    assert(last_digit@ =~= seq![digit(last as int)]);
    if number < 10 {
        last_digit.to_string()
    } else {
        let mut text = decimal(number / 10);
        text.append(last_digit);
        assert(text@ =~= decimal_digits((number / 10) as nat).push(digit(last as int)));
        text
    }
}

/// Whether `text` starts with `prefix`.
pub fn starts_with(text: &str, prefix: &str) -> (result: bool)
    ensures
        result == prefix@.is_prefix_of(text@),
{
    let text_length: usize = text.unicode_len();
    let prefix_length: usize = prefix.unicode_len();
    if prefix_length > text_length {
        return false;
    }
    let mut text_chars = text.chars();
    let mut prefix_chars = prefix.chars();
    let mut matched: usize = 0;
    while matched < prefix_length
        invariant
            matched <= prefix_length <= text_length,
            prefix_length == prefix@.len(),
            text_length == text@.len(),
            vstd::std_specs::iter::IteratorSpec::remaining(&text_chars) == text@.skip(matched as int),
            vstd::std_specs::iter::IteratorSpec::remaining(&prefix_chars) == prefix@.skip(matched as int),
            forall|i: int| 0 <= i < matched ==> text@[i] == prefix@[i],
        decreases prefix_length - matched,
    {
        let text_char = text_chars.next();
        let prefix_char = prefix_chars.next();
        assert(text_char == Some(text@[matched as int]));
        assert(prefix_char == Some(prefix@[matched as int]));
        if text_char != prefix_char {
            return false;
        }
        matched = matched + 1;
    }
    assert(prefix@ =~= text@.take(prefix@.len() as int));
    true
}

/// Whether `text` starts with `prefix` once both are in lower case.
pub fn matches_prefix(text: &str, prefix: &str) -> (result: bool)
    ensures
        result == starts_with_ignoring_case(text@, prefix@),
        result <==> {
            &&& lowercase(prefix@).len() <= lowercase(text@).len()
            &&& forall|i: int|
                0 <= i < lowercase(prefix@).len() ==> #[trigger] lowercase(prefix@)[i]
                    == lowercase(text@)[i]
        },
{
    proof {
        prefix_match_compares_every_character(text@, prefix@);
    }
    starts_with(to_lowercase(text).as_str(), to_lowercase(prefix).as_str())
}

/// The start of an ASCII text, in lower case, is the start of the text in lower case.
pub proof fn lowercase_keeps_ascii_prefixes(prefix: Seq<char>, text: Seq<char>)
    requires
        vstd::utf8::is_ascii_chars(text),
        prefix.is_prefix_of(text),
    ensures
        lowercase(prefix).is_prefix_of(lowercase(text)),
{
    assert forall|i: int| 0 <= i < prefix.len() implies #[trigger] prefix[i] == text[i] by {
        assert(text.take(prefix.len() as int)[i] == text[i]);
    }
    assert(vstd::utf8::is_ascii_chars(prefix));
    assert(lowercase(prefix) =~= lowercase(text).take(prefix.len() as int));
}

/// Whether `part` stands somewhere in `whole`.
pub open spec fn occurs_in(part: Seq<char>, whole: Seq<char>) -> bool {
    exists|start: int|
        0 <= start <= whole.len() - part.len() && #[trigger] whole.subrange(
            start,
            start + part.len(),
        ) == part
}

/// Percent-encoding goes byte by byte.
pub proof fn percent_encoded_concat(left: Seq<u8>, right: Seq<u8>)
    ensures
        percent_encoded(left + right) == percent_encoded(left) + percent_encoded(right),
    decreases right.len(),
{
    if right.len() == 0 {
        assert(left + right =~= left);
    } else {
        percent_encoded_concat(left, right.drop_last());
        assert((left + right).drop_last() =~= left + right.drop_last());
    }
}

/// Percent-encoding makes three characters of a byte at most, and one of an unreserved byte.
pub proof fn percent_encoded_length(bytes: Seq<u8>)
    ensures
        percent_encoded(bytes).len() <= 3 * bytes.len(),
        (forall|i: int| 0 <= i < bytes.len() ==> is_unreserved(#[trigger] bytes[i]))
            ==> percent_encoded(bytes).len() == bytes.len(),
    decreases bytes.len(),
{
    if bytes.len() > 0 {
        let front = bytes.drop_last();
        percent_encoded_length(front);
        assert(forall|i: int| 0 <= i < front.len() ==> front[i] == bytes[i]);
        assert(bytes.last() == bytes[bytes.len() - 1]);
    }
}

/// Percent-encoded text holds nothing but unreserved characters and `%`, so it cannot end the
/// part of a URL that it stands in.
pub proof fn percent_encoded_is_url_safe(bytes: Seq<u8>)
    ensures
        forall|i: int|
            0 <= i < percent_encoded(bytes).len() ==> {
                let c = #[trigger] percent_encoded(bytes)[i];
                c == '%' || (c as int) < 128 && is_unreserved(c as u8)
            },
    decreases bytes.len(),
{
    if bytes.len() > 0 {
        let front = percent_encoded(bytes.drop_last());
        let last = percent_encoded_byte(bytes.last());
        percent_encoded_is_url_safe(bytes.drop_last());
        assert forall|i: int| 0 <= i < percent_encoded(bytes).len() implies {
            let c = #[trigger] percent_encoded(bytes)[i];
            c == '%' || (c as int) < 128 && is_unreserved(c as u8)
        } by {
            if i < front.len() {
                assert(percent_encoded(bytes)[i] == front[i]);
            } else {
                assert(percent_encoded(bytes)[i] == last[i - front.len()]);
            }
        }
    }
}

/// A text matches a prefix exactly when its lower-case form is at least as long as that of the
/// prefix and agrees with it at every place of the prefix.
pub proof fn prefix_match_compares_every_character(text: Seq<char>, prefix: Seq<char>)
    ensures
        starts_with_ignoring_case(text, prefix) <==> {
            &&& lowercase(prefix).len() <= lowercase(text).len()
            &&& forall|i: int|
                0 <= i < lowercase(prefix).len() ==> #[trigger] lowercase(prefix)[i] == lowercase(
                    text,
                )[i]
        },
{
    let lower = lowercase(text);
    let wanted = lowercase(prefix);
    if starts_with_ignoring_case(text, prefix) {
        assert forall|i: int| 0 <= i < wanted.len() implies #[trigger] wanted[i] == lower[i] by {
            assert(lower.subrange(0, wanted.len() as int)[i] == lower[i]);
        }
    }
    if wanted.len() <= lower.len() && forall|i: int|
        0 <= i < wanted.len() ==> #[trigger] wanted[i] == lower[i] {
        assert(wanted =~= lower.subrange(0, wanted.len() as int));
    }
}

/// An ASCII text matches an ASCII prefix exactly when it is at least as long and each of its
/// first characters is that of the prefix, or the same letter in the other case.
pub proof fn ascii_prefix_match_compares_every_character(text: Seq<char>, prefix: Seq<char>)
    requires
        vstd::utf8::is_ascii_chars(text),
        vstd::utf8::is_ascii_chars(prefix),
    ensures
        starts_with_ignoring_case(text, prefix) <==> {
            &&& prefix.len() <= text.len()
            &&& forall|i: int|
                0 <= i < prefix.len() ==> {
                    ||| #[trigger] prefix[i] == text[i]
                    ||| 'A' <= prefix[i] <= 'Z' && text[i] as int == prefix[i] as int + 32
                    ||| 'A' <= text[i] <= 'Z' && prefix[i] as int == text[i] as int + 32
                }
        },
{
    prefix_match_compares_every_character(text, prefix);
    let lower = lowercase(text);
    let wanted = lowercase(prefix);
    assert(lower.len() == text.len() && wanted.len() == prefix.len());
    assert forall|i: int| 0 <= i < prefix.len() && prefix.len() <= text.len() implies (wanted[i]
        == lower[i] <==> {
        ||| #[trigger] prefix[i] == text[i]
        ||| 'A' <= prefix[i] <= 'Z' && text[i] as int == prefix[i] as int + 32
        ||| 'A' <= text[i] <= 'Z' && prefix[i] as int == text[i] as int + 32
    }) by {
        assert(wanted[i] == ascii_lower(prefix[i]));
        assert(lower[i] == ascii_lower(text[i]));
    }
    if starts_with_ignoring_case(text, prefix) {
        assert forall|i: int| 0 <= i < prefix.len() implies {
            ||| #[trigger] prefix[i] == text[i]
            ||| 'A' <= prefix[i] <= 'Z' && text[i] as int == prefix[i] as int + 32
            ||| 'A' <= text[i] <= 'Z' && prefix[i] as int == text[i] as int + 32
        } by {
            assert(wanted[i] == lower[i]);
        }
    }
    if prefix.len() <= text.len() && forall|i: int|
        0 <= i < prefix.len() ==> {
            ||| #[trigger] prefix[i] == text[i]
            ||| 'A' <= prefix[i] <= 'Z' && text[i] as int == prefix[i] as int + 32
            ||| 'A' <= text[i] <= 'Z' && prefix[i] as int == text[i] as int + 32
        } {
        assert forall|i: int| 0 <= i < wanted.len() implies #[trigger] wanted[i] == lower[i] by {
            assert(prefix[i] == prefix[i]);
        }
    }
}

/// In lower case an ASCII text keeps its length, its letters `A` to `Z` move up by 32 places,
/// and all its other characters stay; of any other text it is what Unicode says.
pub proof fn lowercase_changes_letters_alone(text: Seq<char>)
    ensures
        vstd::utf8::is_ascii_chars(text) ==> lowercase(text).len() == text.len(),
        vstd::utf8::is_ascii_chars(text) ==> forall|i: int|
            0 <= i < text.len() ==> (#[trigger] lowercase(text)[i]) as int == (if 'A' <= text[i]
                <= 'Z' {
                text[i] as int + 32
            } else {
                text[i] as int
            }),
        !vstd::utf8::is_ascii_chars(text) ==> lowercase(text) == unicode_lowercase(text),
{
}

/// Numbers below ten are one digit, and a digit behind a number makes ten times the number and
/// the digit.
pub proof fn decimal_digits_count_in_tens(number: nat, last: nat)
    requires
        last < 10,
    ensures
        decimal_digits(last).len() == 1,
        decimal_digits(last)[0] as int == '0' as int + last,
        number > 0 ==> decimal_digits(10 * number + last) == decimal_digits(number)
            + decimal_digits(last),
{
    if number > 0 {
        assert((10 * number + last) / 10 == number);
        assert((10 * number + last) % 10 == last);
        assert(decimal_digits(number) + decimal_digits(last) =~= decimal_digits(number).push(
            digit(last as int),
        ));
    }
}

/// Nothing is encoded as nothing. A letter, a digit, `-`, `.`, `_` and `~` is encoded as
/// itself, and any other byte as `%` and its two hexadecimal digits.
pub proof fn percent_encoding_of_each_byte(bytes: Seq<u8>, byte: u8)
    ensures
        percent_encoded(Seq::empty()).len() == 0,
        ({
            let c = byte as char;
            let added = percent_encoded(bytes.push(byte)).skip(percent_encoded(bytes).len() as int);
            let kept = 'A' <= c <= 'Z' || 'a' <= c <= 'z' || '0' <= c <= '9' || c == '-' || c
                == '.' || c == '_' || c == '~';
            let high = byte as int / 16;
            let low = byte as int % 16;
            &&& percent_encoded(bytes.push(byte)).len() == percent_encoded(bytes).len()
                + added.len()
            &&& percent_encoded(bytes).is_prefix_of(percent_encoded(bytes.push(byte)))
            &&& kept ==> added.len() == 1 && added[0] == c
            &&& !kept ==> added.len() == 3 && added[0] == '%'
            &&& !kept && high < 10 ==> added[1] as int == '0' as int + high
            &&& !kept && high >= 10 ==> added[1] as int == 'A' as int + high - 10
            &&& !kept && low < 10 ==> added[2] as int == '0' as int + low
            &&& !kept && low >= 10 ==> added[2] as int == 'A' as int + low - 10
        }),
{
    let before = percent_encoded(bytes);
    let after = percent_encoded(bytes.push(byte));
    assert(bytes.push(byte).drop_last() =~= bytes);
    assert(after =~= before + percent_encoded_byte(byte));
    assert(after.skip(before.len() as int) =~= percent_encoded_byte(byte));
    assert(before =~= after.subrange(0, before.len() as int));
}

/// A text stands in another exactly when something can stand before and behind it.
pub proof fn occurrence_has_two_sides(part: Seq<char>, whole: Seq<char>)
    ensures
        occurs_in(part, whole) <==> exists|before: Seq<char>, behind: Seq<char>|
            whole == #[trigger] (before + part + behind),
{
    if occurs_in(part, whole) {
        let start = choose|start: int|
            0 <= start <= whole.len() - part.len() && #[trigger] whole.subrange(
                start,
                start + part.len(),
            ) == part;
        let before = whole.subrange(0, start);
        let behind = whole.subrange(start + part.len(), whole.len() as int);
        assert(whole =~= before + part + behind);
    }
    if exists|before: Seq<char>, behind: Seq<char>| whole == #[trigger] (before + part + behind) {
        let (before, behind) = choose|before: Seq<char>, behind: Seq<char>|
            whole == #[trigger] (before + part + behind);
        let start = before.len() as int;
        assert(whole.subrange(start, start + part.len()) =~= part);
    }
}

} // verus!
