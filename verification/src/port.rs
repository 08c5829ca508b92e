//! Choosing the serial device: the answer to the prompt that lists the
//! available ports is a line of text that names one of them by its number.

use vstd::prelude::*;
use vstd::string::StringExecFns;
use crate::report::{append_decimal, decimal, digit_char};

verus! {

/// A character with the Unicode property White_Space.
pub open spec fn is_space(c: char) -> bool {
    let code = c as u32;
    ||| 0x09 <= code <= 0x0D
    ||| code == 0x20
    ||| code == 0x85
    ||| code == 0xA0
    ||| code == 0x1680
    ||| 0x2000 <= code <= 0x200A
    ||| code == 0x2028
    ||| code == 0x2029
    ||| code == 0x202F
    ||| code == 0x205F
    ||| code == 0x3000
}

/// An ASCII decimal digit.
pub open spec fn is_digit(c: char) -> bool {
    '0' <= c <= '9'
}

/// A text without the white space at its beginning.
pub open spec fn without_leading_space(text: Seq<char>) -> Seq<char>
    decreases text.len(),
{
    if text.len() > 0 && is_space(text.first()) {
        without_leading_space(text.drop_first())
    } else {
        text
    }
}

/// A text without the white space at its end.
pub open spec fn without_trailing_space(text: Seq<char>) -> Seq<char>
    decreases text.len(),
{
    if text.len() > 0 && is_space(text.last()) {
        without_trailing_space(text.drop_last())
    } else {
        text
    }
}

/// A text without the white space at either end.
pub open spec fn trimmed(text: Seq<char>) -> Seq<char> {
    without_trailing_space(without_leading_space(text))
}

/// Every character of the text is a decimal digit.
pub open spec fn all_digits(text: Seq<char>) -> bool {
    forall|i: int| 0 <= i < text.len() ==> is_digit(#[trigger] text[i])
}

/// The number that a text of decimal digits writes.
pub open spec fn digits_value(digits: Seq<char>) -> nat
    decreases digits.len(),
{
    if digits.len() == 0 {
        0
    } else {
        (digits_value(digits.drop_last()) * 10 + (digits.last() as nat - '0' as nat)) as nat
    }
}

/// The number written on a line: white space at either end is ignored, one
/// plus sign may stand before the digits, and there is at least one digit and
/// nothing else.
pub open spec fn written_number(line: Seq<char>) -> Option<nat> {
    let text = trimmed(line);
    let digits = if text.len() > 0 && text.first() == '+' {
        text.drop_first()
    } else {
        text
    };
    if digits.len() > 0 && all_digits(digits) {
        Some(digits_value(digits))
    } else {
        None
    }
}

/// The port that a line chooses from a list: the one whose position, counted
/// from zero, is the number written on the line.
pub open spec fn chosen_port(names: Seq<String>, line: Seq<char>) -> Option<String> {
    match written_number(line) {
        Some(index) => if index < names.len() {
            Some(names[index as int])
        } else {
            None
        },
        None => None,
    }
}

/// Tells whether a character is white space.
fn char_is_space(c: char) -> (space: bool)
    ensures
        space == is_space(c),
{
    let code: u32 = c as u32;
    (0x09 <= code && code <= 0x0D) || code == 0x20 || code == 0x85 || code == 0xA0 || code
        == 0x1680 || (0x2000 <= code && code <= 0x200A) || code == 0x2028 || code == 0x2029
        || code == 0x202F || code == 0x205F || code == 0x3000
}

/// Removing leading white space from a text that begins with `count` white
/// space characters is the same as removing it from the rest.
proof fn lemma_leading_space(text: Seq<char>, count: int)
    requires
        0 <= count <= text.len(),
        forall|i: int| 0 <= i < count ==> is_space(#[trigger] text[i]),
    ensures
        without_leading_space(text) == without_leading_space(text.skip(count)),
    decreases count,
{
    if count == 0 {
        assert(text.skip(0) =~= text);
    } else {
        let rest = text.drop_first();
        assert(forall|i: int| 0 <= i < count - 1 ==> is_space(#[trigger] rest[i]));
        lemma_leading_space(rest, count - 1);
        assert(rest.skip(count - 1) =~= text.skip(count));
    }
}

/// Removing trailing white space from a text that ends with white space from
/// position `keep` on is the same as removing it from what stands before.
proof fn lemma_trailing_space(text: Seq<char>, keep: int)
    requires
        0 <= keep <= text.len(),
        forall|i: int| keep <= i < text.len() ==> is_space(#[trigger] text[i]),
    ensures
        without_trailing_space(text) == without_trailing_space(text.take(keep)),
    decreases text.len() - keep,
{
    if keep == text.len() {
        assert(text.take(keep) =~= text);
    } else {
        let rest = text.drop_last();
        lemma_trailing_space(rest, keep);
        assert(rest.take(keep) =~= text.take(keep));
    }
}

/// The value of a text of digits grows with each digit that is appended.
proof fn lemma_value_grows(digits: Seq<char>, count: int)
    requires
        0 <= count <= digits.len(),
        all_digits(digits),
    ensures
        digits_value(digits.take(count)) <= digits_value(digits),
    decreases digits.len() - count,
{
    if count == digits.len() {
        assert(digits.take(count) =~= digits);
    } else {
        let longer = digits.take(count + 1);
        assert(longer.drop_last() =~= digits.take(count));
        lemma_value_grows(digits, count + 1);
    }
}

/// Reads the number written on a line, as far as it stays below a limit.
///
/// Returns the number if the line writes one and it is less than `limit`,
/// and nothing otherwise.
pub fn read_number_below(line: &str, limit: usize) -> (number: Option<usize>)
    ensures
        number matches Some(n) ==> written_number(line@) == Some(n as nat) && n < limit,
        number is None ==> (written_number(line@) matches Some(n) ==> n >= limit),
{
    let length = line.unicode_len();
    let mut start: usize = 0;
    while start < length && char_is_space(line.get_char(start))
        invariant
            0 <= start <= length,
            length == line@.len(),
            forall|i: int| 0 <= i < start ==> is_space(#[trigger] line@[i]),
        decreases length - start,
    {
        start += 1;
    }
    let mut end: usize = length;
    while end > start && char_is_space(line.get_char(end - 1))
        invariant
            start <= end <= length,
            length == line@.len(),
            forall|i: int| end <= i < length ==> is_space(#[trigger] line@[i]),
        decreases end,
    {
        end -= 1;
    }
    let ghost text = line@.subrange(start as int, end as int);
    proof {
        let front = line@.skip(start as int);
        lemma_leading_space(line@, start as int);
        assert(without_leading_space(front) == front);
        assert(forall|i: int| end - start <= i < front.len() ==> is_space(#[trigger] front[i]));
        lemma_trailing_space(front, end - start);
        assert(without_trailing_space(text) == text);
        assert(trimmed(line@) == text);
    }
    let mut first: usize = start;
    if first < end && line.get_char(first) == '+' {
        first += 1;
    }
    let ghost digits = line@.subrange(first as int, end as int);
    proof {
        if first > start {
            assert(text.drop_first() =~= digits);
        }
    }
    if first == end {
        return None;
    }
    let mut value: usize = 0;
    let mut at: usize = first;
    while at < end
        invariant
            first <= at <= end <= length,
            length == line@.len(),
            digits == line@.subrange(first as int, end as int),
            written_number(line@) == if all_digits(digits) {
                Some(digits_value(digits))
            } else {
                None
            },
            all_digits(digits.take(at - first)),
            value == digits_value(digits.take(at - first)),
            at > first ==> value < limit,
        decreases end - at,
    {
        let c = line.get_char(at);
        if !(c >= '0' && c <= '9') {
            assert(!is_digit(digits[at - first]));
            return None;
        }
        let digit: usize = (c as u32 - '0' as u32) as usize;
        let ghost longer = digits.take(at - first + 1);
        proof {
            assert(longer.drop_last() =~= digits.take(at - first));
            assert(forall|i: int| 0 <= i < longer.len() ==> is_digit(#[trigger] longer[i]));
        }
        let next = match value.checked_mul(10) {
            Some(tenfold) => tenfold.checked_add(digit),
            None => None,
        };
        match next {
            Some(n) if n < limit => {
                value = n;
            },
            _ => {
                proof {
                    if all_digits(digits) {
                        lemma_value_grows(digits, at - first + 1);
                    }
                }
                return None;
            },
        }
        at += 1;
    }
    proof {
        assert(digits.take(at - first) =~= digits);
    }
    Some(value)
}

/// Picks the port that a line chooses from the list of available ports.
///
/// Returns the name at the position that the line writes, and nothing if the
/// line writes no number or the list has no such position.
pub fn select_port(names: &Vec<String>, line: &str) -> (choice: Option<String>)
    ensures
        choice == chosen_port(names@, line@),
{
    match read_number_below(line, names.len()) {
        Some(index) => Some(names[index].clone()),
        None => None,
    }
}

/// The line that lists a port: its position in square brackets, then its
/// name.
pub open spec fn port_text(position: nat, name: Seq<char>) -> Seq<char> {
    "["@ + decimal(position) + "] "@ + name
}

/// Writes the line that lists a port under its position.
pub fn port_line(position: usize, name: &str) -> (line: String)
    ensures
        line@ == port_text(position as nat, name@),
{
    let mut line = String::new();
    line.append("[");
    append_decimal(&mut line, position);
    line.append("] ");
    line.append(name);
    line
}

/// A number written in decimal is a text of at least one digit that writes
/// that number.
pub proof fn lemma_decimal_is_read_back(n: nat)
    ensures
        decimal(n).len() > 0,
        all_digits(decimal(n)),
        digits_value(decimal(n)) == n,
    decreases n,
{
    let last = digit_char(n % 10);
    assert(is_digit(last) && last as nat - '0' as nat == n % 10);
    assert(decimal(n).last() == last);
    if n < 10 {
        assert(decimal(n).drop_last() =~= Seq::<char>::empty());
        assert(digits_value(decimal(n).drop_last()) == 0);
    } else {
        lemma_decimal_is_read_back(n / 10);
        assert(decimal(n).drop_last() =~= decimal(n / 10));
        assert forall|i: int| 0 <= i < decimal(n).len() implies is_digit(
            #[trigger] decimal(n)[i],
        ) by {
            if i < decimal(n / 10).len() {
                assert(decimal(n)[i] == decimal(n / 10)[i]);
            }
        }
    }
}

/// The number under which a port is listed chooses that port: a line that
/// holds the position as `port_line` writes it, and nothing else, selects the
/// port at that position.
pub proof fn lemma_listed_number_selects(names: Seq<String>, position: nat)
    requires
        position < names.len(),
    ensures
        written_number(decimal(position)) == Some(position),
        chosen_port(names, decimal(position)) == Some(names[position as int]),
{
    let text = decimal(position);
    lemma_decimal_is_read_back(position);
    assert(is_digit(text.first()) && is_digit(text.last()));
    assert(!is_space(text.first()) && !is_space(text.last()));
    assert(trimmed(text) == text);
}

} // verus!
