//! Dates as the catalog writes them: a year, then perhaps a month, then
//! perhaps a day, with hyphens between them.

use vstd::prelude::*;
use vstd::string::StringSliceAdditionalSpecFns;

verus! {

/// A date that may lack its day, or its month and day.
#[derive(Copy, Clone, Debug, PartialEq, Eq, Structural)]
pub struct PartialDate {
    pub year: u16,
    pub month: Option<u16>,
    pub day: Option<u16>,
}

/// The byte `-`.
pub const HYPHEN: u8 = 0x2d;

/// The byte `+`.
pub const PLUS: u8 = 0x2b;

/// The byte `0`.
pub const DIGIT_ZERO: u8 = 0x30;

/// The byte `9`.
pub const DIGIT_NINE: u8 = 0x39;

/// How many hyphens a text holds.
pub open spec fn hyphen_count(text: Seq<u8>) -> nat
    decreases text.len(),
{
    if text.len() == 0 {
        0
    } else if text.last() == HYPHEN {
        hyphen_count(text.drop_last()) + 1
    } else {
        hyphen_count(text.drop_last())
    }
}

/// Where the first field of a text ends: at its first hyphen, or at its end
/// where it holds none.
pub open spec fn field_end(text: Seq<u8>) -> int
    decreases text.len(),
{
    if text.len() == 0 || text[0] == HYPHEN {
        0
    } else {
        1 + field_end(text.drop_first())
    }
}

/// The field of a text with the given number, counted from 0, where the
/// hyphens part the fields. A text has one field more than it has hyphens;
/// beyond them the field is empty.
pub open spec fn date_field(text: Seq<u8>, number: nat) -> Seq<u8>
    decreases number,
{
    if number == 0 {
        text.take(field_end(text))
    } else if field_end(text) < text.len() {
        date_field(text.skip(field_end(text) + 1), (number - 1) as nat)
    } else {
        Seq::empty()
    }
}

/// Every byte is a decimal digit.
pub open spec fn all_digits(digits: Seq<u8>) -> bool {
    forall|i: int| 0 <= i < digits.len() ==> DIGIT_ZERO <= #[trigger] digits[i] <= DIGIT_NINE
}

/// The number that decimal digits stand for.
pub open spec fn digits_value(digits: Seq<u8>) -> nat
    decreases digits.len(),
{
    if digits.len() == 0 {
        0
    } else {
        digits_value(digits.drop_last()) * 10 + (digits.last() - DIGIT_ZERO) as nat
    }
}

/// The number a text stands for: an optional `+`, then one decimal digit or
/// more and nothing else, with a value of at most 65535.
pub open spec fn number_u16(text: Seq<u8>) -> Option<u16> {
    let digits = if text.len() > 0 && text[0] == PLUS {
        text.skip(1)
    } else {
        text
    };
    if digits.len() > 0 && all_digits(digits) && digits_value(digits) <= u16::MAX {
        Some(digits_value(digits) as u16)
    } else {
        None
    }
}

/// The date a text stands for. The first field is the year, and without a
/// year there is no date. Where the text holds a hyphen, the second field is
/// the month; where it holds exactly two, the third is the day. A month or a
/// day that is no number is absent.
pub open spec fn partial_date(text: Seq<u8>) -> Option<PartialDate> {
    match number_u16(date_field(text, 0)) {
        None => None,
        Some(year) => Some(
            PartialDate {
                year,
                month: if hyphen_count(text) >= 1 {
                    number_u16(date_field(text, 1))
                } else {
                    None
                },
                day: if hyphen_count(text) == 2 {
                    number_u16(date_field(text, 2))
                } else {
                    None
                },
            },
        ),
    }
}

/// The first field ends inside the text or at its end, holds no hyphen, and
/// is followed by one where the text goes on.
pub proof fn lemma_field_end(text: Seq<u8>)
    ensures
        0 <= field_end(text) <= text.len(),
        forall|k: int| 0 <= k < field_end(text) ==> text[k] != HYPHEN,
        field_end(text) < text.len() ==> text[field_end(text)] == HYPHEN,
    decreases text.len(),
{
    if text.len() == 0 || text[0] == HYPHEN {
    } else {
        let rest = text.drop_first();
        lemma_field_end(rest);
        assert forall|k: int| 0 <= k < field_end(text) implies text[k] != HYPHEN by {
            if k > 0 {
                assert(text[k] == rest[k - 1]);
            }
        }
        if field_end(text) < text.len() {
            assert(text[field_end(text)] == rest[field_end(rest)]);
        }
    }
}

/// What [`lemma_field_end`] says of the end of the first field holds of no
/// other place.
pub proof fn lemma_field_end_unique(text: Seq<u8>, end: int)
    requires
        0 <= end <= text.len(),
        forall|k: int| 0 <= k < end ==> text[k] != HYPHEN,
        end < text.len() ==> text[end] == HYPHEN,
    ensures
        end == field_end(text),
{
    lemma_field_end(text);
    let e = field_end(text);
    if e < end {
        assert(text[e] != HYPHEN);
    } else if end < e {
        assert(text[end] != HYPHEN);
    }
}

/// The hyphens of two texts put together are those of the one and those of
/// the other.
pub proof fn lemma_hyphen_count_add(a: Seq<u8>, b: Seq<u8>)
    ensures
        hyphen_count(a + b) == hyphen_count(a) + hyphen_count(b),
    decreases b.len(),
{
    if b.len() == 0 {
        assert(a + b =~= a);
    } else {
        assert((a + b).drop_last() =~= a + b.drop_last());
        assert((a + b).last() == b.last());
        lemma_hyphen_count_add(a, b.drop_last());
    }
}

/// A text without a hyphen has none, and a text has at most as many as bytes.
pub proof fn lemma_hyphen_count_bounds(text: Seq<u8>)
    ensures
        hyphen_count(text) <= text.len(),
        (forall|k: int| 0 <= k < text.len() ==> text[k] != HYPHEN) ==> hyphen_count(text) == 0,
    decreases text.len(),
{
    if text.len() > 0 {
        lemma_hyphen_count_bounds(text.drop_last());
        if forall|k: int| 0 <= k < text.len() ==> text[k] != HYPHEN {
            assert forall|k: int| 0 <= k < text.drop_last().len() implies text.drop_last()[k]
                != HYPHEN by {
                assert(text.drop_last()[k] == text[k]);
            }
        }
    }
}

/// A text whose first field ends before its end holds one hyphen more than
/// what follows that field's hyphen; another text holds none.
pub proof fn lemma_hyphens_after_first_field(text: Seq<u8>)
    ensures
        field_end(text) < text.len() ==> hyphen_count(text) == 1 + hyphen_count(
            text.skip(field_end(text) + 1),
        ),
        field_end(text) == text.len() ==> hyphen_count(text) == 0,
{
    lemma_field_end(text);
    let end = field_end(text);
    let head = text.take(end);
    lemma_hyphen_count_bounds(head);
    if end < text.len() {
        let rest = text.skip(end + 1);
        let mark = seq![HYPHEN];
        assert(text =~= head + mark + rest);
        lemma_hyphen_count_add(head + mark, rest);
        lemma_hyphen_count_add(head, mark);
        assert(hyphen_count(mark) == 1) by {
            reveal_with_fuel(hyphen_count, 2);
        }
    } else {
        assert(text =~= head);
    }
}

/// Digits that go on stand for no smaller number.
pub proof fn lemma_digits_value_grows(digits: Seq<u8>, n: int)
    requires
        0 <= n <= digits.len(),
        all_digits(digits),
    ensures
        digits_value(digits.take(n)) <= digits_value(digits),
    decreases digits.len() - n,
{
    if n < digits.len() {
        assert(digits.take(n + 1).drop_last() =~= digits.take(n));
        assert(digits.take(n + 1).last() == digits[n]);
        lemma_digits_value_grows(digits, n + 1);
    } else {
        assert(digits.take(n) =~= digits);
    }
}

/// Counts the hyphens of a text.
pub fn count_hyphens(text: &[u8]) -> (count: usize)
    ensures
        count == hyphen_count(text@),
{
    let mut count: usize = 0;
    let mut i: usize = 0;
    assert(text@.take(0) =~= Seq::<u8>::empty());
    while i < text.len()
        invariant
            i <= text.len(),
            count <= i,
            count == hyphen_count(text@.take(i as int)),
        decreases text.len() - i,
    {
        assert(text@.take(i + 1).drop_last() =~= text@.take(i as int));
        assert(text@.take(i + 1).last() == text@[i as int]);
        if text[i] == HYPHEN {
            count += 1;
        }
        i += 1;
    }
    assert(text@.take(i as int) =~= text@);
    count
}

/// Finds the end of the field that begins at `start`: the place of the next
/// hyphen, or the end of the text.
pub fn find_field_end(text: &[u8], start: usize) -> (end: usize)
    requires
        start <= text.len(),
    ensures
        start <= end <= text.len(),
        end == start + field_end(text@.skip(start as int)),
{
    let mut end = start;
    while end < text.len() && text[end] != HYPHEN
        invariant
            start <= end <= text.len(),
            forall|k: int| start <= k < end ==> text@[k] != HYPHEN,
        decreases text.len() - end,
    {
        end += 1;
    }
    proof {
        lemma_field_end_unique(text@.skip(start as int), end - start);
    }
    end
}

/// Reads the number that stands between `start` and `end`.
pub fn parse_u16(text: &[u8], start: usize, end: usize) -> (number: Option<u16>)
    requires
        start <= end <= text.len(),
    ensures
        number == number_u16(text@.subrange(start as int, end as int)),
{
    let ghost whole = text@.subrange(start as int, end as int);
    let mut i = start;
    if i < end && text[i] == PLUS {
        i += 1;
    }
    let first = i;
    let ghost digits = text@.subrange(first as int, end as int);
    proof {
        if whole.len() > 0 && whole[0] == PLUS {
            assert(whole.skip(1) =~= digits);
        } else {
            assert(whole =~= digits);
        }
    }
    if i == end {
        return None;
    }
    let ghost target = number_u16(whole);
    let mut value: u32 = 0;
    assert(digits.take(0) =~= Seq::<u8>::empty());
    while i < end
        invariant
            start <= first <= i <= end <= text.len(),
            digits == text@.subrange(first as int, end as int),
            target == number_u16(text@.subrange(start as int, end as int)),
            target == if all_digits(digits) && digits_value(digits) <= u16::MAX {
                Some(digits_value(digits) as u16)
            } else {
                None
            },
            all_digits(digits.take(i - first)),
            value == digits_value(digits.take(i - first)),
            value <= u16::MAX,
        decreases end - i,
    {
        let byte = text[i];
        assert(byte == digits[i - first]);
        if byte < DIGIT_ZERO || byte > DIGIT_NINE {
            return None;
        }
        assert(digits.take(i - first + 1).drop_last() =~= digits.take(i - first));
        assert(digits.take(i - first + 1).last() == byte);
        value = value * 10 + (byte - DIGIT_ZERO) as u32;
        assert(all_digits(digits.take(i - first + 1))) by {
            assert forall|k: int| 0 <= k < i - first + 1 implies DIGIT_ZERO
                <= #[trigger] digits.take(i - first + 1)[k] <= DIGIT_NINE by {
                if k < i - first {
                    assert(digits.take(i - first + 1)[k] == digits.take(i - first)[k]);
                }
            }
        }
        if value > 65535 {
            proof {
                if all_digits(digits) {
                    lemma_digits_value_grows(digits, i - first + 1);
                }
            }
            return None;
        }
        i += 1;
    }
    assert(digits.take(i - first) =~= digits);
    Some(value as u16)
}

/// The fields behind the first are the fields of what follows its hyphen.
pub proof fn lemma_later_field(text: Seq<u8>, number: nat)
    requires
        field_end(text) < text.len(),
    ensures
        date_field(text, number + 1) == date_field(text.skip(field_end(text) + 1), number),
{
}

/// Reads the number in the field that begins at `start`, and finds where that
/// field ends.
pub fn parse_field(text: &[u8], start: usize) -> (r: (Option<u16>, usize))
    requires
        start <= text.len(),
    ensures
        r.0 == number_u16(date_field(text@.skip(start as int), 0)),
        r.1 == start + field_end(text@.skip(start as int)),
        start <= r.1 <= text.len(),
{
    let end = find_field_end(text, start);
    let number = parse_u16(text, start, end);
    proof {
        let rest = text@.skip(start as int);
        assert(rest.take(field_end(rest)) =~= text@.subrange(start as int, end as int));
    }
    (number, end)
}

impl PartialDate {
    /// Reads a date as the catalog writes it, such as `2017`, `2017-10` or
    /// `2017-10-23`. There is no date where the year is no number.
    pub fn parse(text: &str) -> (date: Option<PartialDate>)
        ensures
            date == partial_date(text.spec_bytes()),
    {
        let bytes = text.as_bytes();
        let ghost all = bytes@;
        let hyphens = count_hyphens(bytes);
        let (year, year_end) = parse_field(bytes, 0);
        proof {
            assert(all.skip(0) =~= all);
            lemma_hyphens_after_first_field(all);
        }
        let year = match year {
            Some(year) => year,
            None => {
                return None;
            },
        };
        if hyphens == 0 {
            return Some(PartialDate { year, month: None, day: None });
        }
        let (month, month_end) = parse_field(bytes, year_end + 1);
        let ghost rest = all.skip(year_end + 1);
        proof {
            lemma_later_field(all, 0);
            lemma_hyphens_after_first_field(rest);
        }
        if hyphens != 2 {
            return Some(PartialDate { year, month, day: None });
        }
        let (day, _) = parse_field(bytes, month_end + 1);
        proof {
            lemma_later_field(all, 1);
            lemma_later_field(rest, 0);
            assert(rest.skip(field_end(rest) + 1) =~= all.skip(month_end + 1));
        }
        Some(PartialDate { year, month, day })
    }
}

} // verus!
