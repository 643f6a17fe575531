use vstd::prelude::*;
use vstd::std_specs::iter::IteratorSpec;
use crate::errors::CoffeeMakerError;

verus! {

/// How a coffee is paid for.
#[derive(Debug, Clone, Copy, PartialEq, Eq, Structural)]
pub enum ConsumptionType {
    /// With points of the account.
    Points,
    /// In cash, which earns points for the account.
    Cash,
}

/// An order as it is read from the order file: how it is paid, the points
/// that it costs or earns, and the account.
#[derive(Debug, Clone, Copy, PartialEq, Eq, Structural)]
pub struct Order {
    pub consumption_type: ConsumptionType,
    pub account_id: u64,
    pub consumption: u64,
}

/// The line ends with the ending.
pub open spec fn ends_with(line: Seq<char>, ending: Seq<char>) -> bool {
    line.len() >= ending.len() && line.subrange(line.len() - ending.len(), line.len() as int)
        == ending
}

/// The line without the ending, as often as the line ends with it.
pub open spec fn without_trailing(line: Seq<char>, ending: Seq<char>) -> Seq<char>
    decreases line.len(),
{
    if ending.len() > 0 && ends_with(line, ending) {
        without_trailing(line.subrange(0, line.len() - ending.len()), ending)
    } else {
        line
    }
}

/// The line without its ending: without every carriage return and line
/// feed that it ends with, where it ends with that pair; else without every
/// line feed that it ends with; else without every carriage return.
pub open spec fn ending_removed(line: Seq<char>) -> Seq<char> {
    if ends_with(line, seq!['\r', '\n']) {
        without_trailing(line, seq!['\r', '\n'])
    } else if ends_with(line, seq!['\n']) {
        without_trailing(line, seq!['\n'])
    } else if ends_with(line, seq!['\r']) {
        without_trailing(line, seq!['\r'])
    } else {
        line
    }
}

/// The place of the first comma at or after `from`: the length of the text
/// where there is none.
pub open spec fn comma_from(text: Seq<char>, from: int) -> int
    decreases text.len() - from,
{
    if from < 0 || from >= text.len() {
        text.len() as int
    } else if text[from] == ',' {
        from
    } else {
        comma_from(text, from + 1)
    }
}

/// The character is a decimal digit.
pub open spec fn is_digit(c: char) -> bool {
    '0' <= c && c <= '9'
}

/// The number that a text of decimal digits stands for.
pub open spec fn digits_value(digits: Seq<char>) -> nat
    decreases digits.len(),
{
    if digits.len() == 0 {
        0
    } else {
        digits_value(digits.drop_last()) * 10 + (digits.last() as u32 - '0' as u32) as nat
    }
}

/// The digits of a field that stands for a number: the field without the
/// plus sign that it may start with.
pub open spec fn digits_of(field: Seq<char>) -> Seq<char> {
    if field.len() > 0 && field[0] == '+' {
        field.subrange(1, field.len() as int)
    } else {
        field
    }
}

/// Every character is a decimal digit.
pub open spec fn all_digits(digits: Seq<char>) -> bool {
    forall|i: int| 0 <= i < digits.len() ==> is_digit(#[trigger] digits[i])
}

/// The number that a field of an order stands for: decimal digits, at least
/// one, with or without a plus sign before them, for a number that fits 64
/// bits. Nothing else is a number.
pub open spec fn parsed_number(field: Seq<char>) -> Option<u64> {
    let digits = digits_of(field);
    if digits.len() > 0 && all_digits(digits) && digits_value(digits) <= u64::MAX {
        Some(digits_value(digits) as u64)
    } else {
        None
    }
}

/// The way of paying that a field of an order names.
pub open spec fn parsed_consumption_type(field: Seq<char>) -> Option<ConsumptionType> {
    if field == seq!['P', 'O', 'I', 'N', 'T', 'S'] {
        Some(ConsumptionType::Points)
    } else if field == seq!['C', 'A', 'S', 'H'] {
        Some(ConsumptionType::Cash)
    } else {
        None
    }
}

/// The order that a line of the order file stands for. Without its ending,
/// the line has three fields, parted by its first two commas: `POINTS` or
/// `CASH`, the points, and the account. Any other line is an error of
/// format.
pub open spec fn parsed_order(line: Seq<char>) -> Result<Order, CoffeeMakerError> {
    let text = ending_removed(line);
    let first = comma_from(text, 0);
    let second = comma_from(text, first + 1);
    if second >= text.len() {
        Err(CoffeeMakerError::FileReaderFormatError)
    } else {
        match (
            parsed_consumption_type(text.subrange(0, first)),
            parsed_number(text.subrange(first + 1, second)),
            parsed_number(text.subrange(second + 1, text.len() as int)),
        ) {
            (Some(consumption_type), Some(consumption), Some(account_id)) => Ok(
                Order { consumption_type, account_id, consumption },
            ),
            _ => Err(CoffeeMakerError::FileReaderFormatError),
        }
    }
}

/// The digits of the start of a text stand for no more than the digits of
/// the whole text.
pub proof fn lemma_digits_value_prefix(digits: Seq<char>, n: int)
    requires
        0 <= n <= digits.len(),
    ensures
        digits_value(digits.subrange(0, n)) <= digits_value(digits),
    decreases digits.len() - n,
{
    if n == digits.len() {
        assert(digits.subrange(0, n) =~= digits);
    } else {
        lemma_digits_value_prefix(digits, n + 1);
        assert(digits.subrange(0, n + 1).drop_last() =~= digits.subrange(0, n));
    }
}

/// The characters of a text.
fn chars_of(text: &str) -> (chars: Vec<char>)
    ensures
        chars@ == text@,
{
    broadcast use vstd::string::group_string_axioms;

    let mut chars: Vec<char> = Vec::new();
    let mut rest = text.chars();
    assert(chars@ + rest.remaining() =~= text@);
    loop
        invariant
            chars@ + rest.remaining() == text@,
            rest.decrease() is Some,
        ensures
            chars@ == text@,
        decreases rest.decrease()->0,
    {
        let ghost before = rest.remaining();
        match rest.next() {
            Some(c) => {
                chars.push(c);
                assert(chars@ + rest.remaining() =~= text@) by {
                    assert(rest.remaining() == before.drop_first());
                }
            },
            None => {
                assert(before.len() == 0);
                assert(chars@ =~= text@);
                break;
            },
        }
    }
    chars
}

/// The length of the text without the ending, as often as the text ends
/// with it.
fn trim_end(text: &Vec<char>, ending: &Vec<char>) -> (end: usize)
    requires
        ending@.len() == 1 || ending@.len() == 2,
    ensures
        end <= text@.len(),
        text@.subrange(0, end as int) == without_trailing(text@, ending@),
{
    let mut end = text.len();
    assert(text@.subrange(0, end as int) =~= text@);
    loop
        invariant
            end <= text@.len(),
            ending@.len() == 1 || ending@.len() == 2,
            without_trailing(text@.subrange(0, end as int), ending@) == without_trailing(
                text@,
                ending@,
            ),
        ensures
            text@.subrange(0, end as int) == without_trailing(text@, ending@),
        decreases end,
    {
        let ghost kept = text@.subrange(0, end as int);
        let matches = if end < ending.len() {
            false
        } else if ending.len() == 1 {
            text[end - 1] == ending[0]
        } else {
            text[end - 2] == ending[0] && text[end - 1] == ending[1]
        };
        proof {
            if end >= ending@.len() {
                let tail = kept.subrange(kept.len() - ending@.len(), kept.len() as int);
                if matches {
                    assert(tail =~= ending@);
                } else {
                    if ending@.len() == 1 {
                        assert(tail[0] == text@[end - 1]);
                    } else {
                        assert(tail[0] == text@[end - 2]);
                        assert(tail[1] == text@[end - 1]);
                    }
                }
            }
            assert(matches == ends_with(kept, ending@));
        }
        if !matches {
            break;
        }
        proof {
            assert(kept.subrange(0, kept.len() - ending@.len()) =~= text@.subrange(
                0,
                end - ending@.len(),
            ));
        }
        end = end - ending.len();
    }
    end
}

/// Whether the first `end` characters of the text end with the ending.
fn ends_at(text: &Vec<char>, end: usize, ending: &Vec<char>) -> (matches: bool)
    requires
        end <= text@.len(),
        ending@.len() == 1 || ending@.len() == 2,
    ensures
        matches == ends_with(text@.subrange(0, end as int), ending@),
{
    let ghost kept = text@.subrange(0, end as int);
    let matches = if end < ending.len() {
        false
    } else if ending.len() == 1 {
        text[end - 1] == ending[0]
    } else {
        text[end - 2] == ending[0] && text[end - 1] == ending[1]
    };
    proof {
        if end >= ending@.len() {
            let tail = kept.subrange(kept.len() - ending@.len(), kept.len() as int);
            if matches {
                assert(tail =~= ending@);
            } else {
                if ending@.len() == 1 {
                    assert(tail[0] == text@[end - 1]);
                } else {
                    assert(tail[0] == text@[end - 2]);
                    assert(tail[1] == text@[end - 1]);
                }
            }
        }
    }
    matches
}

/// The length of a line without its ending: see `ending_removed`.
pub fn remove_ending(line: &Vec<char>) -> (end: usize)
    ensures
        end <= line@.len(),
        line@.subrange(0, end as int) == ending_removed(line@),
{
    let mut pair: Vec<char> = Vec::new();
    pair.push('\r');
    pair.push('\n');
    let mut feed: Vec<char> = Vec::new();
    feed.push('\n');
    let mut carriage: Vec<char> = Vec::new();
    carriage.push('\r');
    proof {
        assert(pair@ =~= seq!['\r', '\n']);
        assert(feed@ =~= seq!['\n']);
        assert(carriage@ =~= seq!['\r']);
        assert(line@.subrange(0, line@.len() as int) =~= line@);
    }
    if ends_at(line, line.len(), &pair) {
        trim_end(line, &pair)
    } else if ends_at(line, line.len(), &feed) {
        trim_end(line, &feed)
    } else if ends_at(line, line.len(), &carriage) {
        trim_end(line, &carriage)
    } else {
        line.len()
    }
}

/// The place of the first comma among the first `end` characters of the
/// text, at or after `from`: `end` where there is none.
fn find_comma(text: &Vec<char>, from: usize, end: usize) -> (at: usize)
    requires
        end <= text@.len(),
    ensures
        at == comma_from(text@.subrange(0, end as int), from as int),
        at <= end,
        from <= end ==> from <= at,
{
    let ghost kept = text@.subrange(0, end as int);
    if from >= end {
        return end;
    }
    let mut at = from;
    while at < end && text[at] != ','
        invariant
            from <= at <= end,
            end <= text@.len(),
            kept == text@.subrange(0, end as int),
            comma_from(kept, at as int) == comma_from(kept, from as int),
        decreases end - at,
    {
        assert(kept[at as int] == text@[at as int]);
        at = at + 1;
    }
    proof {
        if at < end {
            assert(kept[at as int] == text@[at as int]);
        }
    }
    at
}

/// The number that the characters from `from` up to `to` stand for: see
/// `parsed_number`.
pub fn get_number(text: &Vec<char>, from: usize, to: usize) -> (number: Option<u64>)
    requires
        from <= to <= text@.len(),
    ensures
        number == parsed_number(text@.subrange(from as int, to as int)),
{
    let ghost field = text@.subrange(from as int, to as int);
    let start = if from < to && text[from] == '+' {
        from + 1
    } else {
        from
    };
    let ghost digits = text@.subrange(start as int, to as int);
    proof {
        if from < to {
            assert(field[0] == text@[from as int]);
        }
        if start == from {
            assert(digits =~= field);
        } else {
            assert(digits =~= field.subrange(1, field.len() as int));
        }
        assert(digits == digits_of(field));
    }
    if start == to {
        return None;
    }
    let mut value: u64 = 0;
    let mut at = start;
    assert(digits.subrange(0, 0) =~= Seq::<char>::empty());
    while at < to
        invariant
            from <= start <= at <= to,
            to <= text@.len(),
            digits == text@.subrange(start as int, to as int),
            digits == digits_of(text@.subrange(from as int, to as int)),
            forall|i: int| 0 <= i < at - start ==> is_digit(#[trigger] digits[i]),
            value == digits_value(digits.subrange(0, at - start)),
        decreases to - at,
    {
        let c = text[at];
        assert(digits[at - start] == c);
        if c < '0' || c > '9' {
            assert(!is_digit(digits[at - start]));
            assert(!all_digits(digits));
            return None;
        }
        let digit = (c as u32 - '0' as u32) as u64;
        proof {
            assert(digits.subrange(0, at - start + 1).drop_last() =~= digits.subrange(
                0,
                at - start,
            ));
            assert(digits.subrange(0, at - start + 1).last() == c);
            lemma_digits_value_prefix(digits, at - start + 1);
        }
        if value > (u64::MAX - digit) / 10 {
            assert(digits_value(digits) > u64::MAX);
            return None;
        }
        value = value * 10 + digit;
        at = at + 1;
    }
    assert(digits.subrange(0, at - start) =~= digits);
    assert(all_digits(digits));
    Some(value)
}

/// The way of paying that the first `end` characters of the text name: see
/// `parsed_consumption_type`.
pub fn get_consumption_type(text: &Vec<char>, end: usize) -> (consumption_type: Option<
    ConsumptionType,
>)
    requires
        end <= text@.len(),
    ensures
        consumption_type == parsed_consumption_type(text@.subrange(0, end as int)),
{
    let ghost field = text@.subrange(0, end as int);
    if end == 6 && text[0] == 'P' && text[1] == 'O' && text[2] == 'I' && text[3] == 'N' && text[4]
        == 'T' && text[5] == 'S' {
        assert(field =~= seq!['P', 'O', 'I', 'N', 'T', 'S']);
        return Some(ConsumptionType::Points);
    }
    if end == 4 && text[0] == 'C' && text[1] == 'A' && text[2] == 'S' && text[3] == 'H' {
        assert(field =~= seq!['C', 'A', 'S', 'H']);
        return Some(ConsumptionType::Cash);
    }
    proof {
        let points = seq!['P', 'O', 'I', 'N', 'T', 'S'];
        let cash = seq!['C', 'A', 'S', 'H'];
        if field == points {
            assert(field.len() == 6);
            assert(field[0] == points[0] && field[1] == points[1] && field[2] == points[2]
                && field[3] == points[3] && field[4] == points[4] && field[5] == points[5]);
        }
        if field == cash {
            assert(field.len() == 4);
            assert(field[0] == cash[0] && field[1] == cash[1] && field[2] == cash[2] && field[3]
                == cash[3]);
        }
    }
    None
}

impl Order {
    /// Reads an order from a line of the order file: see `parsed_order`.
    pub fn from_line(line: &str) -> (order: Result<Order, CoffeeMakerError>)
        ensures
            order == parsed_order(line@),
    {
        let chars = chars_of(line);
        let end = remove_ending(&chars);
        let ghost text = chars@.subrange(0, end as int);
        let first = find_comma(&chars, 0, end);
        if first >= end {
            proof {
                assert(comma_from(text, first + 1) == text.len());
            }
            return Err(CoffeeMakerError::FileReaderFormatError);
        }
        let second = find_comma(&chars, first + 1, end);
        if second >= end {
            return Err(CoffeeMakerError::FileReaderFormatError);
        }
        proof {
            assert(text.subrange(0, first as int) =~= chars@.subrange(0, first as int));
            assert(text.subrange(first + 1, second as int) =~= chars@.subrange(
                first + 1,
                second as int,
            ));
            assert(text.subrange(second + 1, text.len() as int) =~= chars@.subrange(
                second + 1,
                end as int,
            ));
        }
        let consumption_type = get_consumption_type(&chars, first);
        let consumption = get_number(&chars, first + 1, second);
        let account_id = get_number(&chars, second + 1, end);
        match (consumption_type, consumption, account_id) {
            (Some(consumption_type), Some(consumption), Some(account_id)) => Ok(
                Order { consumption_type, account_id, consumption },
            ),
            _ => Err(CoffeeMakerError::FileReaderFormatError),
        }
    }
}

} // verus!
