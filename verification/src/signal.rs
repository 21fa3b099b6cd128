//! Reading the signal strength out of the modem's quality report.
//!
//! The modem answers `AT+CESQ` with one line: `+CESQ:` and six whole numbers
//! separated by commas, closed by a carriage return and a line feed. This
//! module reads that line; asking the modem is left to its owner.

use vstd::prelude::*;

verus! {

/// The value with which the modem says that a quantity is not known.
pub const NOT_KNOWN: i32 = 255;

/// What is taken off a reported reference power to get decibel-milliwatts.
pub const RSRP_OFFSET: i32 = 140;

/// A number in the report has at most this many characters, sign included.
pub const MAX_INT_DIGITS: usize = 11;

/// The six numbers of a quality report, in the order of the line.
#[derive(Debug, Clone, Copy, PartialEq, Eq, Structural)]
pub struct SignalQuality {
    pub rxlev: i32,
    pub ber: i32,
    pub rscp: i32,
    pub ecno: i32,
    pub rsrq: i32,
    pub rsrp: i32,
}

/// The line opens with `+CESQ:`.
pub open spec fn report_prefix() -> Seq<u8> {
    seq!['+' as u8, 'C' as u8, 'E' as u8, 'S' as u8, 'Q' as u8, ':' as u8]
}

/// The line closes with a carriage return and a line feed.
pub open spec fn report_end() -> Seq<u8> {
    seq![13u8, 10u8]
}

pub open spec fn is_digit(byte: u8) -> bool {
    '0' as u8 <= byte <= '9' as u8
}

/// The bytes of which the text of a number is made: digits and signs.
pub open spec fn is_number_byte(byte: u8) -> bool {
    is_digit(byte) || byte == '-' as u8 || byte == '+' as u8
}

/// Whether `part` stands in `text` at `at`.
pub open spec fn stands_at(text: Seq<u8>, at: int, part: Seq<u8>) -> bool {
    &&& 0 <= at
    &&& at + part.len() <= text.len()
    &&& text.subrange(at, at + part.len()) == part
}

/// The first place at or behind `at` where no space stands.
pub open spec fn spaces_end(text: Seq<u8>, at: int) -> int
    decreases text.len() - at,
{
    if 0 <= at < text.len() && text[at] == ' ' as u8 {
        spaces_end(text, at + 1)
    } else {
        at
    }
}

/// The first place at or behind `at` where neither a digit nor a sign stands.
pub open spec fn number_end(text: Seq<u8>, at: int) -> int
    decreases text.len() - at,
{
    if 0 <= at < text.len() && is_number_byte(text[at]) {
        number_end(text, at + 1)
    } else {
        at
    }
}

pub open spec fn all_digits(digits: Seq<u8>) -> bool {
    forall|i: int| 0 <= i < digits.len() ==> is_digit(#[trigger] digits[i])
}

/// The number that a row of digits writes; the empty row writes zero.
pub open spec fn digits_value(digits: Seq<u8>) -> int
    decreases digits.len(),
{
    if digits.len() == 0 {
        0
    } else {
        digits_value(digits.drop_last()) * 10 + (digits.last() - '0' as u8)
    }
}

/// The number that a row of digits and signs writes, if it writes one: a plus
/// sign in front is dropped; then at most eleven characters may be left and at
/// least one; a minus sign may lead them, and digits follow, whose value must
/// fit into thirty-two bits with its sign.
pub open spec fn number_value(text: Seq<u8>) -> Option<int> {
    let unsigned = if text.len() > 0 && text[0] == '+' as u8 {
        text.skip(1)
    } else {
        text
    };
    if unsigned.len() == 0 || unsigned.len() > MAX_INT_DIGITS {
        None
    } else {
        let negative = unsigned[0] == '-' as u8;
        let digits = if negative {
            unsigned.skip(1)
        } else {
            unsigned
        };
        let value = if negative {
            -digits_value(digits)
        } else {
            digits_value(digits)
        };
        if all_digits(digits) && i32::MIN <= value <= i32::MAX {
            Some(value)
        } else {
            None
        }
    }
}

/// The number that stands in `text` at `at`, with the place where reading goes
/// on: behind the number, behind one comma if one follows, and behind the
/// spaces after that.
pub open spec fn parameter_at(text: Seq<u8>, at: int) -> Option<(int, int)> {
    let end = number_end(text, at);
    match number_value(text.subrange(at, end)) {
        None => None,
        Some(value) => {
            let behind = if end < text.len() && text[end] == ',' as u8 {
                end + 1
            } else {
                end
            };
            Some((value, spaces_end(text, behind)))
        },
    }
}

/// The `count` numbers that stand in `text` from `at` on, with the place where
/// reading goes on.
pub open spec fn parameters_at(text: Seq<u8>, at: int, count: nat) -> Option<(Seq<int>, int)>
    decreases count,
{
    if count == 0 {
        Some((Seq::empty(), at))
    } else {
        match parameters_at(text, at, (count - 1) as nat) {
            None => None,
            Some((values, next)) => match parameter_at(text, next) {
                None => None,
                Some((value, after)) => Some((values.push(value), after)),
            },
        }
    }
}

/// The six numbers of a quality report, if `line` is one: `+CESQ:`, spaces,
/// six numbers, and the line end. What follows the line end is not looked at.
pub open spec fn report_values(line: Seq<u8>) -> Option<Seq<int>> {
    if !stands_at(line, 0, report_prefix()) {
        None
    } else {
        match parameters_at(line, spaces_end(line, 6), 6) {
            None => None,
            Some((values, next)) => if stands_at(line, next, report_end()) {
                Some(values)
            } else {
                None
            },
        }
    }
}

/// The signal strength that a reported reference power stands for: the
/// report's own value where the power is not known, and else the power less
/// 140, in decibel-milliwatts.
pub open spec fn strength_of(rsrp: int) -> int {
    if rsrp == NOT_KNOWN {
        rsrp
    } else {
        rsrp - RSRP_OFFSET
    }
}

/// The six numbers of a report in the order of the line.
pub open spec fn quality_values(quality: SignalQuality) -> Seq<int> {
    seq![
        quality.rxlev as int,
        quality.ber as int,
        quality.rscp as int,
        quality.ecno as int,
        quality.rsrq as int,
        quality.rsrp as int,
    ]
}

spec fn pow10(exponent: nat) -> nat
    decreases exponent,
{
    if exponent == 0 {
        1
    } else {
        10 * pow10((exponent - 1) as nat)
    }
}

proof fn lemma_pow10_grows(smaller: nat, larger: nat)
    requires
        smaller <= larger,
    ensures
        pow10(smaller) <= pow10(larger),
    decreases larger,
{
    if smaller < larger {
        lemma_pow10_grows(smaller, (larger - 1) as nat);
    }
}

fn skip_spaces(text: &[u8], at: usize) -> (end: usize)
    requires
        at <= text.len(),
    ensures
        end == spaces_end(text@, at as int),
        at <= end <= text.len(),
{
    let mut i = at;
    while i < text.len() && text[i] == ' ' as u8
        invariant
            at <= i <= text.len(),
            spaces_end(text@, at as int) == spaces_end(text@, i as int),
        decreases text.len() - i,
    {
        i += 1;
    }
    i
}

fn skip_number(text: &[u8], at: usize) -> (end: usize)
    requires
        at <= text.len(),
    ensures
        end == number_end(text@, at as int),
        at <= end <= text.len(),
{
    let mut i = at;
    while i < text.len() && (('0' as u8 <= text[i] && text[i] <= '9' as u8) || text[i] == '-' as u8
        || text[i] == '+' as u8)
        invariant
            at <= i <= text.len(),
            number_end(text@, at as int) == number_end(text@, i as int),
        decreases text.len() - i,
    {
        i += 1;
    }
    i
}

fn stands_here(text: &[u8], at: usize, part: &[u8]) -> (found: bool)
    requires
        at <= text.len(),
    ensures
        found == stands_at(text@, at as int, part@),
{
    if part.len() > text.len() - at {
        return false;
    }
    let ghost window = text@.subrange(at as int, at + part.len());
    let mut i: usize = 0;
    while i < part.len()
        invariant
            i <= part.len(),
            at + part.len() <= text.len(),
            window == text@.subrange(at as int, at + part.len()),
            forall|j: int| 0 <= j < i ==> window[j] == part@[j],
        decreases part.len() - i,
    {
        if text[at + i] != part[i] {
            assert(window[i as int] != part@[i as int]);
            return false;
        }
        i += 1;
    }
    assert(window =~= part@);
    true
}

/// Reads the number that the bytes of `text` from `from` up to `to` write.
fn read_number(text: &[u8], from: usize, to: usize) -> (value: Option<i32>)
    requires
        from <= to <= text.len(),
    ensures
        value matches Some(number) ==> number_value(text@.subrange(from as int, to as int))
            == Some(number as int),
        value is None ==> number_value(text@.subrange(from as int, to as int)) is None,
{
    let ghost whole = text@.subrange(from as int, to as int);
    let mut start = from;
    if start < to && text[start] == '+' as u8 {
        start += 1;
    }
    let ghost unsigned = text@.subrange(start as int, to as int);
    assert(unsigned =~= if whole.len() > 0 && whole[0] == '+' as u8 {
        whole.skip(1)
    } else {
        whole
    });
    if start == to || to - start > MAX_INT_DIGITS {
        return None;
    }
    let negative = text[start] == '-' as u8;
    if negative {
        start += 1;
    }
    let ghost digits = text@.subrange(start as int, to as int);
    assert(digits =~= if negative {
        unsigned.skip(1)
    } else {
        unsigned
    });
    let mut value: i64 = 0;
    let mut i = start;
    while i < to
        invariant
            start <= i <= to <= text.len(),
            to - start <= MAX_INT_DIGITS,
            whole == text@.subrange(from as int, to as int),
            digits == text@.subrange(start as int, to as int),
            !all_digits(digits) ==> number_value(whole) is None,
            all_digits(digits.subrange(0, i - start)),
            value == digits_value(digits.subrange(0, i - start)),
            0 <= value < pow10((i - start) as nat),
        decreases to - i,
    {
        let byte = text[i];
        if byte < '0' as u8 || byte > '9' as u8 {
            assert(!is_digit(digits[i - start]));
            return None;
        }
        proof {
            lemma_pow10_grows((i - start + 1) as nat, 11);
            reveal_with_fuel(pow10, 12);
            assert(digits.subrange(0, i + 1 - start).drop_last() =~= digits.subrange(
                0,
                i - start,
            ));
        }
        value = value * 10 + (byte - '0' as u8) as i64;
        i += 1;
    }
    assert(digits.subrange(0, i - start) =~= digits);
    let signed = if negative {
        -value
    } else {
        value
    };
    if signed < i32::MIN as i64 || signed > i32::MAX as i64 {
        None
    } else {
        Some(signed as i32)
    }
}

/// Reads the number that stands in `text` at `at` and finds where reading goes
/// on.
fn read_parameter(text: &[u8], at: usize) -> (parameter: Option<(i32, usize)>)
    requires
        at <= text.len(),
    ensures
        parameter matches Some((value, next)) ==> parameter_at(text@, at as int) == Some(
            (value as int, next as int),
        ) && next <= text.len(),
        parameter is None ==> parameter_at(text@, at as int) is None,
{
    let end = skip_number(text, at);
    match read_number(text, at, end) {
        None => None,
        Some(value) => {
            let behind = if end < text.len() && text[end] == ',' as u8 {
                end + 1
            } else {
                end
            };
            Some((value, skip_spaces(text, behind)))
        },
    }
}

/// Reads a quality report.
///
/// The line is `+CESQ:`, any number of spaces, six numbers, and a carriage
/// return with a line feed. A number is a row of digits and signs: a plus sign
/// in front is dropped, a minus sign may follow, the rest are digits. Behind a
/// number one comma is passed over if it is there, and the spaces after it.
/// A number that does not fit into thirty-two bits is no number, and a line
/// that is not of this form is no report.
pub fn parse_cesq(line: &[u8]) -> (report: Option<SignalQuality>)
    ensures
        report matches Some(quality) ==> report_values(line@) == Some(quality_values(quality)),
        report is None ==> report_values(line@) is None,
{
    proof {
        reveal_with_fuel(parameters_at, 7);
    }
    let prefix: [u8; 6] = ['+' as u8, 'C' as u8, 'E' as u8, 'S' as u8, 'Q' as u8, ':' as u8];
    assert(prefix@ =~= report_prefix());
    if !stands_here(line, 0, prefix.as_slice()) {
        return None;
    }
    let at = skip_spaces(line, 6);
    let (rxlev, at) = match read_parameter(line, at) {
        Some(parameter) => parameter,
        None => {
            return None;
        },
    };
    let (ber, at) = match read_parameter(line, at) {
        Some(parameter) => parameter,
        None => {
            return None;
        },
    };
    let (rscp, at) = match read_parameter(line, at) {
        Some(parameter) => parameter,
        None => {
            return None;
        },
    };
    let (ecno, at) = match read_parameter(line, at) {
        Some(parameter) => parameter,
        None => {
            return None;
        },
    };
    let (rsrq, at) = match read_parameter(line, at) {
        Some(parameter) => parameter,
        None => {
            return None;
        },
    };
    let (rsrp, at) = match read_parameter(line, at) {
        Some(parameter) => parameter,
        None => {
            return None;
        },
    };
    let end: [u8; 2] = [13, 10];
    assert(end@ =~= report_end());
    if !stands_here(line, at, end.as_slice()) {
        return None;
    }
    let quality = SignalQuality { rxlev, ber, rscp, ecno, rsrq, rsrp };
    assert(quality_values(quality) =~= Seq::<int>::empty().push(rxlev as int).push(
        ber as int,
    ).push(rscp as int).push(ecno as int).push(rsrq as int).push(rsrp as int));
    Some(quality)
}

/// The signal strength that the modem's answer to `AT+CESQ` reports, in
/// decibel-milliwatts: the reported reference power less 140, or 255 where the
/// modem does not know the power. `None` where the answer is no quality report,
/// or where the strength is not a number of thirty-two bits.
pub fn get_signal_strength(response: &[u8]) -> (signal: Option<i32>)
    ensures
        match report_values(response@) {
            Some(values) => if i32::MIN <= strength_of(values[5]) {
                signal == Some(strength_of(values[5]) as i32)
            } else {
                signal is None
            },
            None => signal is None,
        },
{
    match parse_cesq(response) {
        None => None,
        Some(quality) => {
            if quality.rsrp == NOT_KNOWN {
                Some(quality.rsrp)
            } else {
                quality.rsrp.checked_sub(RSRP_OFFSET)
            }
        },
    }
}

} // verus!
