//! Decimal notation for integers: how a number is written on the wire and
//! how a decimal field is read back.

use crate::text::chars_of;
use vstd::prelude::*;
use vstd::string::StringExecFns;

verus! {

/// The character that writes the digit `d`.
pub open spec fn digit_char(d: nat) -> char
    recommends
        d < 10,
{
    (d + 48) as char
}

/// `true` for the ten ASCII digits.
pub open spec fn is_digit(c: char) -> bool {
    48 <= c as int <= 57
}

/// The number that the digit `c` stands for.
pub open spec fn digit_of(c: char) -> nat
    recommends
        is_digit(c),
{
    (c as int - 48) as nat
}

/// `true` when every character of `s` is an ASCII digit.
pub open spec fn all_digits(s: Seq<char>) -> bool {
    forall|i: int| 0 <= i < s.len() ==> is_digit(#[trigger] s[i])
}

/// The number that a run of digits writes, most significant digit first.
pub open spec fn digits_value(s: Seq<char>) -> nat
    decreases s.len(),
{
    if s.len() == 0 {
        0
    } else {
        digits_value(s.drop_last()) * 10 + digit_of(s.last())
    }
}

/// `n` in decimal, without leading zeros.
pub open spec fn decimal_text(n: nat) -> Seq<char>
    decreases n,
{
    if n < 10 {
        seq![digit_char(n)]
    } else {
        decimal_text(n / 10).push(digit_char(n % 10))
    }
}

/// `v` in decimal, with a leading `-` where it is negative.
pub open spec fn signed_decimal_text(v: int) -> Seq<char> {
    if v < 0 {
        seq!['-'] + decimal_text((-v) as nat)
    } else {
        decimal_text(v as nat)
    }
}

/// What an unsigned integer field holds when it is read the way `str::parse`
/// reads it: an optional `+`, then at least one digit and nothing else.
/// `None` where the field is not of that shape or the number is above `max`.
pub open spec fn parse_decimal(s: Seq<char>, max: int) -> Option<int> {
    let digits = if s.len() > 0 && s[0] == '+' {
        s.skip(1)
    } else {
        s
    };
    if digits.len() > 0 && all_digits(digits) && digits_value(digits) <= max {
        Some(digits_value(digits) as int)
    } else {
        None
    }
}

/// Ten to the power `n`.
pub open spec fn pow10(n: nat) -> nat
    decreases n,
{
    if n == 0 {
        1
    } else {
        10 * pow10((n - 1) as nat)
    }
}

/// The decimal text of a number is made of digits and reads back as that number.
pub proof fn lemma_decimal_text_reads_back(n: nat)
    ensures
        decimal_text(n).len() >= 1,
        all_digits(decimal_text(n)),
        digits_value(decimal_text(n)) == n,
        forall|max: int| n <= max ==> parse_decimal(decimal_text(n), max) == Some(n as int),
    decreases n,
{
    if n < 10 {
        let s = seq![digit_char(n)];
        assert(s.drop_last() =~= Seq::<char>::empty());
        assert(digits_value(s.drop_last()) == 0);
    } else {
        lemma_decimal_text_reads_back(n / 10);
        let s = decimal_text(n);
        assert(s.drop_last() =~= decimal_text(n / 10));
        assert(s.last() == digit_char(n % 10));
    }
    assert(is_digit(decimal_text(n)[0]));
}

/// A run of `n` digits writes a number below ten to the power `n`.
pub proof fn lemma_digits_value_bound(s: Seq<char>)
    requires
        all_digits(s),
    ensures
        digits_value(s) < pow10(s.len()),
    decreases s.len(),
{
    if s.len() > 0 {
        assert(all_digits(s.drop_last())) by {
            assert forall|i: int| 0 <= i < s.drop_last().len() implies is_digit(
                #[trigger] s.drop_last()[i],
            ) by {
                assert(s.drop_last()[i] == s[i]);
            }
        }
        lemma_digits_value_bound(s.drop_last());
        assert(is_digit(s[s.len() - 1]));
    }
}

/// Two runs of digits of one length that write the same number are the same run.
pub proof fn lemma_digits_value_injective(a: Seq<char>, b: Seq<char>)
    requires
        a.len() == b.len(),
        all_digits(a),
        all_digits(b),
        digits_value(a) == digits_value(b),
    ensures
        a == b,
    decreases a.len(),
{
    if a.len() > 0 {
        let front_a = a.drop_last();
        let front_b = b.drop_last();
        assert(is_digit(a[a.len() - 1]) && is_digit(b[b.len() - 1]));
        assert(all_digits(front_a)) by {
            assert forall|i: int| 0 <= i < front_a.len() implies is_digit(
                #[trigger] front_a[i],
            ) by {
                assert(front_a[i] == a[i]);
            }
        }
        assert(all_digits(front_b)) by {
            assert forall|i: int| 0 <= i < front_b.len() implies is_digit(
                #[trigger] front_b[i],
            ) by {
                assert(front_b[i] == b[i]);
            }
        }
        assert(digits_value(front_a) == digits_value(front_b) && digit_of(a.last()) == digit_of(
            b.last(),
        )) by (nonlinear_arith)
            requires
                digits_value(front_a) * 10 + digit_of(a.last()) == digits_value(front_b) * 10
                    + digit_of(b.last()),
                digit_of(a.last()) < 10,
                digit_of(b.last()) < 10,
        ;
        lemma_digits_value_injective(front_a, front_b);
        assert(a =~= front_a.push(a.last()));
        assert(b =~= front_b.push(b.last()));
    } else {
        assert(a =~= b);
    }
}

/// Appends `n` in decimal to `out`.
pub fn append_decimal(out: &mut String, n: u64)
    ensures
        final(out)@ == old(out)@ + decimal_text(n as nat),
    decreases n,
{
    if n >= 10 {
        append_decimal(out, n / 10);
    }
    let digit: u8 = (n % 10) as u8;
    out.push((digit + 48) as char);
    assert(out@ =~= old(out)@ + decimal_text(n as nat));
}

/// `n` in decimal, as `to_string` writes an unsigned integer.
pub fn unsigned_to_string(n: u64) -> (text: String)
    ensures
        text@ == decimal_text(n as nat),
{
    let mut text = String::new();
    append_decimal(&mut text, n);
    text
}

/// `v` in decimal, as `to_string` writes a signed integer.
pub fn signed_to_string(v: i64) -> (text: String)
    ensures
        text@ == signed_decimal_text(v as int),
{
    if v < 0 {
        let magnitude: u64 = (-(v + 1)) as u64 + 1;
        let mut text = String::from_str("-");
        proof {
            reveal_strlit("-");
        }
        append_decimal(&mut text, magnitude);
        text
    } else {
        unsigned_to_string(v as u64)
    }
}

/// The message `label` followed by the number that was refused.
pub fn refusal(label: &str, refused: u8) -> (message: String)
    ensures
        message@ == label@ + decimal_text(refused as nat),
{
    let mut message = String::from_str(label);
    append_decimal(&mut message, refused as u64);
    message
}

/// The largest limit under which [`read_digits`] can count without overflow.
pub const READ_LIMIT: u64 = 1_000_000_000_000_000_000;

/// Reads the characters of `chars` from position `from` up to `to` as one
/// run of digits. `Some` with its value where the run is not empty, all of
/// it is digits and the value is at most `limit`.
pub fn read_digits(chars: &Vec<char>, from: usize, to: usize, limit: u64) -> (value: Option<u64>)
    requires
        from <= to <= chars.len(),
        limit <= READ_LIMIT,
    ensures
        value == (if from < to && all_digits(chars@.subrange(from as int, to as int))
            && digits_value(chars@.subrange(from as int, to as int)) <= limit {
            Some(digits_value(chars@.subrange(from as int, to as int)) as u64)
        } else {
            None
        }),
{
    let ghost digits = chars@.subrange(from as int, to as int);
    if from == to {
        return None;
    }
    let mut total: u64 = 0;
    let mut too_large = false;
    let mut i: usize = from;
    assert(digits.take(0) =~= Seq::<char>::empty());
    while i < to
        invariant
            from <= i <= to <= chars.len(),
            limit <= READ_LIMIT,
            digits == chars@.subrange(from as int, to as int),
            all_digits(digits.take(i - from)),
            too_large ==> digits_value(digits.take(i - from)) > limit,
            !too_large ==> digits_value(digits.take(i - from)) == total && total <= limit,
        decreases to - i,
    {
        let c = chars[i];
        let ghost seen = digits.take(i - from + 1);
        assert(seen.drop_last() =~= digits.take(i - from));
        if !(c >= '0' && c <= '9') {
            assert(!is_digit(digits[i - from]));
            return None;
        }
        let d: u64 = (c as u32 - '0' as u32) as u64;
        assert(d == digit_of(c));
        if !too_large {
            if total * 10 + d > limit {
                too_large = true;
            } else {
                total = total * 10 + d;
            }
        }
        assert(all_digits(seen)) by {
            assert forall|k: int| 0 <= k < seen.len() implies is_digit(#[trigger] seen[k]) by {
                if k < seen.len() - 1 {
                    assert(seen[k] == digits.take(i - from)[k]);
                }
            }
        }
        i += 1;
    }
    assert(digits.take(i - from) =~= digits);
    if too_large {
        None
    } else {
        Some(total)
    }
}

/// Reads an unsigned decimal field of at most `max`.
pub fn parse_unsigned(s: &str, max: u32) -> (value: Option<u32>)
    ensures
        value == (match parse_decimal(s@, max as int) {
            Some(v) => Some(v as u32),
            None => None,
        }),
{
    let chars = chars_of(s);
    let from: usize = if chars.len() > 0 && chars[0] == '+' {
        1
    } else {
        0
    };
    assert(chars@.skip(0) =~= chars@);
    assert(chars@.subrange(from as int, chars.len() as int) =~= chars@.skip(from as int));
    match read_digits(&chars, from, chars.len(), max as u64) {
        Some(v) => Some(v as u32),
        None => None,
    }
}

} // verus!
