//! Light ids as decimal text: reading a directory key, writing a path segment.

use crate::types::IdParseFailure;
use vstd::prelude::*;
use vstd::string::StrSliceExecFns;
use vstd::string::StringExecFns;

verus! {

pub open spec fn is_digit(c: char) -> bool {
    '0' <= c <= '9'
}

/// The number that a digit stands for; 0 for any other character.
pub open spec fn digit_value(c: char) -> nat {
    if is_digit(c) {
        (c as nat - '0' as nat) as nat
    } else {
        0
    }
}

/// The number that a run of decimal digits denotes.
pub open spec fn digits_value(s: Seq<char>) -> nat
    decreases s.len(),
{
    if s.len() == 0 {
        0
    } else {
        digits_value(s.drop_last()) * 10 + digit_value(s.last())
    }
}

pub open spec fn all_digits(s: Seq<char>) -> bool {
    forall|i: int| 0 <= i < s.len() ==> is_digit(#[trigger] s[i])
}

/// How many digits stand at the front of a text.
pub open spec fn digit_run(s: Seq<char>) -> nat
    decreases s.len(),
{
    if s.len() == 0 || !is_digit(s[0]) {
        0
    } else {
        1 + digit_run(s.drop_first())
    }
}

/// A key without the `+` that may lead it.
pub open spec fn unsigned_part(key: Seq<char>) -> Seq<char> {
    if key.len() > 0 && key[0] == '+' {
        key.subrange(1, key.len() as int)
    } else {
        key
    }
}

/// Whether a key is a light id: decimal digits, at least one, after an optional
/// `+`, denoting a number of at most 32 bits.
pub open spec fn is_light_id(key: Seq<char>) -> bool {
    let d = unsigned_part(key);
    d.len() > 0 && all_digits(d) && digits_value(d) <= u32::MAX
}

/// The id that a directory key denotes, or why it denotes none.
///
/// A key is read from the left: digits that run past `u32::MAX` are reported
/// as an overflow even where a character that is no digit follows them.
pub open spec fn light_id_of(key: Seq<char>) -> Result<u32, IdParseFailure> {
    let d = unsigned_part(key);
    let n = digit_run(d) as int;
    if key.len() == 0 {
        Err(IdParseFailure::Empty)
    } else if d.len() == 0 {
        Err(IdParseFailure::InvalidDigit)
    } else if digits_value(d.take(n)) > u32::MAX {
        Err(IdParseFailure::PosOverflow)
    } else if n < d.len() {
        Err(IdParseFailure::InvalidDigit)
    } else {
        Ok(digits_value(d) as u32)
    }
}

/// A text whose first `n` characters are digits, and whose next one is not,
/// has a digit run of `n`.
pub proof fn lemma_digit_run(s: Seq<char>, n: int)
    requires
        0 <= n <= s.len(),
        all_digits(s.take(n)),
        n == s.len() || !is_digit(s[n]),
    ensures
        digit_run(s) == n,
    decreases n,
{
    if n == 0 {
    } else {
        assert(s.take(n)[0] == s[0]);
        let rest = s.drop_first();
        assert forall|i: int| 0 <= i < rest.take(n - 1).len() implies is_digit(
            #[trigger] rest.take(n - 1)[i],
        ) by {
            assert(rest.take(n - 1)[i] == s.take(n)[i + 1]);
        }
        lemma_digit_run(rest, n - 1);
    }
}

/// A longer prefix denotes no smaller number.
pub proof fn lemma_prefix_value_grows(s: Seq<char>, j: int, k: int)
    requires
        0 <= j <= k <= s.len(),
    ensures
        digits_value(s.take(j)) <= digits_value(s.take(k)),
    decreases k - j,
{
    if j < k {
        lemma_prefix_value_grows(s, j, k - 1);
        assert(s.take(k).drop_last() =~= s.take(k - 1));
    }
}

/// `light_id_of` accepts exactly the light ids, with the number they denote.
pub proof fn lemma_light_id_of(key: Seq<char>)
    ensures
        light_id_of(key) is Ok <==> is_light_id(key),
        is_light_id(key) ==> light_id_of(key) == Ok::<u32, IdParseFailure>(
            digits_value(unsigned_part(key)) as u32,
        ),
{
    let d = unsigned_part(key);
    let n = digit_run(d) as int;
    lemma_digit_run_bounds(d);
    assert(d.take(d.len() as int) =~= d);
    if d.len() > 0 && all_digits(d) {
        assert forall|i: int| 0 <= i < d.take(d.len() as int).len() implies is_digit(
            #[trigger] d.take(d.len() as int)[i],
        ) by {}
        lemma_digit_run(d, d.len() as int);
    }
    if n == d.len() {
        assert forall|i: int| 0 <= i < d.len() implies is_digit(#[trigger] d[i]) by {
            assert(d.take(n)[i] == d[i]);
        }
    }
}

/// The digit run is a prefix of digits that ends at the text's end or before
/// a character that is no digit.
pub proof fn lemma_digit_run_bounds(s: Seq<char>)
    ensures
        digit_run(s) <= s.len(),
        all_digits(s.take(digit_run(s) as int)),
        digit_run(s) == s.len() || !is_digit(s[digit_run(s) as int]),
    decreases s.len(),
{
    if s.len() == 0 || !is_digit(s[0]) {
    } else {
        let rest = s.drop_first();
        lemma_digit_run_bounds(rest);
        let n = digit_run(s) as int;
        assert forall|i: int| 0 <= i < s.take(n).len() implies is_digit(#[trigger] s.take(n)[i]) by {
            if i > 0 {
                assert(s.take(n)[i] == rest.take(n - 1)[i - 1]);
            }
        }
    }
}

/// Reads a directory key as a light id.
pub fn parse_light_id(key: &str) -> (r: Result<u32, IdParseFailure>)
    ensures
        r == light_id_of(key@),
{
    let len: usize = key.unicode_len();
    if len == 0 {
        return Err(IdParseFailure::Empty);
    }
    let start: usize = if key.get_char(0) == '+' {
        1
    } else {
        0
    };
    if start == len {
        return Err(IdParseFailure::InvalidDigit);
    }
    let ghost d = unsigned_part(key@);
    let mut value: u32 = 0;
    let mut i: usize = start;
    while i < len
        invariant
            start <= i <= len,
            len == key@.len(),
            start <= 1,
            d == unsigned_part(key@),
            d.len() == len - start,
            forall|j: int| 0 <= j < d.len() ==> d[j] == key@[j + start],
            all_digits(d.take(i - start)),
            value == digits_value(d.take(i - start)),
        decreases len - i,
    {
        let c: char = key.get_char(i);
        let ghost at = (i - start) as int;
        proof {
            assert(d.take(at + 1).drop_last() =~= d.take(at));
            assert(d.take(at + 1).last() == c);
        }
        if !('0' <= c && c <= '9') {
            proof {
                lemma_digit_run(d, at);
            }
            return Err(IdParseFailure::InvalidDigit);
        }
        let digit: u64 = (c as u64) - ('0' as u64);
        let next: u64 = (value as u64) * 10 + digit;
        proof {
            assert forall|j: int| 0 <= j < d.take(at + 1).len() implies is_digit(
                #[trigger] d.take(at + 1)[j],
            ) by {
                if j < at {
                    assert(d.take(at + 1)[j] == d.take(at)[j]);
                }
            }
        }
        if next > 0xffff_ffff {
            proof {
                lemma_digit_run_bounds(d);
                let n = digit_run(d) as int;
                if n < at + 1 {
                    assert(d.take(at + 1)[n] == d[n]);
                }
                lemma_prefix_value_grows(d, at + 1, n);
            }
            return Err(IdParseFailure::PosOverflow);
        }
        value = next as u32;
        i = i + 1;
    }
    proof {
        assert(d.take(d.len() as int) =~= d);
        lemma_digit_run(d, d.len() as int);
    }
    Ok(value)
}

/// The character that writes a digit.
pub open spec fn digit_char(d: nat) -> char {
    if d == 0 {
        '0'
    } else if d == 1 {
        '1'
    } else if d == 2 {
        '2'
    } else if d == 3 {
        '3'
    } else if d == 4 {
        '4'
    } else if d == 5 {
        '5'
    } else if d == 6 {
        '6'
    } else if d == 7 {
        '7'
    } else if d == 8 {
        '8'
    } else {
        '9'
    }
}

/// A number in decimal digits, without leading zeros.
pub open spec fn decimal(n: nat) -> Seq<char>
    decreases n,
{
    if n < 10 {
        seq![digit_char(n)]
    } else {
        decimal(n / 10).push(digit_char(n % 10))
    }
}

/// The decimal digits of a number are digits, and denote that number.
pub proof fn lemma_decimal_value(n: nat)
    ensures
        decimal(n).len() > 0,
        all_digits(decimal(n)),
        digits_value(decimal(n)) == n,
    decreases n,
{
    if n < 10 {
        assert(decimal(n).drop_last() =~= Seq::<char>::empty());
        assert(digits_value(decimal(n).drop_last()) == 0);
    } else {
        lemma_decimal_value(n / 10);
        assert(decimal(n).drop_last() =~= decimal(n / 10));
    }
}

/// An id written in decimal reads back as the same id.
pub proof fn lemma_decimal_reads_back(id: u32)
    ensures
        light_id_of(decimal(id as nat)) == Ok::<u32, IdParseFailure>(id),
{
    let text = decimal(id as nat);
    lemma_decimal_value(id as nat);
    assert(is_digit(text[0]));
    assert(unsigned_part(text) == text);
    lemma_light_id_of(text);
}

fn digit_text(d: u32) -> (r: &'static str)
    requires
        d < 10,
    ensures
        r@ == seq![digit_char(d as nat)],
{
    proof {
        reveal_strlit("0");
        reveal_strlit("1");
        reveal_strlit("2");
        reveal_strlit("3");
        reveal_strlit("4");
        reveal_strlit("5");
        reveal_strlit("6");
        reveal_strlit("7");
        reveal_strlit("8");
        reveal_strlit("9");
    }
    let r = match d {
        0 => "0",
        1 => "1",
        2 => "2",
        3 => "3",
        4 => "4",
        5 => "5",
        6 => "6",
        7 => "7",
        8 => "8",
        _ => "9",
    };
    assert(r@ =~= seq![digit_char(d as nat)]);
    r
}

/// Writes a number in decimal at the end of a text.
pub fn append_decimal(out: &mut String, n: u32)
    ensures
        final(out)@ == old(out)@ + decimal(n as nat),
    decreases n,
{
    if n >= 10 {
        append_decimal(out, n / 10);
    }
    out.append(digit_text(n % 10));
    proof {
        if n >= 10 {
            assert(final(out)@ =~= old(out)@ + decimal(n as nat));
        } else {
            assert(final(out)@ =~= old(out)@ + decimal(n as nat));
        }
    }
}

} // verus!
