//! Decimal numbers as ASCII text.

use vstd::prelude::*;
use vstd::string::*;

verus! {

/// The code of the character `0`.
pub const ASCII_ZERO: u8 = 48;

/// The code of the character `9`.
pub const ASCII_NINE: u8 = 57;

/// The code of the character `+`.
pub const ASCII_PLUS: u8 = 43;

/// Whether `b` is the code of a decimal digit.
pub open spec fn is_digit(b: u8) -> bool {
    48 <= b <= 57
}

/// The number that the digit `b` stands for; zero for any other byte.
pub open spec fn digit_value(b: u8) -> nat {
    if is_digit(b) {
        (b - 48) as nat
    } else {
        0
    }
}

/// Whether every byte of `s` is a decimal digit.
pub open spec fn all_digits(s: Seq<u8>) -> bool {
    forall|i: int| 0 <= i < s.len() ==> is_digit(#[trigger] s[i])
}

/// The number written by the digits `s`, most significant first.
pub open spec fn decimal_value(s: Seq<u8>) -> nat
    decreases s.len(),
{
    if s.len() == 0 {
        0
    } else {
        decimal_value(s.drop_last()) * 10 + digit_value(s.last())
    }
}

/// The shortest decimal writing of `n`.
pub open spec fn decimal_digits(n: nat) -> Seq<u8>
    decreases n,
{
    if n < 10 {
        seq![(48 + n) as u8]
    } else {
        decimal_digits(n / 10).push((48 + n % 10) as u8)
    }
}

/// The same writing as characters.
pub open spec fn decimal_chars(n: nat) -> Seq<char>
    decreases n,
{
    if n < 10 {
        seq![((48 + n) as u8) as char]
    } else {
        decimal_chars(n / 10).push(((48 + n % 10) as u8) as char)
    }
}

/// What a run of bytes means as an unsigned number of at most `max`: it must
/// be one or more digits and nothing else.
pub open spec fn parse_decimal_spec(s: Seq<u8>, max: u64) -> Option<u64> {
    if s.len() > 0 && all_digits(s) && decimal_value(s) <= max {
        Some(decimal_value(s) as u64)
    } else {
        None
    }
}

/// The digits of an unsigned number that may carry one leading `+`.
pub open spec fn unsigned_body(s: Seq<u8>) -> Seq<u8> {
    if s.len() > 0 && s[0] == 43 {
        s.subrange(1, s.len() as int)
    } else {
        s
    }
}

/// What a text means as a 16-bit unsigned number: an optional `+`, then digits.
pub open spec fn parse_u16_spec(s: Seq<u8>) -> Option<u16> {
    match parse_decimal_spec(unsigned_body(s), 65535) {
        Some(v) => Some(v as u16),
        None => None,
    }
}

/// A prefix of a digit string never writes a larger number than the whole.
pub proof fn lemma_prefix_value(s: Seq<u8>, k: int)
    requires
        0 <= k <= s.len(),
    ensures
        decimal_value(s.subrange(0, k)) <= decimal_value(s),
    decreases s.len(),
{
    if k == s.len() {
        assert(s.subrange(0, k) =~= s);
    } else {
        assert(s.drop_last().subrange(0, k) =~= s.subrange(0, k));
        lemma_prefix_value(s.drop_last(), k);
    }
}

/// Writing a number and reading the digits back gives the number.
pub proof fn lemma_digits_round_trip(n: nat)
    ensures
        decimal_digits(n).len() > 0,
        all_digits(decimal_digits(n)),
        decimal_value(decimal_digits(n)) == n,
    decreases n,
{
    if n < 10 {
        let s = decimal_digits(n);
        assert(s.drop_last() =~= Seq::<u8>::empty());
        assert(decimal_value(s.drop_last()) == 0);
    } else {
        lemma_digits_round_trip(n / 10);
        let p = decimal_digits(n / 10);
        let s = decimal_digits(n);
        assert(s.drop_last() =~= p);
        assert(s.last() == (48 + n % 10) as u8);
    }
}

/// Ten to the power `k`.
pub open spec fn pow10(k: nat) -> nat
    decreases k,
{
    if k == 0 {
        1
    } else {
        10 * pow10((k - 1) as nat)
    }
}

/// A number below ten to the `k` is written with at most `k` digits.
pub proof fn lemma_digits_len(n: nat, k: nat)
    requires
        k >= 1,
        n < pow10(k),
    ensures
        1 <= decimal_digits(n).len() <= k,
    decreases k,
{
    if n >= 10 {
        assert(pow10(1) == 10) by {
            reveal_with_fuel(pow10, 2);
        }
        assert(k >= 2);
        assert(pow10(k) == 10 * pow10((k - 1) as nat));
        lemma_digits_len(n / 10, (k - 1) as nat);
    }
}

/// A 32-bit number is written with at most ten digits.
pub proof fn lemma_u32_digits_len(n: u32)
    ensures
        1 <= decimal_digits(n as nat).len() <= 10,
{
    assert(pow10(10) == 10_000_000_000) by {
        reveal_with_fuel(pow10, 11);
    }
    lemma_digits_len(n as nat, 10);
}

/// Any number up to the limit, once written, is read back as itself.
pub proof fn lemma_parse_written(n: u64, max: u64)
    requires
        n <= max,
    ensures
        parse_decimal_spec(decimal_digits(n as nat), max) == Some(n),
{
    lemma_digits_round_trip(n as nat);
}

/// Reads the bytes from `start` up to `end` as an unsigned decimal number of
/// at most `max`.
pub fn parse_decimal(bytes: &[u8], start: usize, end: usize, max: u64) -> (r: Option<u64>)
    requires
        start <= end <= bytes@.len(),
    ensures
        r == parse_decimal_spec(bytes@.subrange(start as int, end as int), max),
{
    let ghost body = bytes@.subrange(start as int, end as int);
    if start >= end {
        return None;
    }
    let mut acc: u64 = 0;
    let mut i: usize = start;
    while i < end
        invariant
            start <= i <= end <= bytes@.len(),
            body == bytes@.subrange(start as int, end as int),
            all_digits(body.subrange(0, i - start)),
            acc == decimal_value(body.subrange(0, i - start)),
            acc <= max,
        decreases end - i,
    {
        let b: u8 = bytes[i];
        let ghost before = body.subrange(0, i - start);
        let ghost after = body.subrange(0, i - start + 1);
        proof {
            assert(body[i - start] == b);
            assert(after.drop_last() =~= before);
            assert(after.last() == b);
            lemma_prefix_value(body, i - start + 1);
        }
        if b < ASCII_ZERO || b > ASCII_NINE {
            return None;
        }
        let d: u64 = (b - ASCII_ZERO) as u64;
        if d > max {
            return None;
        }
        if acc > (max - d) / 10 {
            return None;
        }
        acc = acc * 10 + d;
        i = i + 1;
        proof {
            assert forall|j: int| 0 <= j < after.len() implies is_digit(#[trigger] after[j]) by {
                if j < before.len() {
                    assert(after[j] == before[j]);
                }
            }
        }
    }
    proof {
        assert(body.subrange(0, i - start) =~= body);
    }
    Some(acc)
}

/// Reads a text as a 16-bit unsigned number, as the standard library reads
/// one: an optional `+`, then one or more digits, no more than 65535.
pub fn parse_u16(text: &str) -> (r: Option<u16>)
    ensures
        r == parse_u16_spec(text.spec_bytes()),
{
    let bytes = text.as_bytes();
    let start: usize = if bytes.len() > 0 && bytes[0] == ASCII_PLUS {
        1
    } else {
        0
    };
    proof {
        assert(bytes@.subrange(0, bytes@.len() as int) =~= bytes@);
    }
    match parse_decimal(bytes, start, bytes.len(), 65535) {
        Some(v) => Some(v as u16),
        None => None,
    }
}

/// Whether two runs of bytes are the same.
pub fn same_bytes(a: &[u8], b: &[u8]) -> (r: bool)
    ensures
        r == (a@ == b@),
{
    if a.len() != b.len() {
        return false;
    }
    let mut i: usize = 0;
    while i < a.len()
        invariant
            a@.len() == b@.len(),
            i <= a@.len(),
            forall|j: int| 0 <= j < i ==> a@[j] == b@[j],
        decreases a@.len() - i,
    {
        if a[i] != b[i] {
            return false;
        }
        i = i + 1;
    }
    assert(a@ =~= b@);
    true
}

/// The one-character text of a digit.
fn digit_text(d: u64) -> (r: &'static str)
    requires
        d < 10,
    ensures
        r@ == seq![((48 + d) as u8) as char],
{
    proof {
        reveal_strlit("0");
        reveal_strlit("1");
        reveal_strlit("2");
        reveal_strlit("3");
        reveal_strlit("4");
        reveal_strlit("5");
        reveal_strlit("6");
        reveal_strlit("7");
        reveal_strlit("8");
        reveal_strlit("9");
    }
    let r = if d == 0 {
        "0"
    } else if d == 1 {
        "1"
    } else if d == 2 {
        "2"
    } else if d == 3 {
        "3"
    } else if d == 4 {
        "4"
    } else if d == 5 {
        "5"
    } else if d == 6 {
        "6"
    } else if d == 7 {
        "7"
    } else if d == 8 {
        "8"
    } else {
        "9"
    };
    assert(r@ =~= seq![((48 + d) as u8) as char]);
    r
}

/// Writes `n` in decimal, without sign or leading zeros.
pub fn decimal(n: u64) -> (r: String)
    ensures
        r@ == decimal_chars(n as nat),
    decreases n,
{
    if n < 10 {
        String::from_str(digit_text(n))
    } else {
        let mut s = decimal(n / 10);
        s.append(digit_text(n % 10));
        assert(s@ =~= decimal_chars(n as nat));
        s
    }
}

/// Writes `n` in decimal as bytes, without sign or leading zeros.
pub fn decimal_bytes(n: u64) -> (r: Vec<u8>)
    ensures
        r@ == decimal_digits(n as nat),
    decreases n,
{
    if n < 10 {
        let mut v: Vec<u8> = Vec::new();
        v.push(ASCII_ZERO + (n as u8));
        assert(v@ =~= decimal_digits(n as nat));
        v
    } else {
        let mut v = decimal_bytes(n / 10);
        v.push(ASCII_ZERO + ((n % 10) as u8));
        v
    }
}

/// An owned copy of a text.
pub(crate) fn owned(s: &str) -> (r: String)
    ensures
        r@ == s@,
{
    String::from_str(s)
}

/// Appends a copy of `s` to a list of texts.
pub(crate) fn push_text(list: &mut Vec<String>, s: &str)
    ensures
        final(list).deep_view() == old(list).deep_view().push(s@),
{
    let ghost before = list.deep_view();
    list.push(String::from_str(s));
    assert(list.deep_view() =~= before.push(s@));
}

/// Appends `s` itself to a list of texts.
pub(crate) fn push_owned(list: &mut Vec<String>, s: String)
    ensures
        final(list).deep_view() == old(list).deep_view().push(s@),
{
    let ghost before = list.deep_view();
    list.push(s);
    assert(list.deep_view() =~= before.push(s@));
}

} // verus!
