//! Character tables and decimal formatting/parsing used by the session
//! token codec and the response messages.

use vstd::prelude::*;

verus! {

/// The decimal digit characters, as a table.
pub open spec fn digit_char(d: int) -> char {
    if d == 0 {
        '0'
    } else if d == 1 {
        '1'
    } else if d == 2 {
        '2'
    } else if d == 3 {
        '3'
    } else if d == 4 {
        '4'
    } else if d == 5 {
        '5'
    } else if d == 6 {
        '6'
    } else if d == 7 {
        '7'
    } else if d == 8 {
        '8'
    } else {
        '9'
    }
}

pub open spec fn is_digit(c: char) -> bool {
    c == '0' || c == '1' || c == '2' || c == '3' || c == '4' || c == '5' || c == '6' || c == '7'
        || c == '8' || c == '9'
}

pub open spec fn digit_val(c: char) -> int {
    if c == '0' {
        0
    } else if c == '1' {
        1
    } else if c == '2' {
        2
    } else if c == '3' {
        3
    } else if c == '4' {
        4
    } else if c == '5' {
        5
    } else if c == '6' {
        6
    } else if c == '7' {
        7
    } else if c == '8' {
        8
    } else {
        9
    }
}

/// The decimal digits of `n`, most significant first.
pub open spec fn dec_digits(n: nat) -> Seq<char>
    decreases n,
{
    if n < 10 {
        seq![digit_char(n as int)]
    } else {
        dec_digits(n / 10).push(digit_char(n as int % 10))
    }
}

/// The integer value of a digit string, most significant digit first.
pub open spec fn digits_val(s: Seq<char>) -> int
    decreases s.len(),
{
    if s.len() == 0 {
        0
    } else {
        digits_val(s.drop_last()) * 10 + digit_val(s.last())
    }
}

pub open spec fn all_digits(s: Seq<char>) -> bool {
    forall|i: int| 0 <= i < s.len() ==> is_digit(#[trigger] s[i])
}

/// The decimal representation of an integer: a minus sign for a
/// negative value, then the digits without leading zeros.
pub open spec fn dec_rep(n: int) -> Seq<char> {
    if n < 0 {
        seq!['-'] + dec_digits((-n) as nat)
    } else {
        dec_digits(n as nat)
    }
}

/// The value a signed digit string denotes.
pub open spec fn dec_val(s: Seq<char>) -> int {
    if s.len() > 0 && s[0] == '-' {
        -digits_val(s.subrange(1, s.len() as int))
    } else {
        digits_val(s)
    }
}

/// Whether `s` is an accepted signed decimal numeral for an `i32`: an
/// optional minus sign, then one or more digits (leading zeros
/// accepted), denoting a value in `i32` range.
pub open spec fn valid_dec_i32(s: Seq<char>) -> bool {
    let digits = if s.len() > 0 && s[0] == '-' {
        s.subrange(1, s.len() as int)
    } else {
        s
    };
    &&& digits.len() > 0
    &&& all_digits(digits)
    &&& i32::MIN <= dec_val(s) <= i32::MAX
}

/// What `parse_i32` returns: the denoted value for accepted numerals,
/// nothing for every other string.
pub open spec fn parse_i32_spec(s: Seq<char>) -> Option<i32> {
    if valid_dec_i32(s) {
        Some(dec_val(s) as i32)
    } else {
        None
    }
}

pub proof fn lemma_digits_val_nonneg(s: Seq<char>)
    requires
        all_digits(s),
    ensures
        digits_val(s) >= 0,
    decreases s.len(),
{
    if s.len() > 0 {
        assert(all_digits(s.drop_last())) by {
            assert(forall|i: int|
                0 <= i < s.len() - 1 ==> s.drop_last()[i] == #[trigger] s[i]);
        }
        lemma_digits_val_nonneg(s.drop_last());
    }
}

/// Appending digits never shrinks the denoted value.
pub proof fn lemma_digits_val_prefix(s: Seq<char>, i: int)
    requires
        0 <= i <= s.len(),
        all_digits(s),
    ensures
        digits_val(s.subrange(0, i)) <= digits_val(s),
    decreases s.len() - i,
{
    if i < s.len() {
        let a = s.subrange(0, i);
        let b = s.subrange(0, i + 1);
        assert(b.drop_last() =~= a);
        assert(all_digits(a));
        lemma_digits_val_nonneg(a);
        assert(digits_val(b) == digits_val(a) * 10 + digit_val(b.last()));
        assert(digits_val(a) * 10 >= digits_val(a));
        lemma_digits_val_prefix(s, i + 1);
    } else {
        assert(s.subrange(0, i) =~= s);
    }
}

pub proof fn lemma_dec_digits_are_digits(n: nat)
    ensures
        dec_digits(n).len() >= 1,
        all_digits(dec_digits(n)),
    decreases n,
{
    if n >= 10 {
        lemma_dec_digits_are_digits(n / 10);
        assert(forall|i: int|
            0 <= i < dec_digits((n / 10) as nat).len()
                ==> dec_digits(n)[i] == #[trigger] dec_digits((n / 10) as nat)[i]);
    }
}

/// The digit table round trip: the character of a digit denotes it.
pub proof fn lemma_digit_table(d: int)
    requires
        0 <= d < 10,
    ensures
        digit_val(digit_char(d)) == d,
        is_digit(digit_char(d)),
{
}

pub proof fn lemma_dec_digits_val(n: nat)
    ensures
        digits_val(dec_digits(n)) == n,
    decreases n,
{
    if n < 10 {
        lemma_digit_table(n as int);
        let s = dec_digits(n);
        assert(s == seq![digit_char(n as int)]);
        assert(s.last() == digit_char(n as int));
        assert(s.drop_last() =~= Seq::<char>::empty());
        assert(digits_val(s) == digits_val(s.drop_last()) * 10 + digit_val(s.last()));
        assert(digits_val(Seq::<char>::empty()) == 0);
    } else {
        lemma_dec_digits_val(n / 10);
        lemma_digit_table(n as int % 10);
        let s = dec_digits(n);
        assert(s == dec_digits(n / 10).push(digit_char(n as int % 10)));
        assert(s.last() == digit_char(n as int % 10));
        assert(s.drop_last() =~= dec_digits(n / 10));
        assert(digits_val(s) == digits_val(s.drop_last()) * 10 + digit_val(s.last()));
        assert(digits_val(s) == (n / 10) * 10 + n % 10);
    }
}

/// Parsing inverts formatting: the decimal representation of any `i32`
/// is accepted and denotes the value it was formatted from.
pub proof fn lemma_parse_dec_rep(n: int)
    requires
        i32::MIN <= n <= i32::MAX,
    ensures
        parse_i32_spec(dec_rep(n)) == Some(n as i32),
{
    if n < 0 {
        let m = (-n) as nat;
        let s = dec_rep(n);
        lemma_dec_digits_are_digits(m);
        lemma_dec_digits_val(m);
        assert(s[0] == '-');
        assert(s.subrange(1, s.len() as int) =~= dec_digits(m));
        assert(dec_val(s) == n);
    } else {
        let s = dec_rep(n);
        lemma_dec_digits_are_digits(n as nat);
        lemma_dec_digits_val(n as nat);
        assert(dec_digits(n as nat)[0] != '-') by {
            lemma_dec_digits_first_is_digit(n as nat);
        }
        assert(dec_val(s) == n);
    }
}

proof fn lemma_dec_digits_first_is_digit(n: nat)
    ensures
        is_digit(dec_digits(n)[0]),
    decreases n,
{
    if n >= 10 {
        lemma_dec_digits_first_is_digit(n / 10);
    }
}

/// Relies on String::push: appends the given character to the string.
#[verifier::external_body]
pub fn push_char(s: &mut String, c: char)
    ensures
        final(s)@ == old(s)@.push(c),
{
    s.push(c)
}

/// Appends the character for one decimal digit.
fn push_digit(s: &mut String, d: u32)
    requires
        d < 10,
    ensures
        final(s)@ == old(s)@.push(digit_char(d as int)),
{
    let c: char = if d == 0 {
        '0'
    } else if d == 1 {
        '1'
    } else if d == 2 {
        '2'
    } else if d == 3 {
        '3'
    } else if d == 4 {
        '4'
    } else if d == 5 {
        '5'
    } else if d == 6 {
        '6'
    } else if d == 7 {
        '7'
    } else if d == 8 {
        '8'
    } else {
        '9'
    };
    push_char(s, c);
}

/// Appends the decimal digits of `n`, most significant first.
pub fn push_dec_u32(s: &mut String, n: u32)
    ensures
        final(s)@ == old(s)@ + dec_digits(n as nat),
    decreases n,
{
    if n < 10 {
        push_digit(s, n);
        proof {
            assert(s@ =~= old(s)@ + dec_digits(n as nat));
        }
    } else {
        push_dec_u32(s, n / 10);
        push_digit(s, n % 10);
        proof {
            assert(s@ =~= old(s)@ + dec_digits(n as nat));
        }
    }
}

/// The decimal representation of an `i32`, sign included.
pub fn i32_to_dec(n: i32) -> (r: String)
    ensures
        r@ == dec_rep(n as int),
{
    let mut s = String::new();
    if n < 0 {
        push_char(&mut s, '-');
        let m: u32 = (-(n as i64)) as u32;
        push_dec_u32(&mut s, m);
        proof {
            assert(s@ =~= seq!['-'] + dec_digits(m as nat));
        }
    } else {
        push_dec_u32(&mut s, n as u32);
        proof {
            assert(s@ =~= dec_digits(n as nat));
        }
    }
    s
}

/// The value of one digit character.
fn digit_of(c: char) -> (r: Option<u32>)
    ensures
        is_digit(c) ==> r == Some(digit_val(c) as u32),
        !is_digit(c) ==> r is None,
{
    match c {
        '0' => Some(0),
        '1' => Some(1),
        '2' => Some(2),
        '3' => Some(3),
        '4' => Some(4),
        '5' => Some(5),
        '6' => Some(6),
        '7' => Some(7),
        '8' => Some(8),
        '9' => Some(9),
        _ => None,
    }
}

/// Parses a signed decimal numeral: an optional minus sign, then one or
/// more digits, denoting a value in `i32` range; anything else is
/// rejected.
pub fn parse_i32(s: &str) -> (r: Option<i32>)
    ensures
        r == parse_i32_spec(s@),
{
    let len = s.unicode_len();
    if len == 0 {
        return None;
    }
    let neg = s.get_char(0) == '-';
    let start: usize = if neg { 1 } else { 0 };
    if start == len {
        return None;
    }
    let ghost digits = s@.subrange(if neg { 1int } else { 0int }, s@.len() as int);
    proof {
        if !neg {
            assert(digits =~= s@);
        }
    }
    let mut i = start;
    let mut acc: u64 = 0;
    while i < len
        invariant
            start <= i <= len,
            len == s@.len(),
            start == if neg { 1int } else { 0int },
            neg ==> s@[0] == '-',
            !neg ==> s@[0] != '-',
            digits == s@.subrange(start as int, len as int),
            acc == digits_val(s@.subrange(start as int, i as int)),
            all_digits(s@.subrange(start as int, i as int)),
            acc <= 0x8000_0000,
        decreases len - i,
    {
        let ghost pre = s@.subrange(start as int, i as int);
        let c = s.get_char(i);
        let d = match digit_of(c) {
            Some(d) => d,
            None => {
                proof {
                    assert(digits[i - start] == c);
                    assert(!all_digits(digits));
                }
                return None;
            },
        };
        proof {
            let ext = s@.subrange(start as int, i + 1);
            assert(ext.drop_last() =~= pre);
            assert(ext.last() == c);
            assert(forall|j: int| 0 <= j < pre.len() ==> ext[j] == #[trigger] pre[j]);
            assert(all_digits(ext));
            assert(digits_val(ext) == digits_val(pre) * 10 + digit_val(c));
        }
        acc = acc * 10 + d as u64;
        i = i + 1;
        proof {
            assert(acc == digits_val(s@.subrange(start as int, i as int)));
        }
        if acc > 0x8000_0000 {
            proof {
                if all_digits(digits) {
                    lemma_digits_val_shift(s@, start as int, i as int, len as int);
                    assert(digits_val(digits) >= acc);
                    if neg {
                        assert(dec_val(s@) == -digits_val(digits));
                        assert(dec_val(s@) < i32::MIN);
                    } else {
                        assert(digits =~= s@);
                        assert(dec_val(s@) > i32::MAX);
                    }
                }
                assert(parse_i32_spec(s@) is None);
            }
            return None;
        }
    }
    proof {
        assert(s@.subrange(start as int, len as int) =~= digits);
        lemma_digits_val_nonneg(digits);
    }
    if neg {
        proof {
            assert(dec_val(s@) == -(acc as int));
        }
        Some((-(acc as i64)) as i32)
    } else {
        if acc > 0x7FFF_FFFF {
            proof {
                assert(digits =~= s@);
            }
            return None;
        }
        proof {
            assert(dec_val(s@) == acc as int);
        }
        Some(acc as i32)
    }
}

/// If a proper prefix of the digit part already denotes more than any
/// `i32`, so does the whole digit part.
proof fn lemma_digits_val_shift(s: Seq<char>, start: int, i: int, len: int)
    requires
        0 <= start <= i <= len == s.len(),
        all_digits(s.subrange(start, len)),
    ensures
        digits_val(s.subrange(start, i)) <= digits_val(s.subrange(start, len)),
{
    let digits = s.subrange(start, len);
    assert(s.subrange(start, i) =~= digits.subrange(0, i - start));
    lemma_digits_val_prefix(digits, i - start);
}

} // verus!
