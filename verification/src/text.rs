//! Decimal text codec.
//!
//! Refresh records store their absolute expiry as a decimal string; this
//! module renders and reads that representation with exact contracts, so the
//! round trip through the store is proved rather than assumed.

use vstd::prelude::*;

verus! {

/// Relies on std's `String::push`: appends exactly one character at the end.
#[verifier::external_body]
pub fn push_char(s: &mut String, c: char)
    ensures
        final(s)@ == old(s)@.push(c),
{
    s.push(c);
}

/// The digit character for a value below ten.
pub open spec fn dec_digit_char(d: int) -> char {
    if d == 0 {
        '0'
    } else if d == 1 {
        '1'
    } else if d == 2 {
        '2'
    } else if d == 3 {
        '3'
    } else if d == 4 {
        '4'
    } else if d == 5 {
        '5'
    } else if d == 6 {
        '6'
    } else if d == 7 {
        '7'
    } else if d == 8 {
        '8'
    } else {
        '9'
    }
}

pub open spec fn is_dec_digit(c: char) -> bool {
    '0' <= c <= '9'
}

/// Numeric value of a digit character; zero for any other character.
pub open spec fn dec_digit_val(c: char) -> int {
    if is_dec_digit(c) {
        c as int - '0' as int
    } else {
        0
    }
}

/// Shortest decimal rendering of a natural number, most significant digit
/// first.
pub open spec fn dec_chars_of(n: nat) -> Seq<char>
    decreases n,
{
    if n < 10 {
        seq![dec_digit_char(n as int)]
    } else {
        dec_chars_of(n / 10) + seq![dec_digit_char((n % 10) as int)]
    }
}

/// Value of a digit string, read most significant digit first.
pub open spec fn dec_seq_val(s: Seq<char>) -> int
    decreases s.len(),
{
    if s.len() == 0 {
        0
    } else {
        10 * dec_seq_val(s.drop_last()) + dec_digit_val(s.last())
    }
}

pub open spec fn all_dec_digits(s: Seq<char>) -> bool {
    forall|i: int| 0 <= i < s.len() ==> is_dec_digit(#[trigger] s[i])
}

/// What `parse_u64` accepts: a nonempty, all-digit string whose value fits in
/// a `u64`.
pub open spec fn parse_u64_model(s: Seq<char>) -> Option<u64> {
    if s.len() > 0 && all_dec_digits(s) && dec_seq_val(s) <= u64::MAX {
        Some(dec_seq_val(s) as u64)
    } else {
        None
    }
}

fn digit_char(d: u8) -> (c: char)
    requires
        d < 10,
    ensures
        c == dec_digit_char(d as int),
{
    if d == 0 {
        '0'
    } else if d == 1 {
        '1'
    } else if d == 2 {
        '2'
    } else if d == 3 {
        '3'
    } else if d == 4 {
        '4'
    } else if d == 5 {
        '5'
    } else if d == 6 {
        '6'
    } else if d == 7 {
        '7'
    } else if d == 8 {
        '8'
    } else {
        '9'
    }
}

/// Render `n` in decimal, without sign or padding.
pub fn format_u64(n: u64) -> (r: String)
    ensures
        r@ == dec_chars_of(n as nat),
    decreases n,
{
    if n < 10 {
        let mut s = String::new();
        push_char(&mut s, digit_char(n as u8));
        assert(s@ =~= dec_chars_of(n as nat));
        s
    } else {
        let mut s = format_u64(n / 10);
        push_char(&mut s, digit_char((n % 10) as u8));
        assert(s@ =~= dec_chars_of(n as nat));
        s
    }
}

proof fn lemma_dec_seq_val_nonneg(s: Seq<char>)
    ensures
        dec_seq_val(s) >= 0,
    decreases s.len(),
{
    if s.len() > 0 {
        lemma_dec_seq_val_nonneg(s.drop_last());
    }
}

proof fn lemma_dec_seq_val_take_monotone(s: Seq<char>, j: int, k: int)
    requires
        0 <= j <= k <= s.len(),
    ensures
        dec_seq_val(s.take(j)) <= dec_seq_val(s.take(k)),
    decreases k - j,
{
    if j < k {
        lemma_dec_seq_val_take_monotone(s, j, k - 1);
        assert(s.take(k).drop_last() =~= s.take(k - 1));
        lemma_dec_seq_val_nonneg(s.take(k - 1));
    }
}

/// Read a decimal `u64`. Accepts exactly the nonempty all-digit strings whose
/// value fits; anything else yields `None`.
pub fn parse_u64(s: &str) -> (r: Option<u64>)
    ensures
        r == parse_u64_model(s@),
{
    let len = s.unicode_len();
    if len == 0 {
        return None;
    }
    let mut v: u64 = 0;
    let mut i: usize = 0;
    while i < len
        invariant
            0 < len == s@.len(),
            0 <= i <= len,
            all_dec_digits(s@.take(i as int)),
            v == dec_seq_val(s@.take(i as int)),
        decreases len - i,
    {
        let c = s.get_char(i);
        if !('0' <= c && c <= '9') {
            assert(!is_dec_digit(s@[i as int]));
            return None;
        }
        let d: u32 = c as u32 - '0' as u32;
        let shifted = match v.checked_mul(10) {
            Some(x) => x,
            None => {
                proof {
                    assert(s@.take(i + 1).drop_last() =~= s@.take(i as int));
                    assert(dec_seq_val(s@.take(i + 1)) > u64::MAX) by {
                        lemma_dec_seq_val_nonneg(s@.take(i + 1).drop_last());
                    }
                    lemma_dec_seq_val_take_monotone(s@, i + 1, s@.len() as int);
                    assert(s@.take(s@.len() as int) =~= s@);
                }
                return None;
            },
        };
        let next = match shifted.checked_add(d as u64) {
            Some(x) => x,
            None => {
                proof {
                    assert(s@.take(i + 1).drop_last() =~= s@.take(i as int));
                    lemma_dec_seq_val_take_monotone(s@, i + 1, s@.len() as int);
                    assert(s@.take(s@.len() as int) =~= s@);
                }
                return None;
            },
        };
        proof {
            assert(s@.take(i + 1).drop_last() =~= s@.take(i as int));
            assert(s@.take(i + 1).last() == s@[i as int]);
        }
        v = next;
        i = i + 1;
    }
    proof {
        assert(s@.take(len as int) =~= s@);
    }
    Some(v)
}

proof fn lemma_dec_chars_all_digits(n: nat)
    ensures
        dec_chars_of(n).len() > 0,
        all_dec_digits(dec_chars_of(n)),
    decreases n,
{
    if n >= 10 {
        lemma_dec_chars_all_digits(n / 10);
    }
}

proof fn lemma_digit_char_val(d: int)
    requires
        0 <= d < 10,
    ensures
        dec_digit_val(dec_digit_char(d)) == d,
{
    if d == 0 {
        assert(dec_digit_val('0') == 0);
    } else if d == 1 {
        assert(dec_digit_val('1') == 1);
    } else if d == 2 {
        assert(dec_digit_val('2') == 2);
    } else if d == 3 {
        assert(dec_digit_val('3') == 3);
    } else if d == 4 {
        assert(dec_digit_val('4') == 4);
    } else if d == 5 {
        assert(dec_digit_val('5') == 5);
    } else if d == 6 {
        assert(dec_digit_val('6') == 6);
    } else if d == 7 {
        assert(dec_digit_val('7') == 7);
    } else if d == 8 {
        assert(dec_digit_val('8') == 8);
    } else {
        assert(dec_digit_val('9') == 9);
    }
}

proof fn lemma_dec_chars_val(n: nat)
    ensures
        dec_seq_val(dec_chars_of(n)) == n,
    decreases n,
{
    if n < 10 {
        let s = dec_chars_of(n);
        assert(s.last() == dec_digit_char(n as int));
        assert(s.drop_last() =~= Seq::<char>::empty());
        assert(dec_seq_val(s.drop_last()) == 0);
        lemma_digit_char_val(n as int);
    } else {
        lemma_dec_chars_val(n / 10);
        assert(dec_chars_of(n).drop_last() =~= dec_chars_of(n / 10));
        assert(dec_chars_of(n).last() == dec_digit_char((n % 10) as int));
        lemma_digit_char_val((n % 10) as int);
    }
}

/// Rendering a number and reading it back yields the same number.
pub proof fn lemma_decimal_round_trip(n: u64)
    ensures
        parse_u64_model(dec_chars_of(n as nat)) == Some(n),
{
    lemma_dec_chars_all_digits(n as nat);
    lemma_dec_chars_val(n as nat);
}

} // verus!
