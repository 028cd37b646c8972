//! User identities.
//!
//! An identity is an opaque 128-bit value. Access-token claims carry it as its
//! canonical text form: 32 lowercase hex digits in 8-4-4-4-12 groups. Both
//! directions of that encoding are implemented here with exact contracts, and
//! the round trip is proved, which is what lets the verifier recover exactly
//! the identity a token was issued for.

use vstd::prelude::*;
use vstd::string::StrSliceExecFns;
use vstd::string::StringExecFns;
use crate::text::push_char;

verus! {

/// An opaque 128-bit user identity.
#[derive(Clone, Copy, PartialEq, Eq, Structural, Debug)]
pub struct UserId(pub u128);

/// The hex digit character for a value below sixteen, lowercase.
pub open spec fn hex_digit_char(d: int) -> char {
    if d == 0 {
        '0'
    } else if d == 1 {
        '1'
    } else if d == 2 {
        '2'
    } else if d == 3 {
        '3'
    } else if d == 4 {
        '4'
    } else if d == 5 {
        '5'
    } else if d == 6 {
        '6'
    } else if d == 7 {
        '7'
    } else if d == 8 {
        '8'
    } else if d == 9 {
        '9'
    } else if d == 10 {
        'a'
    } else if d == 11 {
        'b'
    } else if d == 12 {
        'c'
    } else if d == 13 {
        'd'
    } else if d == 14 {
        'e'
    } else {
        'f'
    }
}

pub open spec fn is_hex_digit(c: char) -> bool {
    ('0' <= c <= '9') || ('a' <= c <= 'f')
}

/// Numeric value of a lowercase hex digit character; zero for any other
/// character.
pub open spec fn hex_digit_val(c: char) -> int {
    if '0' <= c <= '9' {
        c as int - '0' as int
    } else if 'a' <= c <= 'f' {
        c as int - 'a' as int + 10
    } else {
        0
    }
}

pub open spec fn pow16(w: nat) -> int
    decreases w,
{
    if w == 0 {
        1
    } else {
        16 * pow16((w - 1) as nat)
    }
}

/// `v` rendered as exactly `w` hex digits, most significant first, truncating
/// above `pow16(w)`.
pub open spec fn hex_chars_fixed(v: nat, w: nat) -> Seq<char>
    decreases w,
{
    if w == 0 {
        Seq::<char>::empty()
    } else {
        hex_chars_fixed(v / 16, (w - 1) as nat) + seq![hex_digit_char((v % 16) as int)]
    }
}

/// Value of a hex digit string, most significant digit first.
pub open spec fn hex_seq_val(s: Seq<char>) -> int
    decreases s.len(),
{
    if s.len() == 0 {
        0
    } else {
        16 * hex_seq_val(s.drop_last()) + hex_digit_val(s.last())
    }
}

pub open spec fn all_hex_digits(s: Seq<char>) -> bool {
    forall|i: int| 0 <= i < s.len() ==> is_hex_digit(#[trigger] s[i])
}

/// Canonical text form of an identity: 32 hex digits in 8-4-4-4-12 groups.
pub open spec fn uuid_chars_of(id: u128) -> Seq<char> {
    let h = hex_chars_fixed(id as nat, 32);
    h.subrange(0, 8) + seq!['-'] + h.subrange(8, 12) + seq!['-'] + h.subrange(12, 16)
        + seq!['-'] + h.subrange(16, 20) + seq!['-'] + h.subrange(20, 32)
}

/// What `UserId::parse_str` accepts: exactly the canonical form, mapped back
/// to the identity it renders.
pub open spec fn uuid_of_chars(s: Seq<char>) -> Option<u128> {
    if s.len() == 36 && s[8] == '-' && s[13] == '-' && s[18] == '-' && s[23] == '-' {
        let h = s.subrange(0, 8) + s.subrange(9, 13) + s.subrange(14, 18) + s.subrange(19, 23)
            + s.subrange(24, 36);
        if all_hex_digits(h) {
            Some(hex_seq_val(h) as u128)
        } else {
            None
        }
    } else {
        None
    }
}

fn hex_digit(d: u8) -> (c: char)
    requires
        d < 16,
    ensures
        c == hex_digit_char(d as int),
{
    if d == 0 {
        '0'
    } else if d == 1 {
        '1'
    } else if d == 2 {
        '2'
    } else if d == 3 {
        '3'
    } else if d == 4 {
        '4'
    } else if d == 5 {
        '5'
    } else if d == 6 {
        '6'
    } else if d == 7 {
        '7'
    } else if d == 8 {
        '8'
    } else if d == 9 {
        '9'
    } else if d == 10 {
        'a'
    } else if d == 11 {
        'b'
    } else if d == 12 {
        'c'
    } else if d == 13 {
        'd'
    } else if d == 14 {
        'e'
    } else {
        'f'
    }
}

fn push_hex_fixed(s: &mut String, v: u128, w: u8)
    ensures
        final(s)@ == old(s)@ + hex_chars_fixed(v as nat, w as nat),
    decreases w,
{
    if w == 0 {
        assert(old(s)@ + hex_chars_fixed(v as nat, 0) =~= old(s)@);
    } else {
        push_hex_fixed(s, v / 16, w - 1);
        push_char(s, hex_digit((v % 16) as u8));
        assert(final(s)@ =~= old(s)@ + hex_chars_fixed(v as nat, w as nat));
    }
}

proof fn lemma_hex_chars_fixed_ascii_digits(v: nat, w: nat)
    ensures
        hex_chars_fixed(v, w).len() == w,
        all_hex_digits(hex_chars_fixed(v, w)),
        vstd::utf8::is_ascii_chars(hex_chars_fixed(v, w)),
    decreases w,
{
    if w > 0 {
        lemma_hex_chars_fixed_ascii_digits(v / 16, (w - 1) as nat);
        let s = hex_chars_fixed(v, w);
        assert forall|i: int| 0 <= i < s.len() implies is_hex_digit(#[trigger] s[i]) by {
            if i == s.len() - 1 {
                assert(s[i] == hex_digit_char((v % 16) as int));
            }
        }
        assert forall|i| 0 <= i < s.len() implies '\0' <= #[trigger] s[i] <= '\u{7f}' by {
            assert(is_hex_digit(s[i]));
        }
    }
}

impl UserId {
    /// Canonical hyphenated text form of this identity.
    pub fn to_uuid_string(&self) -> (r: String)
        ensures
            r@ == uuid_chars_of(self.0),
            r@.len() == 36,
    {
        let mut h = String::new();
        push_hex_fixed(&mut h, self.0, 32);
        proof {
            lemma_hex_chars_fixed_ascii_digits(self.0 as nat, 32);
            assert(h.is_ascii());
        }
        let hs = h.as_str();
        let mut r = hs.substring_ascii(0, 8).to_owned();
        r.append("-");
        r.append(hs.substring_ascii(8, 12));
        r.append("-");
        r.append(hs.substring_ascii(12, 16));
        r.append("-");
        r.append(hs.substring_ascii(16, 20));
        r.append("-");
        r.append(hs.substring_ascii(20, 32));
        proof {
            reveal_strlit("-");
            assert("-"@ =~= seq!['-']);
            assert(r@ =~= uuid_chars_of(self.0));
        }
        r
    }

    /// Parse the canonical hyphenated form; any other string yields `None`.
    pub fn parse_str(s: &str) -> (r: Option<UserId>)
        ensures
            r matches Some(u) ==> uuid_of_chars(s@) == Some(u.0),
            r is None ==> uuid_of_chars(s@) is None,
    {
        let len = s.unicode_len();
        if len != 36 {
            return None;
        }
        if !(s.get_char(8) == '-' && s.get_char(13) == '-' && s.get_char(18) == '-'
            && s.get_char(23) == '-') {
            return None;
        }
        let a = match parse_hex_run(s, 0, 8) {
            Some(v) => v,
            None => {
                proof {
                    if all_hex_digits(uuid_digit_groups(s@)) {
                        lemma_concat_groups_hex(s@);
                    }
                }
                return None;
            },
        };
        let b = match parse_hex_run(s, 9, 4) {
            Some(v) => v,
            None => {
                proof {
                    if all_hex_digits(uuid_digit_groups(s@)) {
                        lemma_concat_groups_hex(s@);
                    }
                }
                return None;
            },
        };
        let c = match parse_hex_run(s, 14, 4) {
            Some(v) => v,
            None => {
                proof {
                    if all_hex_digits(uuid_digit_groups(s@)) {
                        lemma_concat_groups_hex(s@);
                    }
                }
                return None;
            },
        };
        let d = match parse_hex_run(s, 19, 4) {
            Some(v) => v,
            None => {
                proof {
                    if all_hex_digits(uuid_digit_groups(s@)) {
                        lemma_concat_groups_hex(s@);
                    }
                }
                return None;
            },
        };
        let e = match parse_hex_run(s, 24, 12) {
            Some(v) => v,
            None => {
                proof {
                    if all_hex_digits(uuid_digit_groups(s@)) {
                        lemma_concat_groups_hex(s@);
                    }
                }
                return None;
            },
        };
        proof {
            lemma_pow16_values();
        }
        let v: u128 = (((a * 0x10000 + b) * 0x10000 + c) * 0x10000 + d) * 0x1000000000000 + e;
        proof {
            let h = uuid_digit_groups(s@);
            lemma_groups_concat_hex(s@);
            lemma_hex_seq_val_concat(s@.subrange(0, 8), s@.subrange(9, 13));
            lemma_hex_seq_val_concat(s@.subrange(0, 8) + s@.subrange(9, 13), s@.subrange(14, 18));
            lemma_hex_seq_val_concat(
                s@.subrange(0, 8) + s@.subrange(9, 13) + s@.subrange(14, 18),
                s@.subrange(19, 23),
            );
            lemma_hex_seq_val_concat(
                s@.subrange(0, 8) + s@.subrange(9, 13) + s@.subrange(14, 18) + s@.subrange(19, 23),
                s@.subrange(24, 36),
            );
            assert(hex_seq_val(h) == v);
        }
        Some(UserId(v))
    }
}

/// The concatenation of the five digit groups of a canonical-length string.
pub open spec fn uuid_digit_groups(s: Seq<char>) -> Seq<char> {
    s.subrange(0, 8) + s.subrange(9, 13) + s.subrange(14, 18) + s.subrange(19, 23)
        + s.subrange(24, 36)
}

proof fn lemma_concat_groups_hex(s: Seq<char>)
    requires
        s.len() == 36,
        all_hex_digits(uuid_digit_groups(s)),
    ensures
        all_hex_digits(s.subrange(0, 8)),
        all_hex_digits(s.subrange(9, 13)),
        all_hex_digits(s.subrange(14, 18)),
        all_hex_digits(s.subrange(19, 23)),
        all_hex_digits(s.subrange(24, 36)),
{
    let h = uuid_digit_groups(s);
    assert forall|i: int| 0 <= i < 8 implies is_hex_digit(#[trigger] s.subrange(0, 8)[i]) by {
        assert(h[i] == s.subrange(0, 8)[i]);
    }
    assert forall|i: int| 0 <= i < 4 implies is_hex_digit(#[trigger] s.subrange(9, 13)[i]) by {
        assert(h[8 + i] == s.subrange(9, 13)[i]);
    }
    assert forall|i: int| 0 <= i < 4 implies is_hex_digit(#[trigger] s.subrange(14, 18)[i]) by {
        assert(h[12 + i] == s.subrange(14, 18)[i]);
    }
    assert forall|i: int| 0 <= i < 4 implies is_hex_digit(#[trigger] s.subrange(19, 23)[i]) by {
        assert(h[16 + i] == s.subrange(19, 23)[i]);
    }
    assert forall|i: int| 0 <= i < 12 implies is_hex_digit(#[trigger] s.subrange(24, 36)[i]) by {
        assert(h[20 + i] == s.subrange(24, 36)[i]);
    }
}

proof fn lemma_groups_concat_hex(s: Seq<char>)
    requires
        s.len() == 36,
        all_hex_digits(s.subrange(0, 8)),
        all_hex_digits(s.subrange(9, 13)),
        all_hex_digits(s.subrange(14, 18)),
        all_hex_digits(s.subrange(19, 23)),
        all_hex_digits(s.subrange(24, 36)),
    ensures
        all_hex_digits(uuid_digit_groups(s)),
{
    let h = uuid_digit_groups(s);
    assert forall|i: int| 0 <= i < h.len() implies is_hex_digit(#[trigger] h[i]) by {
        if i < 8 {
            assert(h[i] == s.subrange(0, 8)[i]);
        } else if i < 12 {
            assert(h[i] == s.subrange(9, 13)[i - 8]);
        } else if i < 16 {
            assert(h[i] == s.subrange(14, 18)[i - 12]);
        } else if i < 20 {
            assert(h[i] == s.subrange(19, 23)[i - 16]);
        } else {
            assert(h[i] == s.subrange(24, 36)[i - 20]);
        }
    }
}

proof fn lemma_pow16_values()
    ensures
        pow16(4) == 0x10000,
        pow16(8) == 0x100000000,
        pow16(12) == 0x1000000000000,
        pow16(32) == 0x100000000000000000000000000000000,
{
    reveal_with_fuel(pow16, 33);
}

/// Concatenation shifts the left part by sixteen to the length of the right
/// part.
proof fn lemma_hex_seq_val_concat(x: Seq<char>, y: Seq<char>)
    ensures
        hex_seq_val(x + y) == hex_seq_val(x) * pow16(y.len()) + hex_seq_val(y),
    decreases y.len(),
{
    if y.len() == 0 {
        assert(x + y =~= x);
    } else {
        lemma_hex_seq_val_concat(x, y.drop_last());
        assert((x + y).drop_last() =~= x + y.drop_last());
        assert((x + y).last() == y.last());
        let l = (y.len() - 1) as nat;
        assert(pow16(y.len()) == 16 * pow16(l));
        assert(16 * (hex_seq_val(x) * pow16(l) + hex_seq_val(y.drop_last())) == hex_seq_val(x) * (
        16 * pow16(l)) + 16 * hex_seq_val(y.drop_last())) by (nonlinear_arith);
    }
}

fn hex_val_exec(c: char) -> (r: Option<u8>)
    ensures
        r matches Some(d) ==> is_hex_digit(c) && d == hex_digit_val(c) && d < 16,
        r is None ==> !is_hex_digit(c),
{
    if '0' <= c && c <= '9' {
        Some((c as u32 - '0' as u32) as u8)
    } else if 'a' <= c && c <= 'f' {
        Some((c as u32 - 'a' as u32 + 10) as u8)
    } else {
        None
    }
}

/// Parse `w` hex digits of `s` starting at `start`.
fn parse_hex_run(s: &str, start: usize, w: usize) -> (r: Option<u128>)
    requires
        start + w <= s@.len(),
        start + w <= usize::MAX,
        w <= 32,
    ensures
        r matches Some(v) ==> {
            &&& all_hex_digits(s@.subrange(start as int, start + w))
            &&& v == hex_seq_val(s@.subrange(start as int, start + w))
            &&& v < pow16(w as nat)
        },
        r is None ==> !all_hex_digits(s@.subrange(start as int, start + w)),
{
    let mut v: u128 = 0;
    let mut i: usize = 0;
    proof {
        lemma_pow16_values();
        lemma_pow16_monotone();
    }
    while i < w
        invariant
            start + w <= s@.len(),
            start + w <= usize::MAX,
            w <= 32,
            0 <= i <= w,
            all_hex_digits(s@.subrange(start as int, start + i)),
            v == hex_seq_val(s@.subrange(start as int, start + i)),
            v < pow16(i as nat),
            pow16(32) == 0x100000000000000000000000000000000,
            forall|j: nat, k: nat| j <= k <= 32 ==> #[trigger] pow16(j) <= #[trigger] pow16(k),
        decreases w - i,
    {
        let c = s.get_char(start + i);
        let d = match hex_val_exec(c) {
            Some(d) => d,
            None => {
                assert(s@.subrange(start as int, start + w)[i as int] == s@[start + i]);
                return None;
            },
        };
        proof {
            assert(pow16(i as nat) <= pow16(31));
            assert(16 * pow16(31) == pow16(32)) by {
                reveal_with_fuel(pow16, 33);
            }
            let g = s@.subrange(start as int, start + i + 1);
            assert(g.drop_last() =~= s@.subrange(start as int, start + i));
            assert(g.last() == s@[start + i]);
        }
        v = v * 16 + d as u128;
        i = i + 1;
    }
    Some(v)
}

proof fn lemma_pow16_monotone()
    ensures
        forall|j: nat, k: nat| j <= k <= 32 ==> #[trigger] pow16(j) <= #[trigger] pow16(k),
{
    assert forall|j: nat, k: nat| j <= k <= 32 implies #[trigger] pow16(j) <= #[trigger] pow16(k) by {
        lemma_pow16_monotone_step(j, k);
    }
}

proof fn lemma_pow16_monotone_step(j: nat, k: nat)
    requires
        j <= k,
    ensures
        pow16(j) <= pow16(k),
        pow16(j) >= 1,
    decreases k,
{
    if j < k {
        lemma_pow16_monotone_step(j, (k - 1) as nat);
    } else if k > 0 {
        lemma_pow16_monotone_step((j - 1) as nat, (k - 1) as nat);
    }
}

proof fn lemma_hex_chars_fixed_val(v: nat, w: nat)
    requires
        v < pow16(w),
    ensures
        hex_seq_val(hex_chars_fixed(v, w)) == v,
    decreases w,
{
    if w == 0 {
    } else {
        assert(pow16(w) == 16 * pow16((w - 1) as nat));
        assert(v / 16 < pow16((w - 1) as nat));
        lemma_hex_chars_fixed_val(v / 16, (w - 1) as nat);
        let s = hex_chars_fixed(v, w);
        assert(s.drop_last() =~= hex_chars_fixed(v / 16, (w - 1) as nat));
        assert(s.last() == hex_digit_char((v % 16) as int));
        lemma_hex_digit_char_val((v % 16) as int);
    }
}

proof fn lemma_hex_digit_char_val(d: int)
    requires
        0 <= d < 16,
    ensures
        hex_digit_val(hex_digit_char(d)) == d,
{
}

/// Rendering an identity and parsing it back yields the same identity.
pub proof fn lemma_uuid_round_trip(id: u128)
    ensures
        uuid_of_chars(uuid_chars_of(id)) == Some(id),
{
    let h = hex_chars_fixed(id as nat, 32);
    lemma_hex_chars_fixed_ascii_digits(id as nat, 32);
    let s = uuid_chars_of(id);
    assert(s.len() == 36);
    assert(s[8] == '-' && s[13] == '-' && s[18] == '-' && s[23] == '-');
    let h2 = s.subrange(0, 8) + s.subrange(9, 13) + s.subrange(14, 18) + s.subrange(19, 23)
        + s.subrange(24, 36);
    assert(h2 =~= h);
    lemma_pow16_values();
    lemma_hex_chars_fixed_val(id as nat, 32);
}

} // verus!
