//! Decimal text: rendering unsigned integers for URL path and query
//! segments, and reading them back from JSON object keys.

use vstd::prelude::*;

verus! {

pub open spec fn is_digit(c: char) -> bool {
    '0' <= c && c <= '9'
}

pub open spec fn digit_val(c: char) -> int {
    c as int - '0' as int
}

pub open spec fn digit_char(d: int) -> char {
    if d == 0 {
        '0'
    } else if d == 1 {
        '1'
    } else if d == 2 {
        '2'
    } else if d == 3 {
        '3'
    } else if d == 4 {
        '4'
    } else if d == 5 {
        '5'
    } else if d == 6 {
        '6'
    } else if d == 7 {
        '7'
    } else if d == 8 {
        '8'
    } else {
        '9'
    }
}

/// The decimal rendering of `n`, most significant digit first, no sign and
/// no leading zero (except for `n == 0` itself).
pub open spec fn dec_str(n: nat) -> Seq<char>
    decreases n,
{
    if n < 10 {
        seq![digit_char(n as int)]
    } else {
        dec_str(n / 10).push(digit_char((n % 10) as int))
    }
}

pub open spec fn all_digits(s: Seq<char>) -> bool {
    forall|i: int| 0 <= i < s.len() ==> is_digit(#[trigger] s[i])
}

/// The numeric value of a digit string, read most significant digit first.
pub open spec fn dec_val(s: Seq<char>) -> int
    decreases s.len(),
{
    if s.len() == 0 {
        0
    } else {
        dec_val(s.drop_last()) * 10 + digit_val(s.last())
    }
}

fn digit_str(d: u64) -> (r: &'static str)
    requires
        d < 10,
    ensures
        r@ =~= seq![digit_char(d as int)],
{
    proof {
        reveal_strlit("0");
        reveal_strlit("1");
        reveal_strlit("2");
        reveal_strlit("3");
        reveal_strlit("4");
        reveal_strlit("5");
        reveal_strlit("6");
        reveal_strlit("7");
        reveal_strlit("8");
        reveal_strlit("9");
    }
    if d == 0 {
        "0"
    } else if d == 1 {
        "1"
    } else if d == 2 {
        "2"
    } else if d == 3 {
        "3"
    } else if d == 4 {
        "4"
    } else if d == 5 {
        "5"
    } else if d == 6 {
        "6"
    } else if d == 7 {
        "7"
    } else if d == 8 {
        "8"
    } else {
        "9"
    }
}

/// Renders `n` in decimal, exactly as `dec_str` describes.
pub fn fmt_u64(n: u64) -> (r: String)
    ensures
        r@ == dec_str(n as nat),
    decreases n,
{
    if n < 10 {
        let r = String::from_str(digit_str(n));
        assert(r@ =~= dec_str(n as nat));
        r
    } else {
        let mut r = fmt_u64(n / 10);
        r.append(digit_str(n % 10));
        assert(r@ =~= dec_str(n as nat));
        r
    }
}

/// Rendering and reading decimal text are inverse: what `dec_str` writes
/// for `n` is a non-empty digit string whose value reads back as `n`. In
/// particular two distinct ids never render to the same URL segment, and
/// an update-feed key written this way always parses.
pub proof fn lemma_dec_str_roundtrip(n: nat)
    ensures
        dec_str(n).len() > 0,
        all_digits(dec_str(n)),
        dec_val(dec_str(n)) == n,
    decreases n,
{
    if n < 10 {
        let s = dec_str(n);
        assert(s =~= seq![digit_char(n as int)]);
        assert(s.drop_last() =~= Seq::<char>::empty());
        assert(s.last() == digit_char(n as int));
        assert(dec_val(Seq::<char>::empty()) == 0);
        assert(dec_val(s) == digit_val(digit_char(n as int)));
    } else {
        lemma_dec_str_roundtrip(n / 10);
        let t = dec_str(n / 10);
        let c = digit_char((n % 10) as int);
        assert(dec_str(n) == t.push(c));
        assert(t.push(c).drop_last() =~= t);
        assert(t.push(c).last() == c);
        assert(forall|i: int| 0 <= i < t.len() ==> t.push(c)[i] == t[i]);
        assert(dec_val(t.push(c)) == dec_val(t) * 10 + digit_val(c));
    }
}

proof fn lemma_dec_val_nonneg(s: Seq<char>)
    requires
        all_digits(s),
    ensures
        dec_val(s) >= 0,
    decreases s.len(),
{
    if s.len() > 0 {
        assert(all_digits(s.drop_last()));
        lemma_dec_val_nonneg(s.drop_last());
    }
}

proof fn lemma_dec_val_prefix_le(s: Seq<char>, i: int)
    requires
        all_digits(s),
        0 <= i <= s.len(),
    ensures
        dec_val(s.take(i)) <= dec_val(s),
    decreases s.len() - i,
{
    if i < s.len() {
        lemma_dec_val_prefix_le(s, i + 1);
        let t = s.take(i + 1);
        assert(t.drop_last() =~= s.take(i));
        assert(all_digits(s.take(i)));
        lemma_dec_val_nonneg(s.take(i));
        assert(dec_val(t) == dec_val(s.take(i)) * 10 + digit_val(s[i]));
    } else {
        assert(s.take(i) =~= s);
    }
}

/// Reads an unsigned decimal string. Returns the value exactly when the
/// string is non-empty, all digits, and the value fits in a `u64`.
pub fn parse_u64(s: &str) -> (r: Option<u64>)
    ensures
        r is Some <==> s@.len() > 0 && all_digits(s@) && dec_val(s@) <= u64::MAX,
        r matches Some(n) ==> n == dec_val(s@),
{
    let len = s.unicode_len();
    if len == 0 {
        return None;
    }
    let mut val: u64 = 0;
    let mut i: usize = 0;
    while i < len
        invariant
            0 <= i <= len,
            len == s@.len(),
            all_digits(s@.take(i as int)),
            val == dec_val(s@.take(i as int)),
        decreases len - i,
    {
        let c = s.get_char(i);
        if !('0' <= c && c <= '9') {
            assert(!is_digit(s@[i as int]));
            return None;
        }
        let d = (c as u32) - ('0' as u32);
        proof {
            assert(s@.take(i as int + 1).drop_last() =~= s@.take(i as int));
            assert(s@.take(i as int + 1).last() == s@[i as int]);
            assert(all_digits(s@.take(i as int + 1))) by {
                assert(forall|j: int|
                    0 <= j < i ==> #[trigger] s@.take(i as int + 1)[j] == s@.take(i as int)[j]);
            }
            assert(dec_val(s@.take(i as int + 1)) == val * 10 + d);
        }
        if val > (u64::MAX - d as u64) / 10 {
            proof {
                assert(val * 10 + d > u64::MAX) by {
                    assert(val >= (u64::MAX - d as u64) / 10 + 1);
                };
                if all_digits(s@) {
                    lemma_dec_val_prefix_le(s@, i as int + 1);
                }
            }
            return None;
        }
        assert(val * 10 + d <= u64::MAX) by {
            assert(val <= (u64::MAX - d as u64) / 10);
        };
        val = val * 10 + d as u64;
        i += 1;
    }
    proof {
        assert(s@.take(len as int) =~= s@);
    }
    Some(val)
}

} // verus!
