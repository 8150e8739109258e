//! Percent-encoding of free-text query parameters.
//!
//! Unreserved characters pass through; every other character is written as
//! the `%XX` form of each byte of its UTF-8 encoding, with upper-case hex
//! digits. User-supplied strings always pass through here before they are
//! concatenated into a URL.

use vstd::prelude::*;

use crate::digits::is_digit;

verus! {

/// The characters a query string may carry unencoded.
pub open spec fn is_unreserved(c: char) -> bool {
    ||| 'A' <= c && c <= 'Z'
    ||| 'a' <= c && c <= 'z'
    ||| is_digit(c)
    ||| c == '-'
    ||| c == '_'
    ||| c == '.'
    ||| c == '~'
}

pub open spec fn hex_char(d: int) -> char {
    if d < 10 {
        crate::digits::digit_char(d)
    } else if d == 10 {
        'A'
    } else if d == 11 {
        'B'
    } else if d == 12 {
        'C'
    } else if d == 13 {
        'D'
    } else if d == 14 {
        'E'
    } else {
        'F'
    }
}

/// The UTF-8 encoding of one character, derived arithmetically from its
/// code point.
pub open spec fn utf8_bytes(c: char) -> Seq<u8> {
    let u = c as int;
    if u < 0x80 {
        seq![u as u8]
    } else if u < 0x800 {
        seq![(0xC0 + u / 64) as u8, (0x80 + u % 64) as u8]
    } else if u < 0x10000 {
        seq![(0xE0 + u / 4096) as u8, (0x80 + (u / 64) % 64) as u8, (0x80 + u % 64) as u8]
    } else {
        seq![
            (0xF0 + u / 262144) as u8,
            (0x80 + (u / 4096) % 64) as u8,
            (0x80 + (u / 64) % 64) as u8,
            (0x80 + u % 64) as u8,
        ]
    }
}

/// `%XX`, the escape of one byte.
pub open spec fn pct_byte(b: u8) -> Seq<char> {
    seq!['%', hex_char(b as int / 16), hex_char(b as int % 16)]
}

/// The escapes of a byte string, concatenated.
pub open spec fn pct_bytes(bs: Seq<u8>) -> Seq<char>
    decreases bs.len(),
{
    if bs.len() == 0 {
        seq![]
    } else {
        pct_bytes(bs.drop_last()) + pct_byte(bs.last())
    }
}

/// How one character appears in an encoded query string.
pub open spec fn encode_char(c: char) -> Seq<char> {
    if is_unreserved(c) {
        seq![c]
    } else {
        pct_bytes(utf8_bytes(c))
    }
}

/// The percent-encoded form of a whole string.
pub open spec fn encode_str(s: Seq<char>) -> Seq<char>
    decreases s.len(),
{
    if s.len() == 0 {
        seq![]
    } else {
        encode_str(s.drop_last()) + encode_char(s.last())
    }
}

fn hex_str(d: u32) -> (r: &'static str)
    requires
        d < 16,
    ensures
        r@ =~= seq![hex_char(d as int)],
{
    proof {
        reveal_strlit("0");
        reveal_strlit("1");
        reveal_strlit("2");
        reveal_strlit("3");
        reveal_strlit("4");
        reveal_strlit("5");
        reveal_strlit("6");
        reveal_strlit("7");
        reveal_strlit("8");
        reveal_strlit("9");
        reveal_strlit("A");
        reveal_strlit("B");
        reveal_strlit("C");
        reveal_strlit("D");
        reveal_strlit("E");
        reveal_strlit("F");
    }
    if d == 0 {
        "0"
    } else if d == 1 {
        "1"
    } else if d == 2 {
        "2"
    } else if d == 3 {
        "3"
    } else if d == 4 {
        "4"
    } else if d == 5 {
        "5"
    } else if d == 6 {
        "6"
    } else if d == 7 {
        "7"
    } else if d == 8 {
        "8"
    } else if d == 9 {
        "9"
    } else if d == 10 {
        "A"
    } else if d == 11 {
        "B"
    } else if d == 12 {
        "C"
    } else if d == 13 {
        "D"
    } else if d == 14 {
        "E"
    } else {
        "F"
    }
}

fn push_pct_byte(out: &mut String, b: u32)
    requires
        b < 256,
    ensures
        final(out)@ == old(out)@ + pct_byte(b as u8),
{
    proof {
        reveal_strlit("%");
    }
    out.append("%");
    out.append(hex_str(b / 16));
    out.append(hex_str(b % 16));
    assert(final(out)@ =~= old(out)@ + pct_byte(b as u8));
}

fn is_unreserved_exec(c: char) -> (r: bool)
    ensures
        r == is_unreserved(c),
{
    ('A' <= c && c <= 'Z') || ('a' <= c && c <= 'z') || ('0' <= c && c <= '9') || c == '-' || c
        == '_' || c == '.' || c == '~'
}

proof fn lemma_pct_bytes_push(bs: Seq<u8>, b: u8)
    ensures
        pct_bytes(bs.push(b)) == pct_bytes(bs) + pct_byte(b),
{
    assert(bs.push(b).drop_last() =~= bs);
    assert(bs.push(b).last() == b);
}

proof fn lemma_pct_bytes_unfold(bs: Seq<u8>)
    requires
        1 <= bs.len() <= 4,
    ensures
        bs.len() == 1 ==> pct_bytes(bs) == pct_byte(bs[0]),
        bs.len() == 2 ==> pct_bytes(bs) == pct_byte(bs[0]) + pct_byte(bs[1]),
        bs.len() == 3 ==> pct_bytes(bs) == pct_byte(bs[0]) + pct_byte(bs[1]) + pct_byte(bs[2]),
        bs.len() == 4 ==> pct_bytes(bs) == pct_byte(bs[0]) + pct_byte(bs[1]) + pct_byte(bs[2])
            + pct_byte(bs[3]),
    decreases bs.len(),
{
    let e = Seq::<u8>::empty();
    assert(pct_bytes(e) =~= Seq::<char>::empty());
    if bs.len() == 1 {
        assert(bs =~= e.push(bs[0]));
        lemma_pct_bytes_push(e, bs[0]);
        assert(pct_bytes(bs) =~= pct_byte(bs[0]));
    } else if bs.len() == 2 {
        assert(bs.drop_last() =~= e.push(bs[0]));
        lemma_pct_bytes_unfold(bs.drop_last());
        assert(pct_bytes(bs) == pct_bytes(bs.drop_last()) + pct_byte(bs[1]));
    } else if bs.len() == 3 {
        lemma_pct_bytes_unfold(bs.drop_last());
        assert(bs.drop_last()[0] == bs[0] && bs.drop_last()[1] == bs[1]);
        assert(pct_bytes(bs) == pct_bytes(bs.drop_last()) + pct_byte(bs[2]));
    } else {
        lemma_pct_bytes_unfold(bs.drop_last());
        assert(bs.drop_last()[0] == bs[0] && bs.drop_last()[1] == bs[1] && bs.drop_last()[2]
            == bs[2]);
        assert(pct_bytes(bs) == pct_bytes(bs.drop_last()) + pct_byte(bs[3]));
    }
}

/// Appends `encode_char(c)` to `out`, for a character that must be escaped.
fn push_encoded_char(out: &mut String, c: char)
    requires
        !is_unreserved(c),
    ensures
        final(out)@ == old(out)@ + encode_char(c),
{
    let u = c as u32;
    proof {
        lemma_pct_bytes_unfold(utf8_bytes(c));
    }
    if u < 0x80 {
        push_pct_byte(out, u);
        assert(final(out)@ =~= old(out)@ + encode_char(c));
    } else if u < 0x800 {
        push_pct_byte(out, 0xC0 + u / 64);
        push_pct_byte(out, 0x80 + u % 64);
        assert(final(out)@ =~= old(out)@ + encode_char(c));
    } else if u < 0x10000 {
        push_pct_byte(out, 0xE0 + u / 4096);
        push_pct_byte(out, 0x80 + (u / 64) % 64);
        push_pct_byte(out, 0x80 + u % 64);
        assert(final(out)@ =~= old(out)@ + encode_char(c));
    } else {
        push_pct_byte(out, 0xF0 + u / 262144);
        push_pct_byte(out, 0x80 + (u / 4096) % 64);
        push_pct_byte(out, 0x80 + (u / 64) % 64);
        push_pct_byte(out, 0x80 + u % 64);
        assert(final(out)@ =~= old(out)@ + encode_char(c));
    }
}

proof fn lemma_encode_str_push(s: Seq<char>, c: char)
    ensures
        encode_str(s.push(c)) == encode_str(s) + encode_char(c),
{
    assert(s.push(c).drop_last() =~= s);
    assert(s.push(c).last() == c);
}

/// Percent-encodes a string for use as a URL query parameter.
pub fn percent_encode(s: &str) -> (r: String)
    ensures
        r@ == encode_str(s@),
{
    let len = s.unicode_len();
    let mut out = String::new();
    let mut i: usize = 0;
    while i < len
        invariant
            0 <= i <= len,
            len == s@.len(),
            out@ == encode_str(s@.take(i as int)),
        decreases len - i,
    {
        let c = s.get_char(i);
        if is_unreserved_exec(c) {
            let piece = s.substring_char(i, i + 1);
            assert(piece@ =~= seq![c]);
            out.append(piece);
        } else {
            push_encoded_char(&mut out, c);
        }
        proof {
            assert(s@.take(i as int + 1) =~= s@.take(i as int).push(c));
            lemma_encode_str_push(s@.take(i as int), c);
        }
        i += 1;
    }
    proof {
        assert(s@.take(len as int) =~= s@);
    }
    out
}

/// Every character that percent-encoding emits is unreserved, a `%`, or an
/// upper-case hex digit — in particular no space, `&`, `=`, `?` or `#`
/// survives, so an encoded parameter cannot disturb the query structure
/// around it.
pub open spec fn is_url_safe(c: char) -> bool {
    is_unreserved(c) || c == '%' || ('A' <= c && c <= 'F')
}

proof fn lemma_pct_byte_safe(b: u8)
    ensures
        forall|i: int| 0 <= i < pct_byte(b).len() ==> is_url_safe(#[trigger] pct_byte(b)[i]),
{
}

proof fn lemma_pct_bytes_safe(bs: Seq<u8>)
    ensures
        forall|i: int| 0 <= i < pct_bytes(bs).len() ==> is_url_safe(#[trigger] pct_bytes(bs)[i]),
    decreases bs.len(),
{
    if bs.len() > 0 {
        lemma_pct_bytes_safe(bs.drop_last());
        lemma_pct_byte_safe(bs.last());
        let a = pct_bytes(bs.drop_last());
        let b = pct_byte(bs.last());
        assert forall|i: int| 0 <= i < pct_bytes(bs).len() implies is_url_safe(
            #[trigger] pct_bytes(bs)[i],
        ) by {
            assert(pct_bytes(bs) == a + b);
            if i < a.len() {
                assert(pct_bytes(bs)[i] == a[i]);
            } else {
                assert(pct_bytes(bs)[i] == b[i - a.len()]);
            }
        }
    }
}

proof fn lemma_encode_str_head(s: Seq<char>)
    requires
        s.len() > 0,
    ensures
        encode_str(s) == encode_char(s[0]) + encode_str(s.drop_first()),
    decreases s.len(),
{
    if s.len() == 1 {
        assert(s.drop_last() =~= Seq::<char>::empty());
        assert(s.drop_first() =~= Seq::<char>::empty());
        assert(encode_str(Seq::<char>::empty()) =~= Seq::<char>::empty());
        assert(encode_str(s) =~= encode_char(s[0]) + encode_str(s.drop_first()));
    } else {
        lemma_encode_str_head(s.drop_last());
        assert(s.drop_last()[0] == s[0]);
        assert(s.drop_last().drop_first() =~= s.drop_first().drop_last());
        assert(s.drop_first().last() == s.last());
        assert(encode_str(s) == encode_str(s.drop_last()) + encode_char(s.last()));
        assert(encode_str(s.drop_first()) == encode_str(s.drop_first().drop_last()) + encode_char(
            s.drop_first().last(),
        ));
        assert(encode_str(s) =~= encode_char(s[0]) + encode_str(s.drop_first()));
    }
}

proof fn lemma_pct_bytes_len(bs: Seq<u8>)
    ensures
        pct_bytes(bs).len() == 3 * bs.len(),
    decreases bs.len(),
{
    if bs.len() > 0 {
        lemma_pct_bytes_len(bs.drop_last());
    }
}

proof fn lemma_hex_char_inj(d1: int, d2: int)
    requires
        0 <= d1 < 16,
        0 <= d2 < 16,
        hex_char(d1) == hex_char(d2),
    ensures
        d1 == d2,
{
}

proof fn lemma_pct_byte_inj(b1: u8, b2: u8)
    requires
        pct_byte(b1) == pct_byte(b2),
    ensures
        b1 == b2,
{
    assert(pct_byte(b1)[1] == pct_byte(b2)[1]);
    assert(pct_byte(b1)[2] == pct_byte(b2)[2]);
    lemma_hex_char_inj(b1 as int / 16, b2 as int / 16);
    lemma_hex_char_inj(b1 as int % 16, b2 as int % 16);
}

proof fn lemma_seq_concat_eq_split<A>(x: Seq<A>, y: Seq<A>, u: Seq<A>, v: Seq<A>)
    requires
        x + y == u + v,
        x.len() == u.len(),
    ensures
        x == u,
        y == v,
{
    assert forall|i: int| 0 <= i < x.len() implies x[i] == u[i] by {
        assert((x + y)[i] == x[i]);
        assert((u + v)[i] == u[i]);
    }
    assert(x =~= u);
    assert((x + y).len() == x.len() + y.len());
    assert((u + v).len() == u.len() + v.len());
    assert(y.len() == v.len());
    assert forall|i: int| 0 <= i < y.len() implies y[i] == v[i] by {
        assert((x + y)[x.len() + i] == y[i]);
        assert((u + v)[u.len() + i] == v[i]);
    }
    assert(y =~= v);
}

proof fn lemma_pct_bytes_inj(bs1: Seq<u8>, bs2: Seq<u8>)
    requires
        pct_bytes(bs1) == pct_bytes(bs2),
    ensures
        bs1 == bs2,
    decreases bs1.len(),
{
    lemma_pct_bytes_len(bs1);
    lemma_pct_bytes_len(bs2);
    if bs1.len() == 0 {
        assert(bs1 =~= bs2);
    } else {
        assert(pct_bytes(bs1) == pct_bytes(bs1.drop_last()) + pct_byte(bs1.last()));
        assert(pct_bytes(bs2) == pct_bytes(bs2.drop_last()) + pct_byte(bs2.last()));
        lemma_pct_bytes_len(bs1.drop_last());
        lemma_pct_bytes_len(bs2.drop_last());
        lemma_seq_concat_eq_split(
            pct_bytes(bs1.drop_last()),
            pct_byte(bs1.last()),
            pct_bytes(bs2.drop_last()),
            pct_byte(bs2.last()),
        );
        lemma_pct_byte_inj(bs1.last(), bs2.last());
        lemma_pct_bytes_inj(bs1.drop_last(), bs2.drop_last());
        assert(bs1 =~= bs1.drop_last().push(bs1.last()));
        assert(bs2 =~= bs2.drop_last().push(bs2.last()));
        assert(bs1 =~= bs2);
    }
}

/// The first UTF-8 byte fixes how many bytes the character takes.
proof fn lemma_utf8_first_byte(c: char)
    ensures
        1 <= utf8_bytes(c).len() <= 4,
        utf8_bytes(c).len() == 1 <==> utf8_bytes(c)[0] < 0x80,
        utf8_bytes(c).len() == 2 <==> 0xC0 <= utf8_bytes(c)[0] < 0xE0,
        utf8_bytes(c).len() == 3 <==> 0xE0 <= utf8_bytes(c)[0] < 0xF0,
        utf8_bytes(c).len() == 4 <==> 0xF0 <= utf8_bytes(c)[0],
{
    let u = c as int;
    assert(u <= 0x10FFFF);
    if u < 0x80 {
    } else if u < 0x800 {
        assert(2 <= u / 64 < 32);
    } else if u < 0x10000 {
        assert(0 <= u / 4096 < 16);
    } else {
        assert(0 <= u / 262144 <= 4);
    }
}

proof fn lemma_utf8_inj(c1: char, c2: char)
    requires
        utf8_bytes(c1) == utf8_bytes(c2),
    ensures
        c1 == c2,
{
    let u1 = c1 as int;
    let u2 = c2 as int;
    lemma_utf8_first_byte(c1);
    lemma_utf8_first_byte(c2);
    let bs = utf8_bytes(c1);
    if u1 < 0x80 {
        assert(utf8_bytes(c1)[0] == u1 as u8);
        assert(utf8_bytes(c2)[0] == u2 as u8);
    } else if u1 < 0x800 {
        assert(bs[0] == (0xC0 + u1 / 64) as u8 && bs[1] == (0x80 + u1 % 64) as u8);
        assert(utf8_bytes(c2)[0] == (0xC0 + u2 / 64) as u8);
        assert(utf8_bytes(c2)[1] == (0x80 + u2 % 64) as u8);
        assert(u1 / 64 == u2 / 64 && u1 % 64 == u2 % 64);
        assert(u1 == 64 * (u1 / 64) + u1 % 64);
        assert(u2 == 64 * (u2 / 64) + u2 % 64);
    } else if u1 < 0x10000 {
        assert(bs[0] == (0xE0 + u1 / 4096) as u8);
        assert(bs[1] == (0x80 + (u1 / 64) % 64) as u8);
        assert(bs[2] == (0x80 + u1 % 64) as u8);
        assert(utf8_bytes(c2)[0] == (0xE0 + u2 / 4096) as u8);
        assert(utf8_bytes(c2)[1] == (0x80 + (u2 / 64) % 64) as u8);
        assert(utf8_bytes(c2)[2] == (0x80 + u2 % 64) as u8);
        assert(u1 / 4096 == u2 / 4096 && (u1 / 64) % 64 == (u2 / 64) % 64 && u1 % 64 == u2 % 64);
        assert(u1 / 64 == 64 * (u1 / 64 / 64) + (u1 / 64) % 64);
        assert(u1 / 64 / 64 == u1 / 4096) by (nonlinear_arith);
        assert(u2 / 64 / 64 == u2 / 4096) by (nonlinear_arith);
        assert(u1 / 64 == u2 / 64);
        assert(u1 == 64 * (u1 / 64) + u1 % 64);
        assert(u2 == 64 * (u2 / 64) + u2 % 64);
    } else {
        assert(bs[0] == (0xF0 + u1 / 262144) as u8);
        assert(bs[1] == (0x80 + (u1 / 4096) % 64) as u8);
        assert(bs[2] == (0x80 + (u1 / 64) % 64) as u8);
        assert(bs[3] == (0x80 + u1 % 64) as u8);
        assert(utf8_bytes(c2)[0] == (0xF0 + u2 / 262144) as u8);
        assert(utf8_bytes(c2)[1] == (0x80 + (u2 / 4096) % 64) as u8);
        assert(utf8_bytes(c2)[2] == (0x80 + (u2 / 64) % 64) as u8);
        assert(utf8_bytes(c2)[3] == (0x80 + u2 % 64) as u8);
        assert(u1 / 262144 == u2 / 262144 && (u1 / 4096) % 64 == (u2 / 4096) % 64 && (u1 / 64) % 64
            == (u2 / 64) % 64 && u1 % 64 == u2 % 64);
        assert(u1 / 4096 / 64 == u1 / 262144) by (nonlinear_arith);
        assert(u2 / 4096 / 64 == u2 / 262144) by (nonlinear_arith);
        assert(u1 / 4096 == 64 * (u1 / 4096 / 64) + (u1 / 4096) % 64);
        assert(u2 / 4096 == 64 * (u2 / 4096 / 64) + (u2 / 4096) % 64);
        assert(u1 / 4096 == u2 / 4096);
        assert(u1 / 64 / 64 == u1 / 4096) by (nonlinear_arith);
        assert(u2 / 64 / 64 == u2 / 4096) by (nonlinear_arith);
        assert(u1 / 64 == 64 * (u1 / 64 / 64) + (u1 / 64) % 64);
        assert(u2 / 64 == 64 * (u2 / 64 / 64) + (u2 / 64) % 64);
        assert(u1 / 64 == u2 / 64);
        assert(u1 == 64 * (u1 / 64) + u1 % 64);
        assert(u2 == 64 * (u2 / 64) + u2 % 64);
    }
    assert(u1 == u2);
}

/// The shape of an escaped character's encoding: a `%`, then the hex
/// digits of its first UTF-8 byte, three encoded characters per byte.
proof fn lemma_encode_char_escaped(c: char)
    requires
        !is_unreserved(c),
    ensures
        encode_char(c).len() == 3 * utf8_bytes(c).len(),
        encode_char(c)[0] == '%',
        encode_char(c)[1] == hex_char(utf8_bytes(c)[0] as int / 16),
        encode_char(c)[2] == hex_char(utf8_bytes(c)[0] as int % 16),
{
    lemma_utf8_first_byte(c);
    lemma_pct_bytes_len(utf8_bytes(c));
    lemma_pct_bytes_unfold(utf8_bytes(c));
    let b0 = utf8_bytes(c)[0];
    assert(encode_char(c)[0] == pct_byte(b0)[0]);
    assert(encode_char(c)[1] == pct_byte(b0)[1]);
    assert(encode_char(c)[2] == pct_byte(b0)[2]);
}

/// The decodability law of the encoder: the encoding is injective, so an
/// encoded query parameter determines the original text — the decoding
/// direction of the query round trip.
pub proof fn lemma_encode_str_injective(a: Seq<char>, b: Seq<char>)
    requires
        encode_str(a) == encode_str(b),
    ensures
        a == b,
    decreases a.len(),
{
    if a.len() == 0 {
        if b.len() > 0 {
            lemma_encode_str_head(b);
            assert(encode_str(Seq::<char>::empty()) =~= Seq::<char>::empty());
            if is_unreserved(b[0]) {
            } else {
                lemma_encode_char_escaped(b[0]);
            }
            assert(encode_str(b).len() > 0);
            assert(false);
        }
        assert(a =~= b);
    } else if b.len() == 0 {
        lemma_encode_str_head(a);
        assert(encode_str(Seq::<char>::empty()) =~= Seq::<char>::empty());
        if is_unreserved(a[0]) {
        } else {
            lemma_encode_char_escaped(a[0]);
        }
        assert(encode_str(a).len() > 0);
        assert(false);
    } else {
        lemma_encode_str_head(a);
        lemma_encode_str_head(b);
        let c1 = a[0];
        let c2 = b[0];
        let e = encode_str(a);
        if is_unreserved(c1) && is_unreserved(c2) {
            assert(e[0] == c1);
            assert(e[0] == c2);
        } else if is_unreserved(c1) && !is_unreserved(c2) {
            lemma_encode_char_escaped(c2);
            assert(e[0] == c1 && e[0] == '%');
            assert(false);
        } else if !is_unreserved(c1) && is_unreserved(c2) {
            lemma_encode_char_escaped(c1);
            assert(e[0] == c2 && e[0] == '%');
            assert(false);
        } else {
            lemma_encode_char_escaped(c1);
            lemma_encode_char_escaped(c2);
            assert(e[1] == hex_char(utf8_bytes(c1)[0] as int / 16));
            assert(e[1] == hex_char(utf8_bytes(c2)[0] as int / 16));
            assert(e[2] == hex_char(utf8_bytes(c1)[0] as int % 16));
            assert(e[2] == hex_char(utf8_bytes(c2)[0] as int % 16));
            lemma_hex_char_inj(
                utf8_bytes(c1)[0] as int / 16,
                utf8_bytes(c2)[0] as int / 16,
            );
            lemma_hex_char_inj(
                utf8_bytes(c1)[0] as int % 16,
                utf8_bytes(c2)[0] as int % 16,
            );
            assert(utf8_bytes(c1)[0] == utf8_bytes(c2)[0]);
            lemma_utf8_first_byte(c1);
            lemma_utf8_first_byte(c2);
            assert(utf8_bytes(c1).len() == utf8_bytes(c2).len());
            assert(encode_char(c1).len() == encode_char(c2).len());
            lemma_seq_concat_eq_split(
                encode_char(c1),
                encode_str(a.drop_first()),
                encode_char(c2),
                encode_str(b.drop_first()),
            );
            lemma_pct_bytes_inj(utf8_bytes(c1), utf8_bytes(c2));
            lemma_utf8_inj(c1, c2);
        }
        assert(c1 == c2);
        assert(encode_char(c1) == encode_char(c2));
        lemma_seq_concat_eq_split(
            encode_char(c1),
            encode_str(a.drop_first()),
            encode_char(c2),
            encode_str(b.drop_first()),
        );
        lemma_encode_str_injective(a.drop_first(), b.drop_first());
        assert(a =~= seq![c1] + a.drop_first());
        assert(b =~= seq![c2] + b.drop_first());
        assert(a =~= b);
    }
}

/// The safety law of the encoder: see `is_url_safe`.
pub proof fn lemma_encode_str_safe(s: Seq<char>)
    ensures
        forall|i: int| 0 <= i < encode_str(s).len() ==> is_url_safe(#[trigger] encode_str(s)[i]),
    decreases s.len(),
{
    if s.len() > 0 {
        lemma_encode_str_safe(s.drop_last());
        if !is_unreserved(s.last()) {
            lemma_pct_bytes_safe(utf8_bytes(s.last()));
        }
        let a = encode_str(s.drop_last());
        let b = encode_char(s.last());
        assert forall|i: int| 0 <= i < encode_str(s).len() implies is_url_safe(
            #[trigger] encode_str(s)[i],
        ) by {
            assert(encode_str(s) == a + b);
            if i < a.len() {
                assert(encode_str(s)[i] == a[i]);
            } else {
                assert(encode_str(s)[i] == b[i - a.len()]);
            }
        }
    }
}

} // verus!
