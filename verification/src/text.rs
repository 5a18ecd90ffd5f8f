use vstd::prelude::*;
use vstd::utf8::*;

verus! {

/// `heapless::String`, the fixed-capacity text buffer that each display line
/// is written into.
#[verifier::external_type_specification]
#[verifier::external_body]
pub struct ExHeaplessString<const N: usize>(heapless::String<N>);

/// The bytes held by a display-line buffer of capacity 32.
pub uninterp spec fn text_bytes(s: heapless::String<32>) -> Seq<u8>;

/// `heapless::String::<32>::new`: claims that the new buffer holds no byte.
#[verifier::external_body]
pub(crate) fn line_new() -> (s: heapless::String<32>)
    ensures
        text_bytes(s) == Seq::<u8>::empty(),
{
    heapless::String::new()
}

/// `heapless::String::<32>::push_str`: claims what its source shows, that the
/// UTF-8 bytes of `t` are appended when they fit in the remaining capacity
/// (and `Ok` is returned), and that otherwise nothing changes and `Err` is
/// returned.
#[verifier::external_body]
pub(crate) fn line_push_str(s: &mut heapless::String<32>, t: &str) -> (r: Result<(), ()>)
    ensures
        (r is Ok) == (text_bytes(*old(s)).len() + encode_utf8(t@).len() <= 32),
        r is Ok ==> text_bytes(*final(s)) == text_bytes(*old(s)) + encode_utf8(t@),
        r is Err ==> text_bytes(*final(s)) == text_bytes(*old(s)),
{
    s.push_str(t)
}

/// `heapless::String::<32>::push`: claims what its source shows, that the
/// UTF-8 encoding of `c` is appended when it fits in the remaining capacity
/// (and `Ok` is returned), and that otherwise nothing changes and `Err` is
/// returned.
#[verifier::external_body]
pub(crate) fn line_push(s: &mut heapless::String<32>, c: char) -> (r: Result<(), ()>)
    ensures
        (r is Ok) == (text_bytes(*old(s)).len() + encode_utf8(seq![c]).len() <= 32),
        r is Ok ==> text_bytes(*final(s)) == text_bytes(*old(s)) + encode_utf8(seq![c]),
        r is Err ==> text_bytes(*final(s)) == text_bytes(*old(s)),
{
    s.push(c)
}

} // verus!

verus! {

/// The bytes of an ASCII character sequence.
pub open spec fn ascii_bytes(cs: Seq<char>) -> Seq<u8> {
    cs.map_values(|c: char| c as u8)
}

/// ASCII code of the decimal digit `d` (0 to 9).
pub open spec fn digit_byte(d: int) -> u8 {
    (48 + d) as u8
}

/// Decimal representation of `n`, most significant digit first, without
/// leading zeros ("0" for zero).
pub open spec fn dec_bytes(n: nat) -> Seq<u8>
    decreases n,
{
    if n < 10 {
        seq![digit_byte(n as int)]
    } else {
        dec_bytes(n / 10).push(digit_byte((n % 10) as int))
    }
}

/// Exactly three decimal digits of `n`, with leading zeros (`n < 1000`).
pub open spec fn pad3_bytes(n: nat) -> Seq<u8> {
    seq![digit_byte((n / 100) as int), digit_byte(((n / 10) % 10) as int), digit_byte((n % 10) as int)]
}

/// `10` to the power `k`.
pub open spec fn pow10(k: nat) -> nat
    decreases k,
{
    if k == 0 {
        1
    } else {
        10 * pow10((k - 1) as nat)
    }
}

/// A number below 10^k has at most k decimal digits.
pub proof fn lemma_dec_len(n: nat, k: nat)
    requires
        n < pow10(k),
        k >= 1,
    ensures
        1 <= dec_bytes(n).len() <= k,
    decreases k,
{
    if n >= 10 {
        if k == 1 {
            assert(pow10(1) == 10) by {
                reveal_with_fuel(pow10, 2);
            }
        } else {
            assert(n / 10 < pow10((k - 1) as nat));
            lemma_dec_len(n / 10, (k - 1) as nat);
        }
    }
}

/// A `u32` has at most ten decimal digits.
pub proof fn lemma_dec_len_u32(n: u32)
    ensures
        1 <= dec_bytes(n as nat).len() <= 10,
{
    assert(pow10(10) == 10000000000) by {
        reveal_with_fuel(pow10, 11);
    }
    lemma_dec_len(n as nat, 10);
}

/// A `u16` has at most five decimal digits.
pub proof fn lemma_dec_len_u16(n: u16)
    ensures
        1 <= dec_bytes(n as nat).len() <= 5,
{
    assert(pow10(5) == 100000) by {
        reveal_with_fuel(pow10, 6);
    }
    lemma_dec_len(n as nat, 5);
}

proof fn lemma_ascii_encode(cs: Seq<char>)
    requires
        is_ascii_chars(cs),
    ensures
        encode_utf8(cs) == ascii_bytes(cs),
{
    is_ascii_chars_encode_utf8(cs);
    assert(encode_utf8(cs) =~= ascii_bytes(cs));
}

/// Appends the ASCII text `t`, which fits.
pub(crate) fn push_text(s: &mut heapless::String<32>, t: &str)
    requires
        is_ascii_chars(t@),
        text_bytes(*old(s)).len() + t@.len() <= 32,
    ensures
        text_bytes(*final(s)) == text_bytes(*old(s)) + ascii_bytes(t@),
{
    proof {
        lemma_ascii_encode(t@);
    }
    let _ = line_push_str(s, t);
}

/// Appends the digit `d`, which fits.
fn push_digit(s: &mut heapless::String<32>, d: u8)
    requires
        d < 10,
        text_bytes(*old(s)).len() + 1 <= 32,
    ensures
        text_bytes(*final(s)) == text_bytes(*old(s)).push(digit_byte(d as int)),
{
    let c = (48u8 + d) as char;
    proof {
        assert(is_ascii_chars(seq![c]));
        lemma_ascii_encode(seq![c]);
        assert(ascii_bytes(seq![c]) =~= seq![digit_byte(d as int)]);
    }
    let _ = line_push(s, c);
}

/// Appends the decimal representation of `n`, which fits.
pub(crate) fn push_decimal(s: &mut heapless::String<32>, n: u32)
    requires
        text_bytes(*old(s)).len() + dec_bytes(n as nat).len() <= 32,
    ensures
        text_bytes(*final(s)) == text_bytes(*old(s)) + dec_bytes(n as nat),
    decreases n,
{
    if n >= 10 {
        proof {
            lemma_dec_len_u32(n / 10);
        }
        push_decimal(s, n / 10);
        push_digit(s, (n % 10) as u8);
        assert(text_bytes(*s) =~= text_bytes(*old(s)) + dec_bytes(n as nat));
    } else {
        push_digit(s, n as u8);
        assert(text_bytes(*s) =~= text_bytes(*old(s)) + dec_bytes(n as nat));
    }
}

/// Appends exactly three digits of `n` (`n < 1000`), with leading zeros,
/// which fit.
pub(crate) fn push_decimal_pad3(s: &mut heapless::String<32>, n: u16)
    requires
        n < 1000,
        text_bytes(*old(s)).len() + 3 <= 32,
    ensures
        text_bytes(*final(s)) == text_bytes(*old(s)) + pad3_bytes(n as nat),
{
    push_digit(s, (n / 100) as u8);
    push_digit(s, ((n / 10) % 10) as u8);
    push_digit(s, (n % 10) as u8);
    assert(text_bytes(*s) =~= text_bytes(*old(s)) + pad3_bytes(n as nat));
}

} // verus!

verus! {

/// The number written by the decimal digits `s`, most significant first.
pub open spec fn digits_value(s: Seq<u8>) -> int
    decreases s.len(),
{
    if s.len() == 0 {
        0
    } else {
        digits_value(s.drop_last()) * 10 + (s.last() as int - 48)
    }
}

/// Every byte of `s` is an ASCII decimal digit.
pub open spec fn all_digits(s: Seq<u8>) -> bool {
    forall|i: int| 0 <= i < s.len() ==> 48 <= #[trigger] s[i] <= 57
}

/// The decimal text of `n` is made of digits, reads back as `n`, and has no
/// leading zero.
pub proof fn lemma_dec_bytes_value(n: nat)
    ensures
        all_digits(dec_bytes(n)),
        digits_value(dec_bytes(n)) == n,
        dec_bytes(n).len() >= 1,
        n >= 10 ==> dec_bytes(n)[0] != 48,
    decreases n,
{
    if n >= 10 {
        lemma_dec_bytes_value(n / 10);
        let d = dec_bytes(n);
        assert(d.drop_last() =~= dec_bytes(n / 10));
        assert(d[0] == dec_bytes(n / 10)[0]);
        assert(d.last() as int == 48 + n % 10);
        assert(digits_value(d) == digits_value(d.drop_last()) * 10 + (d.last() as int - 48));
        assert((n / 10) * 10 + n % 10 == n);
    } else {
        let d = dec_bytes(n);
        assert(d.drop_last() =~= Seq::<u8>::empty());
        assert(d.last() as int == 48 + n);
        assert(digits_value(d) == digits_value(d.drop_last()) * 10 + (d.last() as int - 48));
    }
}

/// The three digits of `n < 1000` read back as `n`.
pub proof fn lemma_pad3_value(n: nat)
    requires
        n < 1000,
    ensures
        all_digits(pad3_bytes(n)),
        digits_value(pad3_bytes(n)) == n,
        pad3_bytes(n).len() == 3,
{
    let p = pad3_bytes(n);
    let p1 = p.drop_last();
    let p2 = p1.drop_last();
    assert(p2.drop_last() =~= Seq::<u8>::empty());
    assert(p2 =~= seq![p[0]]);
    assert(p1 =~= seq![p[0], p[1]]);
    assert(p[0] as int == 48 + n / 100);
    assert(p[1] as int == 48 + (n / 10) % 10);
    assert(p[2] as int == 48 + n % 10);
    assert(digits_value(p2.drop_last()) == 0);
    assert(p2.last() == p[0]);
    assert(digits_value(p2) == digits_value(p2.drop_last()) * 10 + (p2.last() as int - 48));
    assert(p1.last() == p[1]);
    assert(p.last() == p[2]);
    assert(digits_value(p1) == digits_value(p2) * 10 + (p[1] as int - 48));
    assert(digits_value(p) == digits_value(p1) * 10 + (p[2] as int - 48));
    assert((n / 100) * 100 + ((n / 10) % 10) * 10 + n % 10 == n);
}

} // verus!
