//! Decimal rendering of the integers that name a container: process ids in
//! paths and in the pipe handshake, and cgroup control values.

use vstd::prelude::*;

verus! {

/// The ASCII digit character for a value below ten.
pub open spec fn digit_char(d: nat) -> char {
    if d == 0 {
        '0'
    } else if d == 1 {
        '1'
    } else if d == 2 {
        '2'
    } else if d == 3 {
        '3'
    } else if d == 4 {
        '4'
    } else if d == 5 {
        '5'
    } else if d == 6 {
        '6'
    } else if d == 7 {
        '7'
    } else if d == 8 {
        '8'
    } else {
        '9'
    }
}

/// The decimal rendering of `n`: most significant digit first, no sign, no
/// leading zeroes, a single `'0'` for zero.
pub open spec fn dec_chars(n: nat) -> Seq<char>
    decreases n,
{
    if n < 10 {
        seq![digit_char(n)]
    } else {
        dec_chars(n / 10) + seq![digit_char(n % 10)]
    }
}

fn digit_str(d: u64) -> (r: &'static str)
    requires
        d < 10,
    ensures
        r@ == seq![digit_char(d as nat)],
{
    proof {
        reveal_strlit("0");
        reveal_strlit("1");
        reveal_strlit("2");
        reveal_strlit("3");
        reveal_strlit("4");
        reveal_strlit("5");
        reveal_strlit("6");
        reveal_strlit("7");
        reveal_strlit("8");
        reveal_strlit("9");
    }
    let r = match d {
        0 => "0",
        1 => "1",
        2 => "2",
        3 => "3",
        4 => "4",
        5 => "5",
        6 => "6",
        7 => "7",
        8 => "8",
        _ => "9",
    };
    proof {
        assert(r@ =~= seq![digit_char(d as nat)]);
    }
    r
}

/// Renders `n` in decimal, the form every name and message of this runtime
/// uses for an integer.
pub fn dec_string(n: u64) -> (r: String)
    ensures
        r@ == dec_chars(n as nat),
    decreases n,
{
    if n < 10 {
        digit_str(n).to_owned()
    } else {
        let r = dec_string(n / 10).concat(digit_str(n % 10));
        proof {
            assert(r@ =~= dec_chars(n as nat));
        }
        r
    }
}

/// The ASCII byte of the digit character for a value below ten.
pub open spec fn digit_byte(d: nat) -> u8 {
    (48 + d) as u8
}

/// The decimal rendering of `n` as ASCII bytes, matching `dec_chars` byte for
/// byte.
pub open spec fn dec_bytes_spec(n: nat) -> Seq<u8>
    decreases n,
{
    if n < 10 {
        seq![digit_byte(n)]
    } else {
        dec_bytes_spec(n / 10) + seq![digit_byte(n % 10)]
    }
}

/// Renders `n` in decimal as ASCII bytes, the wire form of the pid handshake.
pub fn dec_bytes(n: u64) -> (r: Vec<u8>)
    ensures
        r@ == dec_bytes_spec(n as nat),
    decreases n,
{
    if n < 10 {
        let mut r: Vec<u8> = Vec::new();
        r.push(48 + (n as u8));
        proof {
            assert(r@ =~= dec_bytes_spec(n as nat));
        }
        r
    } else {
        let mut r = dec_bytes(n / 10);
        r.push(48 + ((n % 10) as u8));
        proof {
            assert(r@ =~= dec_bytes_spec(n as nat));
        }
        r
    }
}

/// An ASCII whitespace byte, the set a parse strips from either end.
pub open spec fn is_ws(b: u8) -> bool {
    b == 32 || (9 <= b && b <= 13)
}

/// An ASCII decimal digit byte.
pub open spec fn is_digit(b: u8) -> bool {
    48 <= b && b <= 57
}

/// The value of a digit byte.
pub open spec fn digit_val(b: u8) -> nat {
    (b - 48) as nat
}

pub open spec fn all_digits(s: Seq<u8>) -> bool {
    forall|i: int| 0 <= i < s.len() ==> is_digit(#[trigger] s[i])
}

/// The number a digit string denotes, most significant digit first.
pub open spec fn digits_val(s: Seq<u8>) -> nat
    decreases s.len(),
{
    if s.len() == 0 {
        0
    } else {
        digits_val(s.drop_last()) * 10 + digit_val(s.last())
    }
}

/// `s` with leading ASCII whitespace removed.
pub open spec fn trim_front(s: Seq<u8>) -> Seq<u8>
    decreases s.len(),
{
    if s.len() > 0 && is_ws(s[0]) {
        trim_front(s.drop_first())
    } else {
        s
    }
}

/// `s` with trailing ASCII whitespace removed.
pub open spec fn trim_back(s: Seq<u8>) -> Seq<u8>
    decreases s.len(),
{
    if s.len() > 0 && is_ws(s.last()) {
        trim_back(s.drop_last())
    } else {
        s
    }
}

/// `s` with ASCII whitespace removed from both ends.
pub open spec fn trimmed(s: Seq<u8>) -> Seq<u8> {
    trim_back(trim_front(s))
}

/// What a parse of `s` yields: the denoted number, provided the bytes are a
/// nonempty run of decimal digits once surrounding whitespace is stripped and
/// the value fits a signed 64-bit integer; nothing otherwise.
pub open spec fn parse_spec(s: Seq<u8>) -> Option<i64> {
    let t = trimmed(s);
    if t.len() > 0 && all_digits(t) && digits_val(t) <= i64::MAX {
        Some(digits_val(t) as i64)
    } else {
        None
    }
}

proof fn lemma_trim_front_range(s: Seq<u8>) -> (k: int)
    ensures
        0 <= k <= s.len(),
        trim_front(s) =~= s.subrange(k, s.len() as int),
        forall|i: int| 0 <= i < k ==> is_ws(#[trigger] s[i]),
        k < s.len() ==> !is_ws(s[k]),
    decreases s.len(),
{
    if s.len() > 0 && is_ws(s[0]) {
        let k0 = lemma_trim_front_range(s.drop_first());
        assert(s.drop_first().subrange(k0, s.drop_first().len() as int) =~= s.subrange(
            k0 + 1,
            s.len() as int,
        ));
        assert forall|i: int| 0 <= i < k0 + 1 implies is_ws(#[trigger] s[i]) by {
            if i > 0 {
                assert(s.drop_first()[i - 1] == s[i]);
            }
        }
        k0 + 1
    } else {
        0
    }
}

proof fn lemma_trim_back_range(s: Seq<u8>) -> (k: int)
    ensures
        0 <= k <= s.len(),
        trim_back(s) =~= s.subrange(0, k),
        forall|i: int| k <= i < s.len() ==> is_ws(#[trigger] s[i]),
        k > 0 ==> !is_ws(s[k - 1]),
    decreases s.len(),
{
    if s.len() > 0 && is_ws(s.last()) {
        let k0 = lemma_trim_back_range(s.drop_last());
        assert(s.drop_last().subrange(0, k0) =~= s.subrange(0, k0));
        assert forall|i: int| k0 <= i < s.len() implies is_ws(#[trigger] s[i]) by {
            if i < s.len() - 1 {
                assert(s.drop_last()[i] == s[i]);
            }
        }
        k0
    } else {
        s.len() as int
    }
}

/// The digits of a prefix denote no more than the digits of the whole string.
proof fn lemma_digits_val_prefix_le(s: Seq<u8>, i: int)
    requires
        0 <= i <= s.len(),
    ensures
        digits_val(s.subrange(0, i)) <= digits_val(s),
    decreases s.len(),
{
    if i < s.len() {
        assert(s.drop_last().subrange(0, i) =~= s.subrange(0, i));
        lemma_digits_val_prefix_le(s.drop_last(), i);
    } else {
        assert(s.subrange(0, i) =~= s);
    }
}

/// Parses the decimal number in `bytes`: surrounding ASCII whitespace is
/// ignored, the rest must be one or more digits, and the value must fit.
/// This is the codec of the pipe handshake and of the persisted info record.
pub fn parse_number(bytes: &[u8]) -> (r: Option<i64>)
    ensures
        r == parse_spec(bytes@),
{
    let n = bytes.len();
    let mut lo: usize = 0;
    while lo < n && (bytes[lo] == 32 || (9 <= bytes[lo] && bytes[lo] <= 13))
        invariant
            0 <= lo <= n,
            n == bytes@.len(),
            forall|i: int| 0 <= i < lo ==> is_ws(#[trigger] bytes@[i]),
        decreases n - lo,
    {
        lo += 1;
    }
    let mut hi: usize = n;
    while hi > lo && (bytes[hi - 1] == 32 || (9 <= bytes[hi - 1] && bytes[hi - 1] <= 13))
        invariant
            lo <= hi <= n,
            n == bytes@.len(),
            forall|i: int| hi <= i < n ==> is_ws(#[trigger] bytes@[i]),
        decreases hi,
    {
        hi -= 1;
    }
    let ghost t = trimmed(bytes@);
    proof {
        let kf = lemma_trim_front_range(bytes@);
        assert(kf == lo);
        let u = trim_front(bytes@);
        assert(u =~= bytes@.subrange(lo as int, n as int));
        let kb = lemma_trim_back_range(u);
        if hi > lo {
            if lo + kb < hi {
                assert(is_ws(u[hi - 1 - lo]));
                assert(u[hi - 1 - lo] == bytes@[hi - 1]);
                assert(!is_ws(bytes@[hi - 1]));
                assert(false);
            }
            if lo + kb > hi {
                assert(!is_ws(u[kb - 1]));
                assert(u[kb - 1] == bytes@[lo + kb - 1]);
                assert(is_ws(bytes@[lo + kb - 1]));
                assert(false);
            }
        } else {
            if kb > 0 {
                assert(!is_ws(u[kb - 1]));
                assert(u[kb - 1] == bytes@[lo + kb - 1]);
                assert(is_ws(bytes@[lo + kb - 1]));
                assert(false);
            }
        }
        assert(lo + kb == hi);
        assert(t =~= bytes@.subrange(lo as int, hi as int));
    }
    if hi == lo {
        proof {
            assert(t.len() == 0);
        }
        return None;
    }
    let mut acc: u64 = 0;
    let mut i: usize = lo;
    while i < hi
        invariant
            lo <= i <= hi <= n,
            n == bytes@.len(),
            t == trimmed(bytes@),
            t =~= bytes@.subrange(lo as int, hi as int),
            all_digits(bytes@.subrange(lo as int, i as int)),
            acc == digits_val(bytes@.subrange(lo as int, i as int)),
            acc <= i64::MAX,
        decreases hi - i,
    {
        let b = bytes[i];
        if b < 48 || b > 57 {
            proof {
                assert(t[i - lo] == bytes@[i as int]);
                assert(!is_digit(t[i - lo]));
            }
            return None;
        }
        let d = (b - 48) as u64;
        if acc > (9223372036854775807u64 - d) / 10 {
            proof {
                let pref = bytes@.subrange(lo as int, i + 1);
                assert(pref.drop_last() =~= bytes@.subrange(lo as int, i as int));
                assert(digits_val(pref) == acc * 10 + d);
                assert(digits_val(pref) > i64::MAX);
                lemma_digits_val_prefix_le(t, i + 1 - lo);
                assert(t.subrange(0, i + 1 - lo) =~= pref);
            }
            return None;
        }
        acc = acc * 10 + d;
        i += 1;
        proof {
            let pref = bytes@.subrange(lo as int, i as int);
            assert(pref.drop_last() =~= bytes@.subrange(lo as int, i - 1));
            assert(all_digits(pref));
        }
    }
    proof {
        assert(bytes@.subrange(lo as int, hi as int) =~= t);
    }
    Some(acc as i64)
}

proof fn lemma_dec_bytes_shape(n: nat)
    ensures
        dec_bytes_spec(n).len() >= 1,
        all_digits(dec_bytes_spec(n)),
        digits_val(dec_bytes_spec(n)) == n,
    decreases n,
{
    if n < 10 {
        let s = dec_bytes_spec(n);
        assert(s == seq![digit_byte(n)]);
        assert(s.len() == 1);
        assert(s.last() == digit_byte(n));
        assert(s.drop_last() =~= Seq::<u8>::empty());
        assert(digits_val(s.drop_last()) == 0);
        assert(digit_val(digit_byte(n)) == n);
        assert(digits_val(s) == n);
    } else {
        lemma_dec_bytes_shape(n / 10);
        let s = dec_bytes_spec(n);
        assert(s.drop_last() =~= dec_bytes_spec(n / 10));
        assert(s.last() == digit_byte(n % 10));
        assert(digits_val(s) == (n / 10) * 10 + (n % 10));
        vstd::arithmetic::div_mod::lemma_fundamental_div_mod(n as int, 10);
        assert forall|i: int| 0 <= i < s.len() implies is_digit(#[trigger] s[i]) by {
            if i < s.len() - 1 {
                assert(s[i] == dec_bytes_spec(n / 10)[i]);
            }
        }
    }
}

/// The handshake codec is lossless: the decimal rendering of a process id,
/// sent over the synchronization pipe, parses back to that very id.
pub proof fn lemma_handshake_round_trip(n: u64)
    requires
        n <= i64::MAX,
    ensures
        parse_spec(dec_bytes_spec(n as nat)) == Some(n as i64),
{
    let s = dec_bytes_spec(n as nat);
    lemma_dec_bytes_shape(n as nat);
    assert(!is_ws(s[0]));
    assert(trim_front(s) == s);
    assert(!is_ws(s.last()));
    assert(trim_back(s) == s);
}

/// The two decimal renderings agree: the wire form of a number is, byte for
/// byte, the ASCII encoding of its path form.
pub proof fn lemma_dec_renderings_agree(n: nat)
    ensures
        dec_bytes_spec(n).len() == dec_chars(n).len(),
        forall|i: int|
            0 <= i < dec_chars(n).len() ==> dec_bytes_spec(n)[i] == (dec_chars(n)[i] as u8),
    decreases n,
{
    if n < 10 {
        assert(dec_bytes_spec(n)[0] == (dec_chars(n)[0] as u8));
    } else {
        lemma_dec_renderings_agree(n / 10);
        let b = dec_bytes_spec(n);
        let c = dec_chars(n);
        assert forall|i: int| 0 <= i < c.len() implies b[i] == (c[i] as u8) by {
            if i < c.len() - 1 {
                assert(b[i] == dec_bytes_spec(n / 10)[i]);
                assert(c[i] == dec_chars(n / 10)[i]);
            } else {
                assert(b[i] == digit_byte(n % 10));
                assert(c[i] == digit_char(n % 10));
            }
        }
    }
}

/// The number a digit character string denotes; the character-level mirror of
/// `digits_val`.
pub open spec fn chars_val(s: Seq<char>) -> nat
    decreases s.len(),
{
    if s.len() == 0 {
        0
    } else {
        (chars_val(s.drop_last()) * 10 + (s.last() as int - 48)) as nat
    }
}

proof fn lemma_dec_chars_val(n: nat)
    ensures
        dec_chars(n).len() >= 1,
        chars_val(dec_chars(n)) == n,
    decreases n,
{
    if n < 10 {
        let s = dec_chars(n);
        assert(s == seq![digit_char(n)]);
        assert(s.len() == 1);
        assert(s.last() == digit_char(n));
        assert(s.drop_last() =~= Seq::<char>::empty());
        assert(chars_val(s.drop_last()) == 0);
        assert(digit_char(n) as int - 48 == n);
        assert(chars_val(s) == n);
    } else {
        lemma_dec_chars_val(n / 10);
        let s = dec_chars(n);
        assert(s.drop_last() =~= dec_chars(n / 10));
        assert(s.last() == digit_char(n % 10));
        assert(s.last() as int - 48 == n % 10);
        assert(chars_val(s) == (n / 10) * 10 + (n % 10));
        vstd::arithmetic::div_mod::lemma_fundamental_div_mod(n as int, 10);
    }
}

/// Distinct numbers render to distinct decimal strings; this is what keys
/// each container's on-disk directory to its own process id.
pub proof fn lemma_dec_chars_injective(m: nat, n: nat)
    requires
        dec_chars(m) == dec_chars(n),
    ensures
        m == n,
{
    lemma_dec_chars_val(m);
    lemma_dec_chars_val(n);
}

} // verus!
