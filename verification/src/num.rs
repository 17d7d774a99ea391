//! Decimal parsing and hexadecimal formatting of integers.
use vstd::prelude::*;

use crate::text::{chars_of, push_char};

verus! {

/// Whether every character is an ASCII decimal digit.
pub open spec fn all_digits(s: Seq<char>) -> bool {
    forall|i: int| 0 <= i < s.len() ==> '0' <= #[trigger] s[i] <= '9'
}

/// The value of a string of decimal digits.
pub open spec fn digits_value(s: Seq<char>) -> nat
    decreases s.len(),
{
    if s.len() == 0 {
        0
    } else {
        digits_value(s.drop_last()) * 10 + (s.last() as nat - '0' as nat) as nat
    }
}

/// The value `str::parse` gives an unsigned integer string: an optional `+`
/// followed by one or more ASCII digits.
pub open spec fn unsigned_value(s: Seq<char>) -> Option<nat> {
    let body = if s.len() > 0 && s[0] == '+' { s.drop_first() } else { s };
    if body.len() > 0 && all_digits(body) {
        Some(digits_value(body))
    } else {
        None
    }
}

/// The value `str::parse` gives a signed integer string: an optional `+` or `-`
/// followed by one or more ASCII digits.
pub open spec fn signed_value(s: Seq<char>) -> Option<int> {
    if s.len() > 0 && s[0] == '-' {
        let body = s.drop_first();
        if body.len() > 0 && all_digits(body) {
            Some(-(digits_value(body) as int))
        } else {
            None
        }
    } else {
        match unsigned_value(s) {
            Some(v) => Some(v as int),
            None => None,
        }
    }
}

proof fn lemma_digits_value_monotone(s: Seq<char>, k: int)
    requires
        0 <= k <= s.len(),
        all_digits(s),
    ensures
        digits_value(s.take(k)) <= digits_value(s),
    decreases s.len() - k,
{
    if k < s.len() {
        lemma_digits_value_monotone(s, k + 1);
        assert(s.take(k + 1).drop_last() =~= s.take(k));
    } else {
        assert(s.take(k) =~= s);
    }
}

/// The value of the digits `cs[from..]`, when they are all digits and the value is
/// at most `max`.
fn digits_at_most(cs: &Vec<char>, from: usize, max: u64) -> (r: Option<u64>)
    requires
        from <= cs@.len(),
    ensures
        ({
            let body = cs@.skip(from as int);
            match r {
                Some(v) => body.len() > 0 && all_digits(body) && v == digits_value(body) && v <= max,
                None => !(body.len() > 0 && all_digits(body) && digits_value(body) <= max),
            }
        }),
{
    let ghost body = cs@.skip(from as int);
    if from == cs.len() {
        return None;
    }
    let mut i = from;
    let mut v: u64 = 0;
    while i < cs.len()
        invariant
            from <= i <= cs@.len(),
            body == cs@.skip(from as int),
            all_digits(body.take(i - from)),
            v == digits_value(body.take(i - from)),
            v <= max,
        decreases cs@.len() - i,
    {
        let c = cs[i];
        proof {
            assert(body[i - from] == c);
        }
        if !('0' <= c && c <= '9') {
            proof {
                assert(!all_digits(body));
            }
            return None;
        }
        let d = (c as u32 - '0' as u32) as u64;
        proof {
            assert(body.take(i + 1 - from).drop_last() =~= body.take(i - from));
            assert(body.take(i + 1 - from).last() == c);
            assert(all_digits(body.take(i + 1 - from)));
        }
        if d > max || v > (max - d) / 10 {
            proof {
                assert(digits_value(body.take(i + 1 - from)) == v * 10 + d);
                assert(v * 10 + d > max) by (nonlinear_arith)
                    requires d > max || (d <= max && v > (max - d) / 10), v >= 0;
                if all_digits(body) {
                    lemma_digits_value_monotone(body, i + 1 - from);
                }
            }
            return None;
        }
        proof {
            assert(v * 10 + d <= max) by (nonlinear_arith)
                requires v <= (max - d) / 10, d <= max;
        }
        v = v * 10 + d;
        i = i + 1;
    }
    proof {
        assert(body.take(i - from) =~= body);
    }
    Some(v)
}

/// Parses an unsigned decimal integer as `str::parse::<u64>` does, accepting it only
/// when its value is at most `max`.
pub fn parse_unsigned(s: &str, max: u64) -> (r: Option<u64>)
    ensures
        match r {
            Some(v) => unsigned_value(s@) == Some(v as nat) && v <= max,
            None => !(unsigned_value(s@) matches Some(v) && v <= max),
        },
{
    let cs = chars_of(s);
    let from: usize = if cs.len() > 0 && cs[0] == '+' { 1 } else { 0 };
    proof {
        if from == 1 {
            assert(cs@.skip(1) =~= cs@.drop_first());
        } else {
            assert(cs@.skip(0) =~= cs@);
        }
    }
    digits_at_most(&cs, from, max)
}

/// What `str::parse::<i32>` gives for `s`: its value when it is a signed decimal
/// integer within the range of `i32`.
pub open spec fn i32_value(s: Seq<char>) -> Option<i32> {
    match signed_value(s) {
        Some(v) => if i32::MIN <= v <= i32::MAX {
            Some(v as i32)
        } else {
            None
        },
        None => None,
    }
}

/// Parses a signed decimal integer as `str::parse::<i32>` does.
pub fn parse_i32(s: &str) -> (r: Option<i32>)
    ensures
        r == i32_value(s@),
{
    let cs = chars_of(s);
    if cs.len() > 0 && cs[0] == '-' {
        proof {
            assert(cs@.skip(1) =~= cs@.drop_first());
        }
        match digits_at_most(&cs, 1, 2147483648) {
            Some(v) => Some((0 - (v as i64)) as i32),
            None => None,
        }
    } else {
        match parse_unsigned(s, 2147483647) {
            Some(v) => Some(v as i32),
            None => None,
        }
    }
}

/// The lowercase hexadecimal digit for `d < 16`.
pub open spec fn hex_digit(d: nat) -> char {
    if d < 10 { (('0' as nat) + d) as char } else { (('a' as nat) + d - 10) as char }
}

/// The lowercase hexadecimal digits of `n`, without leading zeros (empty for zero).
pub open spec fn hex_digits(n: nat) -> Seq<char>
    decreases n,
{
    if n == 0 {
        Seq::empty()
    } else {
        hex_digits(n / 16).push(hex_digit(n % 16))
    }
}

/// `n` in lowercase hexadecimal, zero-padded to at least `width` digits
/// (`format!("{:0width$x}", n)`).
pub open spec fn hex_padded(n: nat, width: nat) -> Seq<char> {
    let d = if n == 0 { seq!['0'] } else { hex_digits(n) };
    if d.len() < width {
        Seq::new((width - d.len()) as nat, |i: int| '0') + d
    } else {
        d
    }
}

fn hex_char(d: u64) -> (c: char)
    requires
        d < 16,
    ensures
        c == hex_digit(d as nat),
{
    if d < 10 {
        ((48 + d) as u8) as char
    } else {
        ((97 + d - 10) as u8) as char
    }
}

/// Formats `n` in lowercase hexadecimal, zero-padded to at least `width` digits.
pub fn format_hex_padded(n: u64, width: usize) -> (r: String)
    ensures
        r@ == hex_padded(n as nat, width as nat),
{
    let mut rev: Vec<char> = Vec::new();
    let mut m = n;
    while m > 0
        invariant
            hex_digits(n as nat) == hex_digits(m as nat) + rev@.reverse(),
        decreases m,
    {
        let c = hex_char(m % 16);
        proof {
            assert(rev@.push(c).reverse() =~= seq![c] + rev@.reverse());
            assert(hex_digits(m as nat) == hex_digits((m / 16) as nat).push(c));
            assert(hex_digits((m / 16) as nat).push(c) + rev@.reverse() =~= hex_digits((m / 16) as nat) + (seq![c] + rev@.reverse()));
        }
        rev.push(c);
        m = m / 16;
    }
    if n == 0 {
        rev.push('0');
    }
    let ghost d = if n == 0 { seq!['0'] } else { hex_digits(n as nat) };
    proof {
        if n != 0 {
            assert(hex_digits(0) =~= Seq::<char>::empty());
            assert(rev@.reverse() =~= d);
        } else {
            assert(rev@.reverse() =~= d);
        }
    }
    let mut r = String::new();
    let mut pad: usize = 0;
    let need: usize = if rev.len() < width { width - rev.len() } else { 0 };
    while pad < need
        invariant
            0 <= pad <= need,
            r@ == Seq::new(pad as nat, |i: int| '0'),
        decreases need - pad,
    {
        push_char(&mut r, '0');
        proof {
            assert(r@ =~= Seq::new((pad + 1) as nat, |i: int| '0'));
        }
        pad = pad + 1;
    }
    let mut k = rev.len();
    while k > 0
        invariant
            k <= rev@.len(),
            r@ == Seq::new(need as nat, |i: int| '0') + rev@.reverse().take(rev@.len() - k),
        decreases k,
    {
        proof {
            assert(rev@.reverse().take(rev@.len() - k + 1) =~= rev@.reverse().take(rev@.len() - k).push(rev@[k - 1]));
        }
        push_char(&mut r, rev[k - 1]);
        k = k - 1;
    }
    proof {
        assert(rev@.reverse().take(rev@.len() as int) =~= rev@.reverse());
        if d.len() >= width {
            assert(Seq::new(need as nat, |i: int| '0') =~= Seq::<char>::empty());
        }
        assert(r@ =~= hex_padded(n as nat, width as nat));
    }
    r
}

/// The decimal digits of `n`, without leading zeros (empty for zero).
pub open spec fn decimal_digits(n: nat) -> Seq<char>
    decreases n,
{
    if n == 0 {
        Seq::empty()
    } else {
        decimal_digits(n / 10).push((('0' as nat) + n % 10) as char)
    }
}

/// `n` in decimal (`n.to_string()`).
pub open spec fn decimal(n: nat) -> Seq<char> {
    if n == 0 {
        seq!['0']
    } else {
        decimal_digits(n)
    }
}

/// Formats `n` in decimal.
pub fn format_decimal(n: u64) -> (r: String)
    ensures
        r@ == decimal(n as nat),
{
    let mut rev: Vec<char> = Vec::new();
    let mut m = n;
    while m > 0
        invariant
            decimal_digits(n as nat) == decimal_digits(m as nat) + rev@.reverse(),
        decreases m,
    {
        let c = ((48 + m % 10) as u8) as char;
        proof {
            assert(c == (('0' as nat) + (m % 10) as nat) as char);
            assert(rev@.push(c).reverse() =~= seq![c] + rev@.reverse());
            assert(decimal_digits(m as nat) == decimal_digits((m / 10) as nat).push(c));
            assert(decimal_digits((m / 10) as nat).push(c) + rev@.reverse() =~= decimal_digits(
                (m / 10) as nat,
            ) + (seq![c] + rev@.reverse()));
        }
        rev.push(c);
        m = m / 10;
    }
    if n == 0 {
        rev.push('0');
    }
    proof {
        assert(decimal_digits(0) =~= Seq::<char>::empty());
        assert(rev@.reverse() =~= decimal(n as nat));
    }
    let mut r = String::new();
    let mut k = rev.len();
    while k > 0
        invariant
            k <= rev@.len(),
            r@ == rev@.reverse().take(rev@.len() - k),
        decreases k,
    {
        proof {
            assert(rev@.reverse().take(rev@.len() - k + 1) =~= rev@.reverse().take(
                rev@.len() - k,
            ).push(rev@[k - 1]));
        }
        push_char(&mut r, rev[k - 1]);
        k = k - 1;
    }
    proof {
        assert(rev@.reverse().take(rev@.len() as int) =~= rev@.reverse());
    }
    r
}

/// The value of a lowercase hexadecimal digit.
pub open spec fn hex_digit_value(c: char) -> nat {
    if '0' <= c && c <= '9' {
        (c as nat - '0' as nat) as nat
    } else {
        (c as nat - 'a' as nat + 10) as nat
    }
}

/// The value of a string of lowercase hexadecimal digits.
pub open spec fn hex_value(s: Seq<char>) -> nat
    decreases s.len(),
{
    if s.len() == 0 {
        0
    } else {
        hex_value(s.drop_last()) * 16 + hex_digit_value(s.last())
    }
}

proof fn lemma_hex_digits_value(n: nat)
    ensures
        hex_value(hex_digits(n)) == n,
    decreases n,
{
    if n > 0 {
        lemma_hex_digits_value(n / 16);
        let d = (n % 16) as nat;
        let c = hex_digit(d);
        assert(hex_digits(n).drop_last() == hex_digits(n / 16));
        assert(hex_digits(n).last() == c);
        if d < 10 {
            assert(c as nat == '0' as nat + d);
        } else {
            assert(c as nat == 'a' as nat + d - 10);
        }
        assert(hex_digit_value(c) == d);
    }
}

proof fn lemma_zeros_value(k: nat)
    ensures
        hex_value(Seq::new(k, |i: int| '0')) == 0,
    decreases k,
{
    if k > 0 {
        assert(Seq::new(k, |i: int| '0').drop_last() =~= Seq::new((k - 1) as nat, |i: int| '0'));
        lemma_zeros_value((k - 1) as nat);
    }
}

proof fn lemma_leading_zeros_value(k: nat, d: Seq<char>)
    ensures
        hex_value(Seq::new(k, |i: int| '0') + d) == hex_value(d),
    decreases d.len(),
{
    let z = Seq::new(k, |i: int| '0');
    if d.len() == 0 {
        assert(z + d =~= z);
        lemma_zeros_value(k);
    } else {
        assert((z + d).drop_last() =~= z + d.drop_last());
        assert((z + d).last() == d.last());
        lemma_leading_zeros_value(k, d.drop_last());
    }
}

/// Reading a zero-padded hexadecimal rendering back gives the number.
pub proof fn lemma_hex_padded_value(n: nat, width: nat)
    ensures
        hex_value(hex_padded(n, width)) == n,
{
    let d = if n == 0 {
        seq!['0']
    } else {
        hex_digits(n)
    };
    if n == 0 {
        assert(d.drop_last() =~= Seq::<char>::empty());
        assert(d.last() == '0');
        assert(hex_digit_value('0') == 0);
        assert(hex_value(Seq::<char>::empty()) == 0);
        assert(hex_value(d) == hex_value(d.drop_last()) * 16 + hex_digit_value(d.last()));
    } else {
        lemma_hex_digits_value(n);
    }
    if d.len() < width {
        lemma_leading_zeros_value((width - d.len()) as nat, d);
    }
}

/// Different numbers render differently, whatever the padding.
pub proof fn law_hex_padded_injective(a: nat, b: nat, width: nat)
    requires
        a != b,
    ensures
        hex_padded(a, width) != hex_padded(b, width),
{
    lemma_hex_padded_value(a, width);
    lemma_hex_padded_value(b, width);
}

proof fn lemma_decimal_digits(n: nat)
    ensures
        all_digits(decimal_digits(n)),
        digits_value(decimal_digits(n)) == n,
        n > 0 ==> decimal_digits(n).len() > 0,
    decreases n,
{
    if n > 0 {
        lemma_decimal_digits(n / 10);
        let d = decimal_digits(n);
        let c = (('0' as nat) + n % 10) as char;
        assert(d.drop_last() == decimal_digits(n / 10));
        assert(d.last() == c);
        assert(c as nat == '0' as nat + n % 10);
        assert forall|i: int| 0 <= i < d.len() implies '0' <= #[trigger] d[i] <= '9' by {
            if i < d.len() - 1 {
                assert(d[i] == decimal_digits(n / 10)[i]);
            }
        }
    }
}

/// A number written in decimal reads back as itself: `decimal(n)` is all digits
/// and has value `n`.
pub proof fn lemma_decimal_value(n: nat)
    ensures
        decimal(n).len() > 0,
        all_digits(decimal(n)),
        digits_value(decimal(n)) == n,
        unsigned_value(decimal(n)) == Some(n),
        n <= i32::MAX ==> i32_value(decimal(n)) == Some(n as i32),
{
    if n == 0 {
        let d = seq!['0'];
        assert(d.drop_last() =~= Seq::<char>::empty());
        assert(digits_value(d) == digits_value(d.drop_last()) * 10 + (d.last() as nat - '0' as nat) as nat);
    } else {
        lemma_decimal_digits(n);
    }
    let d = decimal(n);
    assert('0' <= d[0] <= '9');
    assert(d[0] != '+' && d[0] != '-');
}

} // verus!
