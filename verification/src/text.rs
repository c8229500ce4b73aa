//! Decimal numerals as character sequences.
//!
//! The wire schema writes every quantity in plain decimal notation, so this
//! module defines what a decimal numeral is (`spec_dec`), what a digit string
//! is worth (`val_digits`), and proves the two inverse to each other. The
//! executable emitters and scanners below are specified against exactly those
//! definitions; the wire codec and the display helpers build on them.

use vstd::prelude::*;
use vstd::arithmetic::div_mod::lemma_fundamental_div_mod;
use vstd::arithmetic::mul::lemma_mul_is_associative;
use vstd::arithmetic::mul::lemma_mul_inequality;

verus! {

/// The ten digit characters, in order of value.
pub open spec fn digit_char(d: int) -> char
    recommends
        0 <= d < 10,
{
    if d == 0 { '0' }
    else if d == 1 { '1' }
    else if d == 2 { '2' }
    else if d == 3 { '3' }
    else if d == 4 { '4' }
    else if d == 5 { '5' }
    else if d == 6 { '6' }
    else if d == 7 { '7' }
    else if d == 8 { '8' }
    else { '9' }
}

/// The value of a digit character; zero on anything else.
pub open spec fn digit_val(c: char) -> nat {
    if c == '0' { 0 }
    else if c == '1' { 1 }
    else if c == '2' { 2 }
    else if c == '3' { 3 }
    else if c == '4' { 4 }
    else if c == '5' { 5 }
    else if c == '6' { 6 }
    else if c == '7' { 7 }
    else if c == '8' { 8 }
    else if c == '9' { 9 }
    else { 0 }
}

pub open spec fn is_digit_char(c: char) -> bool {
    '0' <= c && c <= '9'
}

pub open spec fn all_digits(s: Seq<char>) -> bool {
    forall|i: int| 0 <= i < s.len() ==> is_digit_char(#[trigger] s[i])
}

/// The decimal numeral of `n`, most significant digit first, no leading zero
/// except for the single digit of zero itself.
pub open spec fn spec_dec(n: nat) -> Seq<char>
    decreases n,
{
    if n < 10 {
        seq![digit_char(n as int)]
    } else {
        spec_dec(n / 10).push(digit_char((n % 10) as int))
    }
}

/// The value of a digit string, most significant digit first.
pub open spec fn val_digits(s: Seq<char>) -> nat
    decreases s.len(),
{
    if s.len() == 0 {
        0
    } else {
        val_digits(s.drop_last()) * 10 + digit_val(s.last())
    }
}

pub open spec fn pow10(k: nat) -> nat
    decreases k,
{
    if k == 0 { 1 } else { 10 * pow10((k - 1) as nat) }
}

/// `k` zero characters.
pub open spec fn zero_chars(k: nat) -> Seq<char> {
    Seq::new(k, |i: int| '0')
}

/// The numeral of `m` padded with leading zeros to exactly five digits.
pub open spec fn spec_pad5(m: nat) -> Seq<char>
    recommends
        m < 100000,
{
    zero_chars((5 - spec_dec(m).len()) as nat) + spec_dec(m)
}

/// A digit string with any trailing zeros removed.
pub open spec fn trim_zeros(s: Seq<char>) -> Seq<char>
    decreases s.len(),
{
    if s.len() > 0 && s.last() == '0' {
        trim_zeros(s.drop_last())
    } else {
        s
    }
}

pub proof fn lemma_digit_char_val(d: int)
    requires
        0 <= d < 10,
    ensures
        digit_val(digit_char(d)) == d,
        is_digit_char(digit_char(d)),
{
}

/// Every character of a numeral is a digit, and a numeral is never empty.
pub proof fn lemma_dec_digits(n: nat)
    ensures
        all_digits(spec_dec(n)),
        spec_dec(n).len() >= 1,
    decreases n,
{
    if n < 10 {
    } else {
        lemma_dec_digits(n / 10);
        assert forall|i: int| 0 <= i < spec_dec(n).len() implies is_digit_char(
            #[trigger] spec_dec(n)[i],
        ) by {
            if i < spec_dec(n / 10).len() {
                assert(spec_dec(n)[i] == spec_dec(n / 10)[i]);
            }
        }
    }
}

/// Reading a numeral back gives the number it was written from.
pub proof fn lemma_dec_val(n: nat)
    ensures
        val_digits(spec_dec(n)) == n,
    decreases n,
{
    if n < 10 {
        lemma_digit_char_val(n as int);
        assert(spec_dec(n).drop_last() =~= Seq::<char>::empty());
        assert(spec_dec(n).last() == digit_char(n as int));
        assert(val_digits(Seq::<char>::empty()) == 0);
        assert(val_digits(spec_dec(n)) == val_digits(spec_dec(n).drop_last()) * 10 + digit_val(
            spec_dec(n).last(),
        ));
    } else {
        lemma_dec_val(n / 10);
        lemma_fundamental_div_mod(n as int, 10);
        lemma_digit_char_val((n % 10) as int);
        assert(spec_dec(n).drop_last() =~= spec_dec(n / 10));
        assert(spec_dec(n).last() == digit_char((n % 10) as int));
        assert(val_digits(spec_dec(n)) == val_digits(spec_dec(n / 10)) * 10 + digit_val(
            digit_char((n % 10) as int),
        ));
    }
}

/// A numeral of a number below `10^k` has at most `k` digits.
pub proof fn lemma_dec_len(n: nat, k: nat)
    requires
        n < pow10(k),
        k >= 1,
    ensures
        spec_dec(n).len() <= k,
    decreases n,
{
    if n < 10 {
    } else {
        assert(pow10(k) == 10 * pow10((k - 1) as nat));
        assert(n / 10 < pow10((k - 1) as nat)) by {
            lemma_fundamental_div_mod(n as int, 10);
        }
        assert(k - 1 >= 1) by {
            if k == 1 {
                assert(pow10(1nat) == 10);
            }
        }
        lemma_dec_len(n / 10, (k - 1) as nat);
    }
}

pub proof fn lemma_pow10_pos(k: nat)
    ensures
        pow10(k) >= 1,
    decreases k,
{
    if k > 0 {
        lemma_pow10_pos((k - 1) as nat);
    }
}

/// Concatenating digit strings multiplies the left value by the width of
/// the right one.
pub proof fn lemma_val_append(s: Seq<char>, t: Seq<char>)
    ensures
        val_digits(s + t) == val_digits(s) * pow10(t.len()) + val_digits(t),
    decreases t.len(),
{
    if t.len() == 0 {
        assert(s + t =~= s);
        assert(pow10(0) == 1);
    } else {
        lemma_val_append(s, t.drop_last());
        assert((s + t).drop_last() =~= s + t.drop_last());
        assert((s + t).last() == t.last());
        let p = pow10((t.len() - 1) as nat);
        assert(val_digits(s + t) == (val_digits(s) * p + val_digits(t.drop_last())) * 10
            + digit_val(t.last()));
        lemma_mul_is_associative(val_digits(s) as int, p as int, 10);
        assert(pow10(t.len()) == 10 * p);
    }
}

/// Leading zeros do not change the value of a digit string.
pub proof fn lemma_val_zero_prefix(k: nat, s: Seq<char>)
    ensures
        val_digits(zero_chars(k) + s) == val_digits(s),
    decreases s.len(),
{
    if s.len() == 0 {
        assert(zero_chars(k) + s =~= zero_chars(k));
        lemma_val_zeros(k);
    } else {
        lemma_val_zero_prefix(k, s.drop_last());
        assert((zero_chars(k) + s).drop_last() =~= zero_chars(k) + s.drop_last());
        assert((zero_chars(k) + s).last() == s.last());
    }
}

proof fn lemma_val_zeros(k: nat)
    ensures
        val_digits(zero_chars(k)) == 0,
    decreases k,
{
    if k > 0 {
        lemma_val_zeros((k - 1) as nat);
        assert(zero_chars(k).drop_last() =~= zero_chars((k - 1) as nat));
        assert(zero_chars(k).last() == '0');
    }
}

pub proof fn lemma_pow10_5()
    ensures
        pow10(5nat) == 100000,
{
    assert(pow10(0nat) == 1);
    assert(pow10(1nat) == 10);
    assert(pow10(2nat) == 100);
    assert(pow10(3nat) == 1000);
    assert(pow10(4nat) == 10000);
    assert(pow10(5nat) == 100000);
}

/// Reading a padded five-digit group back gives the number it was written
/// from; the group is all digits and exactly five long.
pub proof fn lemma_pad5(m: nat)
    requires
        m < 100000,
    ensures
        val_digits(spec_pad5(m)) == m,
        all_digits(spec_pad5(m)),
        spec_pad5(m).len() == 5,
{
    lemma_dec_digits(m);
    lemma_dec_val(m);
    lemma_pow10_5();
    lemma_dec_len(m, 5);
    lemma_val_zero_prefix((5 - spec_dec(m).len()) as nat, spec_dec(m));
    assert forall|i: int| 0 <= i < spec_pad5(m).len() implies is_digit_char(
        #[trigger] spec_pad5(m)[i],
    ) by {
        let z = (5 - spec_dec(m).len()) as nat;
        if i >= z {
            assert(spec_pad5(m)[i] == spec_dec(m)[i - z]);
        }
    }
}

/// Where a maximal run of digit characters starting at `i` ends.
pub open spec fn digit_run_end(s: Seq<char>, i: int) -> int
    recommends
        0 <= i <= s.len(),
    decreases s.len() - i,
{
    if 0 <= i < s.len() && is_digit_char(s[i]) {
        digit_run_end(s, i + 1)
    } else {
        i
    }
}

/// A run of digits followed by a non-digit (or the end) is maximal.
pub proof fn lemma_digit_run(s: Seq<char>, i: int, j: int)
    requires
        0 <= i <= j <= s.len(),
        forall|k: int| i <= k < j ==> is_digit_char(#[trigger] s[k]),
        j == s.len() || !is_digit_char(s[j]),
    ensures
        digit_run_end(s, i) == j,
    decreases j - i,
{
    if i < j {
        lemma_digit_run(s, i + 1, j);
    }
}

pub proof fn lemma_digit_run_bounds(s: Seq<char>, i: int)
    requires
        0 <= i <= s.len(),
    ensures
        i <= digit_run_end(s, i) <= s.len(),
        forall|k: int| i <= k < digit_run_end(s, i) ==> is_digit_char(#[trigger] s[k]),
        digit_run_end(s, i) == s.len() || !is_digit_char(s[digit_run_end(s, i)]),
    decreases s.len() - i,
{
    if i < s.len() && is_digit_char(s[i]) {
        lemma_digit_run_bounds(s, i + 1);
    }
}

/// A digit string of width `k` is worth less than `10^k`.
pub proof fn lemma_val_upper(s: Seq<char>)
    ensures
        val_digits(s) < pow10(s.len()),
    decreases s.len(),
{
    if s.len() == 0 {
    } else {
        lemma_val_upper(s.drop_last());
        assert(digit_val(s.last()) <= 9);
        assert(pow10(s.len()) == 10 * pow10((s.len() - 1) as nat));
    }
}

/// Extending a digit string never lowers its value.
pub proof fn lemma_val_extend(s: Seq<char>, t: Seq<char>)
    ensures
        val_digits(s + t) >= val_digits(s),
{
    lemma_val_append(s, t);
    lemma_pow10_pos(t.len());
    lemma_mul_inequality(1, pow10(t.len()) as int, val_digits(s) as int);
}

// ---------------------------------------------------------------------------
// Executable helpers
// ---------------------------------------------------------------------------

pub fn is_digit(c: char) -> (r: bool)
    ensures
        r == is_digit_char(c),
{
    '0' <= c && c <= '9'
}

pub fn digit_to_char(d: u64) -> (r: char)
    requires
        d < 10,
    ensures
        r == digit_char(d as int),
{
    if d == 0 { '0' }
    else if d == 1 { '1' }
    else if d == 2 { '2' }
    else if d == 3 { '3' }
    else if d == 4 { '4' }
    else if d == 5 { '5' }
    else if d == 6 { '6' }
    else if d == 7 { '7' }
    else if d == 8 { '8' }
    else { '9' }
}

pub fn char_digit(c: char) -> (r: u64)
    requires
        is_digit_char(c),
    ensures
        r == digit_val(c),
{
    if c == '0' { 0 }
    else if c == '1' { 1 }
    else if c == '2' { 2 }
    else if c == '3' { 3 }
    else if c == '4' { 4 }
    else if c == '5' { 5 }
    else if c == '6' { 6 }
    else if c == '7' { 7 }
    else if c == '8' { 8 }
    else { 9 }
}

/// Append the decimal numeral of `n` to a character buffer.
pub fn push_dec_chars(out: &mut Vec<char>, n: u64)
    ensures
        final(out)@ == old(out)@ + spec_dec(n as nat),
    decreases n,
{
    if n < 10 {
        out.push(digit_to_char(n));
    } else {
        push_dec_chars(out, n / 10);
        out.push(digit_to_char(n % 10));
        assert(out@ =~= old(out)@ + spec_dec(n as nat));
    }
}

/// Append the five-digit zero-padded numeral of `m` to a character buffer.
pub fn push_pad5_chars(out: &mut Vec<char>, m: u64)
    requires
        m < 100000,
    ensures
        final(out)@ == old(out)@ + spec_pad5(m as nat),
{
    proof {
        lemma_pow10_5();
        lemma_dec_len(m as nat, 5);
        lemma_dec_digits(m as nat);
    }
    let mut digits: Vec<char> = Vec::new();
    push_dec_chars(&mut digits, m);
    let pad: usize = 5 - digits.len();
    let mut k: usize = 0;
    while k < pad
        invariant
            pad == 5 - spec_dec(m as nat).len(),
            k <= pad,
            out@ == old(out)@ + zero_chars(k as nat),
            digits@ == spec_dec(m as nat),
        decreases pad - k,
    {
        out.push('0');
        proof {
            assert(out@ =~= old(out)@ + zero_chars((k + 1) as nat));
        }
        k += 1;
    }
    let mut j: usize = 0;
    while j < digits.len()
        invariant
            digits@ == spec_dec(m as nat),
            j <= digits.len(),
            out@ == old(out)@ + zero_chars((5 - spec_dec(m as nat).len()) as nat)
                + spec_dec(m as nat).take(j as int),
        decreases digits.len() - j,
    {
        out.push(digits[j]);
        proof {
            assert(out@ =~= old(out)@ + zero_chars((5 - spec_dec(m as nat).len()) as nat)
                + spec_dec(m as nat).take((j + 1) as int));
        }
        j += 1;
    }
    proof {
        assert(spec_dec(m as nat).take(spec_dec(m as nat).len() as int) =~= spec_dec(m as nat));
        assert(out@ =~= old(out)@ + spec_pad5(m as nat));
    }
}

/// The index where the run of digit characters starting at `i` ends.
pub fn scan_digits(s: &Vec<char>, i: usize) -> (j: usize)
    requires
        i <= s@.len(),
    ensures
        j == digit_run_end(s@, i as int),
        i <= j <= s@.len(),
{
    proof {
        lemma_digit_run_bounds(s@, i as int);
    }
    let mut j = i;
    while j < s.len() && is_digit(s[j])
        invariant
            i <= j <= s@.len(),
            digit_run_end(s@, i as int) == digit_run_end(s@, j as int),
        decreases s@.len() - j,
    {
        j += 1;
    }
    j
}

/// Read the maximal digit run at `i` as a `u64`: the parsed value and the
/// index after the run, or nothing when there is no digit or the value
/// does not fit.
pub fn parse_u64(s: &Vec<char>, i: usize) -> (r: Option<(u64, usize)>)
    requires
        i <= s@.len(),
    ensures
        ({
            let j = digit_run_end(s@, i as int);
            let v = val_digits(s@.subrange(i as int, j));
            if j == i || v > u64::MAX {
                r is None
            } else {
                r == Some((v as u64, j as usize))
            }
        }),
{
    let j = scan_digits(s, i);
    proof {
        lemma_digit_run_bounds(s@, i as int);
    }
    if j == i {
        return None;
    }
    let mut acc: u64 = 0;
    let mut k = i;
    while k < j
        invariant
            i <= k <= j <= s@.len(),
            j == digit_run_end(s@, i as int),
            forall|t: int| i <= t < j ==> is_digit_char(#[trigger] s@[t]),
            acc as nat == val_digits(s@.subrange(i as int, k as int)),
        decreases j - k,
    {
        let ghost pre = s@.subrange(i as int, k as int);
        let d = char_digit(s[k]);
        proof {
            assert(s@.subrange(i as int, k + 1) =~= pre.push(s@[k as int]));
            assert(val_digits(pre.push(s@[k as int])) == val_digits(pre) * 10 + digit_val(
                s@[k as int],
            )) by {
                assert(pre.push(s@[k as int]).drop_last() =~= pre);
            }
        }
        let hi = match acc.checked_mul(10) {
            Some(h) => h,
            None => {
                proof {
                    lemma_val_extend(s@.subrange(i as int, k + 1), s@.subrange(k + 1, j as int));
                    assert(s@.subrange(i as int, k + 1) + s@.subrange(k + 1, j as int)
                        =~= s@.subrange(i as int, j as int));
                }
                return None;
            },
        };
        let v = match hi.checked_add(d) {
            Some(v) => v,
            None => {
                proof {
                    lemma_val_extend(s@.subrange(i as int, k + 1), s@.subrange(k + 1, j as int));
                    assert(s@.subrange(i as int, k + 1) + s@.subrange(k + 1, j as int)
                        =~= s@.subrange(i as int, j as int));
                }
                return None;
            },
        };
        acc = v;
        k += 1;
    }
    proof {
        assert(s@.subrange(i as int, j as int) =~= s@.subrange(i as int, k as int));
    }
    Some((acc, j))
}

/// One character of a string, by character index.
pub fn string_chars(s: &str) -> (r: Vec<char>)
    ensures
        r@ == s@,
{
    let n = s.unicode_len();
    let mut out: Vec<char> = Vec::new();
    let mut i: usize = 0;
    while i < n
        invariant
            n == s@.len(),
            i <= n,
            out@ == s@.take(i as int),
        decreases n - i,
    {
        out.push(s.get_char(i));
        proof {
            assert(out@ =~= s@.take((i + 1) as int));
        }
        i += 1;
    }
    proof {
        assert(s@.take(n as int) =~= s@);
    }
    out
}

/// Whether two string slices hold the same characters.
pub fn str_eq(a: &str, b: &str) -> (r: bool)
    ensures
        r == (a@ == b@),
{
    let na = a.unicode_len();
    let nb = b.unicode_len();
    if na != nb {
        return false;
    }
    let mut i: usize = 0;
    while i < na
        invariant
            na == a@.len(),
            na == b@.len(),
            i <= na,
            forall|k: int| 0 <= k < i ==> a@[k] == b@[k],
        decreases na - i,
    {
        if a.get_char(i) != b.get_char(i) {
            return false;
        }
        i += 1;
    }
    proof {
        assert(a@ =~= b@);
    }
    true
}

/// The one-character string of a digit character.
pub fn digit_char_str(c: char) -> (r: &'static str)
    requires
        is_digit_char(c),
    ensures
        r@ == seq![c],
{
    proof {
        reveal_strlit("0");
        reveal_strlit("1");
        reveal_strlit("2");
        reveal_strlit("3");
        reveal_strlit("4");
        reveal_strlit("5");
        reveal_strlit("6");
        reveal_strlit("7");
        reveal_strlit("8");
        reveal_strlit("9");
    }
    if c == '0' { "0" }
    else if c == '1' { "1" }
    else if c == '2' { "2" }
    else if c == '3' { "3" }
    else if c == '4' { "4" }
    else if c == '5' { "5" }
    else if c == '6' { "6" }
    else if c == '7' { "7" }
    else if c == '8' { "8" }
    else { "9" }
}

/// Append the decimal numeral of `n` to a string.
pub fn push_dec_string(out: &mut String, n: u64)
    ensures
        final(out)@ == old(out)@ + spec_dec(n as nat),
    decreases n,
{
    proof {
        lemma_dec_digits(n as nat);
    }
    if n < 10 {
        let c = digit_to_char(n);
        out.append(digit_char_str(c));
        assert(out@ =~= old(out)@ + spec_dec(n as nat));
    } else {
        push_dec_string(out, n / 10);
        let c = digit_to_char(n % 10);
        out.append(digit_char_str(c));
        assert(out@ =~= old(out)@ + spec_dec(n as nat));
    }
}

/// The decimal numeral of `n` as a string.
pub fn u64_string(n: u64) -> (r: String)
    ensures
        r@ == spec_dec(n as nat),
{
    let mut out = String::new();
    push_dec_string(&mut out, n);
    proof {
        assert(out@ =~= spec_dec(n as nat));
    }
    out
}

} // verus!
