//! The wire schema for order creation.
//!
//! The bridge process accepts one JSON object per new order:
//! `{"symbol":…,"action":…,"volume":…,"price":…,"stop_loss":…,`
//! `"take_profit":…,"comment":…,"magic":…}`. This module defines that
//! object as a value (`WireOrder`), its exact textual form (`spec_encode`,
//! with string fields escaped as JSON demands), a decoder for that form,
//! and proves that decoding an encoded order gives the order back.

use vstd::prelude::*;
use crate::fixed::Fixed;
use crate::text::{
    spec_dec, spec_pad5, val_digits, digit_run_end, is_digit_char, all_digits, push_dec_chars,
    push_pad5_chars, string_chars, parse_u64, lemma_dec_digits, lemma_dec_val, lemma_pad5,
    lemma_digit_run, lemma_digit_run_bounds, lemma_val_upper, lemma_pow10_5, pow10,
};
use vstd::arithmetic::div_mod::lemma_fundamental_div_mod;

verus! {

/// An order as it crosses the wire: the payload of an order-creation call.
pub struct WireOrder {
    pub symbol: Vec<char>,
    pub action: u32,
    pub volume: Fixed,
    pub price: Fixed,
    pub stop_loss: Option<Fixed>,
    pub take_profit: Option<Fixed>,
    pub comment: Option<Vec<char>>,
    pub magic: u32,
}

/// The mathematical shadow of a `WireOrder`.
pub ghost struct WireOrderView {
    pub symbol: Seq<char>,
    pub action: u32,
    pub volume: Fixed,
    pub price: Fixed,
    pub stop_loss: Option<Fixed>,
    pub take_profit: Option<Fixed>,
    pub comment: Option<Seq<char>>,
    pub magic: u32,
}

impl View for WireOrder {
    type V = WireOrderView;

    open spec fn view(&self) -> WireOrderView {
        WireOrderView {
            symbol: self.symbol@,
            action: self.action,
            volume: self.volume,
            price: self.price,
            stop_loss: self.stop_loss,
            take_profit: self.take_profit,
            comment: match self.comment {
                Some(c) => Some(c@),
                None => None,
            },
            magic: self.magic,
        }
    }
}

impl WireOrderView {
    /// Numbers carry no negative zero.
    pub open spec fn wf(self) -> bool {
        &&& self.volume.wf()
        &&& self.price.wf()
        &&& (self.stop_loss matches Some(f) ==> f.wf())
        &&& (self.take_profit matches Some(f) ==> f.wf())
    }
}

/// The sixteen hexadecimal digit characters, in order of value.
pub open spec fn hex_char(d: int) -> char
    recommends
        0 <= d < 16,
{
    if d == 0 { '0' }
    else if d == 1 { '1' }
    else if d == 2 { '2' }
    else if d == 3 { '3' }
    else if d == 4 { '4' }
    else if d == 5 { '5' }
    else if d == 6 { '6' }
    else if d == 7 { '7' }
    else if d == 8 { '8' }
    else if d == 9 { '9' }
    else if d == 10 { 'a' }
    else if d == 11 { 'b' }
    else if d == 12 { 'c' }
    else if d == 13 { 'd' }
    else if d == 14 { 'e' }
    else { 'f' }
}

/// The value of a hexadecimal digit character; zero on anything else.
pub open spec fn hex_val(c: char) -> nat {
    if c == '0' { 0 }
    else if c == '1' { 1 }
    else if c == '2' { 2 }
    else if c == '3' { 3 }
    else if c == '4' { 4 }
    else if c == '5' { 5 }
    else if c == '6' { 6 }
    else if c == '7' { 7 }
    else if c == '8' { 8 }
    else if c == '9' { 9 }
    else if c == 'a' { 10 }
    else if c == 'b' { 11 }
    else if c == 'c' { 12 }
    else if c == 'd' { 13 }
    else if c == 'e' { 14 }
    else if c == 'f' { 15 }
    else { 0 }
}

pub open spec fn is_hex_char(c: char) -> bool {
    ('0' <= c && c <= '9') || ('a' <= c && c <= 'f')
}

/// The wire text of one character inside a JSON string: quote and
/// backslash through their two-character escapes, control characters
/// through `\u00`-escapes, everything else verbatim.
pub open spec fn esc_char(c: char) -> Seq<char> {
    if c == '"' {
        seq!['\\', '"']
    } else if c == '\\' {
        seq!['\\', '\\']
    } else if !(c >= ' ') {
        seq!['\\', 'u', '0', '0', hex_char((c as u32 / 16) as int), hex_char((c as u32 % 16) as int)]
    } else {
        seq![c]
    }
}

/// A string escaped for a JSON literal.
pub open spec fn spec_escape(s: Seq<char>) -> Seq<char>
    decreases s.len(),
{
    if s.len() == 0 {
        Seq::<char>::empty()
    } else {
        esc_char(s[0]) + spec_escape(s.skip(1))
    }
}

// ---------------------------------------------------------------------------
// The exact textual form
// ---------------------------------------------------------------------------

pub open spec fn lit_symbol() -> Seq<char> {
    "{\"symbol\":"@
}

pub open spec fn lit_action() -> Seq<char> {
    ",\"action\":"@
}

pub open spec fn lit_volume() -> Seq<char> {
    ",\"volume\":"@
}

pub open spec fn lit_price() -> Seq<char> {
    ",\"price\":"@
}

pub open spec fn lit_stop_loss() -> Seq<char> {
    ",\"stop_loss\":"@
}

pub open spec fn lit_take_profit() -> Seq<char> {
    ",\"take_profit\":"@
}

pub open spec fn lit_comment() -> Seq<char> {
    ",\"comment\":"@
}

pub open spec fn lit_magic() -> Seq<char> {
    ",\"magic\":"@
}

pub open spec fn lit_close() -> Seq<char> {
    "}"@
}

pub open spec fn lit_null() -> Seq<char> {
    "null"@
}

/// A string in quotes, its characters escaped for the wire.
pub open spec fn spec_quoted(s: Seq<char>) -> Seq<char> {
    seq!['"'] + spec_escape(s) + seq!['"']
}

/// A fixed-point number in decimal notation: an optional minus sign, the
/// whole part, a point, and exactly five fractional digits.
pub open spec fn spec_fixed_chars(f: Fixed) -> Seq<char> {
    (if f.neg { seq!['-'] } else { Seq::<char>::empty() }) + spec_dec((f.units / 100000) as nat)
        + seq!['.'] + spec_pad5((f.units % 100000) as nat)
}

pub open spec fn spec_opt_fixed_chars(o: Option<Fixed>) -> Seq<char> {
    match o {
        Some(f) => spec_fixed_chars(f),
        None => lit_null(),
    }
}

pub open spec fn spec_opt_quoted(o: Option<Seq<char>>) -> Seq<char> {
    match o {
        Some(s) => spec_quoted(s),
        None => lit_null(),
    }
}

/// The wire text of an order: keys and values in a fixed object layout.
pub open spec fn spec_encode(g: WireOrderView) -> Seq<char> {
    lit_symbol() + spec_quoted(g.symbol) + lit_action() + spec_dec(g.action as nat)
        + lit_volume() + spec_fixed_chars(g.volume) + lit_price() + spec_fixed_chars(g.price)
        + lit_stop_loss() + spec_opt_fixed_chars(g.stop_loss) + lit_take_profit()
        + spec_opt_fixed_chars(g.take_profit) + lit_comment() + spec_opt_quoted(g.comment)
        + lit_magic() + spec_dec(g.magic as nat) + lit_close()
}

// ---------------------------------------------------------------------------
// Executable encoder
// ---------------------------------------------------------------------------

/// Append a copy of `v` to `out`.
pub fn append_chars(out: &mut Vec<char>, v: &Vec<char>)
    ensures
        final(out)@ == old(out)@ + v@,
{
    let mut i: usize = 0;
    while i < v.len()
        invariant
            i <= v@.len(),
            out@ == old(out)@ + v@.take(i as int),
        decreases v@.len() - i,
    {
        out.push(v[i]);
        proof {
            assert(out@ =~= old(out)@ + v@.take((i + 1) as int));
        }
        i += 1;
    }
    proof {
        assert(out@ =~= old(out)@ + v@);
    }
}

/// Append the characters of a string slice to `out`.
pub fn push_lit(out: &mut Vec<char>, s: &str)
    ensures
        final(out)@ == old(out)@ + s@,
{
    let cs = string_chars(s);
    append_chars(out, &cs);
}

/// Appending one character to a string appends its escape to the
/// escaped text.
proof fn lemma_escape_push(t: Seq<char>, c: char)
    ensures
        spec_escape(t.push(c)) == spec_escape(t) + esc_char(c),
    decreases t.len(),
{
    if t.len() == 0 {
        assert(t.push(c)[0] == c);
        assert(t.push(c).skip(1) =~= Seq::<char>::empty());
        assert(spec_escape(Seq::<char>::empty()) == Seq::<char>::empty());
        assert(spec_escape(t.push(c)) == esc_char(c) + Seq::<char>::empty());
        assert(spec_escape(t) + esc_char(c) =~= esc_char(c) + Seq::<char>::empty());
    } else {
        lemma_escape_push(t.skip(1), c);
        assert(t.push(c)[0] == t[0]);
        assert(t.push(c).skip(1) =~= t.skip(1).push(c));
        assert(esc_char(t[0]) + (spec_escape(t.skip(1)) + esc_char(c)) =~= (esc_char(t[0])
            + spec_escape(t.skip(1))) + esc_char(c));
    }
}

/// The sixteen hexadecimal digit characters, executable.
fn hex_to_char(d: u64) -> (r: char)
    requires
        d < 16,
    ensures
        r == hex_char(d as int),
{
    if d == 0 { '0' }
    else if d == 1 { '1' }
    else if d == 2 { '2' }
    else if d == 3 { '3' }
    else if d == 4 { '4' }
    else if d == 5 { '5' }
    else if d == 6 { '6' }
    else if d == 7 { '7' }
    else if d == 8 { '8' }
    else if d == 9 { '9' }
    else if d == 10 { 'a' }
    else if d == 11 { 'b' }
    else if d == 12 { 'c' }
    else if d == 13 { 'd' }
    else if d == 14 { 'e' }
    else { 'f' }
}

fn char_hex(c: char) -> (r: u64)
    requires
        is_hex_char(c),
    ensures
        r == hex_val(c),
{
    if c == '0' { 0 }
    else if c == '1' { 1 }
    else if c == '2' { 2 }
    else if c == '3' { 3 }
    else if c == '4' { 4 }
    else if c == '5' { 5 }
    else if c == '6' { 6 }
    else if c == '7' { 7 }
    else if c == '8' { 8 }
    else if c == '9' { 9 }
    else if c == 'a' { 10 }
    else if c == 'b' { 11 }
    else if c == 'c' { 12 }
    else if c == 'd' { 13 }
    else if c == 'e' { 14 }
    else { 15 }
}

fn is_hex(c: char) -> (r: bool)
    ensures
        r == is_hex_char(c),
{
    ('0' <= c && c <= '9') || ('a' <= c && c <= 'f')
}

/// Append the escaped form of one character.
fn push_esc_char(out: &mut Vec<char>, c: char)
    ensures
        final(out)@ == old(out)@ + esc_char(c),
{
    if c == '"' {
        out.push('\\');
        out.push('"');
    } else if c == '\\' {
        out.push('\\');
        out.push('\\');
    } else if !(c >= ' ') {
        let v = c as u32;
        proof {
            assert((' ' as u32) == 32);
        }
        out.push('\\');
        out.push('u');
        out.push('0');
        out.push('0');
        out.push(hex_to_char((v / 16) as u64));
        out.push(hex_to_char((v % 16) as u64));
    } else {
        out.push(c);
    }
    proof {
        assert(out@ =~= old(out)@ + esc_char(c));
    }
}

/// Append the escaped text of `s`.
fn push_escaped(out: &mut Vec<char>, s: &Vec<char>)
    ensures
        final(out)@ == old(out)@ + spec_escape(s@),
{
    proof {
        assert(s@.take(0int) =~= Seq::<char>::empty());
    }
    let mut i: usize = 0;
    while i < s.len()
        invariant
            i <= s@.len(),
            out@ == old(out)@ + spec_escape(s@.take(i as int)),
        decreases s@.len() - i,
    {
        push_esc_char(out, s[i]);
        proof {
            assert(s@.take((i + 1) as int) =~= s@.take(i as int).push(s@[i as int]));
            lemma_escape_push(s@.take(i as int), s@[i as int]);
            assert(out@ =~= old(out)@ + spec_escape(s@.take((i + 1) as int)));
        }
        i += 1;
    }
    proof {
        assert(s@.take(s@.len() as int) =~= s@);
    }
}

/// Append `s` in quotes, escaped for the wire.
pub fn push_quoted(out: &mut Vec<char>, s: &Vec<char>)
    ensures
        final(out)@ == old(out)@ + spec_quoted(s@),
{
    out.push('"');
    push_escaped(out, s);
    out.push('"');
    proof {
        assert(out@ =~= old(out)@ + spec_quoted(s@));
    }
}

/// Append the decimal notation of `f`.
pub fn push_fixed(out: &mut Vec<char>, f: &Fixed)
    requires
        f.wf(),
    ensures
        final(out)@ == old(out)@ + spec_fixed_chars(*f),
{
    if f.neg {
        out.push('-');
    }
    push_dec_chars(out, f.units / 100000);
    out.push('.');
    push_pad5_chars(out, f.units % 100000);
    proof {
        assert(out@ =~= old(out)@ + spec_fixed_chars(*f));
    }
}

fn push_opt_fixed(out: &mut Vec<char>, o: &Option<Fixed>)
    requires
        o matches Some(f) ==> f.wf(),
    ensures
        final(out)@ == old(out)@ + spec_opt_fixed_chars(*o),
{
    match o {
        Some(f) => push_fixed(out, f),
        None => push_lit(out, "null"),
    }
}

fn push_opt_quoted(out: &mut Vec<char>, o: &Option<Vec<char>>)
    ensures
        final(out)@ == old(out)@ + spec_opt_quoted(
            match *o {
                Some(s) => Some(s@),
                None => None,
            },
        ),
{
    match o {
        Some(s) => push_quoted(out, s),
        None => push_lit(out, "null"),
    }
}

fn fixed_ok(f: &Fixed) -> (r: bool)
    ensures
        r == f.wf(),
{
    !(f.neg && f.units == 0)
}

/// Encode an order for the wire: the exact text of `spec_encode`.
/// String fields are escaped, so the only orders refused are those whose
/// numbers are denormal (a negative zero).
#[verifier::rlimit(60)]
pub fn encode_wire_order(o: &WireOrder) -> (r: Option<Vec<char>>)
    ensures
        o@.wf() ==> (r matches Some(v) && v@ == spec_encode(o@)),
        !o@.wf() ==> r is None,
{
    if !fixed_ok(&o.volume) || !fixed_ok(&o.price) {
        return None;
    }
    if let Some(f) = &o.stop_loss {
        if !fixed_ok(f) {
            return None;
        }
    }
    if let Some(f) = &o.take_profit {
        if !fixed_ok(f) {
            return None;
        }
    }
    let mut out: Vec<char> = Vec::new();
    push_lit(&mut out, "{\"symbol\":");
    proof {
        assert(out@ =~= lit_symbol());
    }
    push_quoted(&mut out, &o.symbol);
    push_lit(&mut out, ",\"action\":");
    push_dec_chars(&mut out, o.action as u64);
    push_lit(&mut out, ",\"volume\":");
    push_fixed(&mut out, &o.volume);
    push_lit(&mut out, ",\"price\":");
    push_fixed(&mut out, &o.price);
    push_lit(&mut out, ",\"stop_loss\":");
    push_opt_fixed(&mut out, &o.stop_loss);
    push_lit(&mut out, ",\"take_profit\":");
    push_opt_fixed(&mut out, &o.take_profit);
    push_lit(&mut out, ",\"comment\":");
    push_opt_quoted(&mut out, &o.comment);
    push_lit(&mut out, ",\"magic\":");
    push_dec_chars(&mut out, o.magic as u64);
    push_lit(&mut out, "}");
    proof {
        assert(out@ == spec_encode(o@));
    }
    Some(out)
}

// ---------------------------------------------------------------------------
// Parsing: the textual form read back
// ---------------------------------------------------------------------------

/// Whether `l` stands verbatim at position `i` of `s`.
pub open spec fn sp_match(s: Seq<char>, i: int, l: Seq<char>) -> bool {
    0 <= i && i + l.len() <= s.len() && s.subrange(i, i + l.len() as int) == l
}

/// Consume the literal `l` at position `i`.
pub open spec fn sp_lit(s: Seq<char>, i: int, l: Seq<char>) -> Option<int> {
    if sp_match(s, i, l) {
        Some(i + l.len() as int)
    } else {
        None
    }
}

/// Read a string body at `i`, the opening quote already consumed: the
/// characters the escaped text denotes, and the position after the
/// closing quote. Exactly the escapes the encoder writes are read back:
/// `\\"`, `\\\\`, and `\\u00` followed by two hexadecimal digits below 20.
pub open spec fn sp_str_body(s: Seq<char>, i: int) -> Option<(Seq<char>, int)>
    recommends
        0 <= i,
    decreases s.len() - i,
{
    if i < 0 || i >= s.len() {
        None
    } else if s[i] == '"' {
        Some((Seq::<char>::empty(), i + 1))
    } else if s[i] == '\\' {
        if i + 1 < s.len() {
            let e = s[i + 1];
            if e == '"' || e == '\\' {
                match sp_str_body(s, i + 2) {
                    Some((t, j)) => Some((seq![e] + t, j)),
                    None => None,
                }
            } else if e == 'u' {
                if i + 5 < s.len() && s[i + 2] == '0' && s[i + 3] == '0' && is_hex_char(s[i + 4])
                    && is_hex_char(s[i + 5]) {
                    let v = hex_val(s[i + 4]) * 16 + hex_val(s[i + 5]);
                    if v < 32 {
                        match sp_str_body(s, i + 6) {
                            Some((t, j)) => Some((seq![(v as u8) as char] + t, j)),
                            None => None,
                        }
                    } else {
                        None
                    }
                } else {
                    None
                }
            } else {
                None
            }
        } else {
            None
        }
    } else {
        match sp_str_body(s, i + 1) {
            Some((t, j)) => Some((seq![s[i]] + t, j)),
            None => None,
        }
    }
}

/// Consume a quoted string at position `i`: the characters it denotes
/// and the position after the closing quote.
pub open spec fn sp_quoted(s: Seq<char>, i: int) -> Option<(Seq<char>, int)> {
    if 0 <= i < s.len() && s[i] == '"' {
        sp_str_body(s, i + 1)
    } else {
        None
    }
}

/// Consume the maximal digit run at position `i` as a number no greater
/// than `bound`.
pub open spec fn sp_number(s: Seq<char>, i: int, bound: nat) -> Option<(nat, int)> {
    let j = digit_run_end(s, i);
    if j == i {
        None
    } else {
        let v = val_digits(s.subrange(i, j));
        if v > bound {
            None
        } else {
            Some((v, j))
        }
    }
}

/// Consume a fixed-point number at position `i`: an optional minus sign,
/// a whole part, a point and exactly five fractional digits.
pub open spec fn sp_fixed(s: Seq<char>, i: int) -> Option<(Fixed, int)> {
    let neg = 0 <= i < s.len() && s[i] == '-';
    let i1 = if neg {
        i + 1
    } else {
        i
    };
    match sp_number(s, i1, u64::MAX as nat) {
        None => None,
        Some((ip, j)) => {
            if j < s.len() && s[j] == '.' {
                let k = digit_run_end(s, j + 1);
                if k == j + 6 {
                    let fr = val_digits(s.subrange(j + 1, k));
                    let units = ip * 100000 + fr;
                    if units <= u64::MAX as nat {
                        Some((Fixed { neg: neg && units > 0, units: units as u64 }, k))
                    } else {
                        None
                    }
                } else {
                    None
                }
            } else {
                None
            }
        },
    }
}

/// Consume `null` or a fixed-point number.
pub open spec fn sp_opt_fixed(s: Seq<char>, i: int) -> Option<(Option<Fixed>, int)> {
    match sp_lit(s, i, lit_null()) {
        Some(j) => Some((None, j)),
        None => match sp_fixed(s, i) {
            Some((f, j)) => Some((Some(f), j)),
            None => None,
        },
    }
}

/// Consume `null` or a quoted string.
pub open spec fn sp_opt_quoted(s: Seq<char>, i: int) -> Option<(Option<Seq<char>>, int)> {
    if 0 <= i < s.len() && s[i] == '"' {
        match sp_quoted(s, i) {
            Some((b, j)) => Some((Some(b), j)),
            None => None,
        }
    } else {
        match sp_lit(s, i, lit_null()) {
            Some(j) => Some((None, j)),
            None => None,
        }
    }
}

/// Read a whole order object back from its wire text; the text must be
/// consumed exactly.
pub open spec fn sp_decode(s: Seq<char>) -> Option<WireOrderView> {
    match sp_lit(s, 0, lit_symbol()) {
        None => None,
        Some(i1) => match sp_quoted(s, i1) {
            None => None,
            Some((sym, i2)) => match sp_lit(s, i2, lit_action()) {
                None => None,
                Some(i3) => match sp_number(s, i3, u32::MAX as nat) {
                    None => None,
                    Some((action, i4)) => match sp_lit(s, i4, lit_volume()) {
                        None => None,
                        Some(i5) => match sp_fixed(s, i5) {
                            None => None,
                            Some((volume, i6)) => match sp_lit(s, i6, lit_price()) {
                                None => None,
                                Some(i7) => match sp_fixed(s, i7) {
                                    None => None,
                                    Some((price, i8)) => match sp_lit(s, i8, lit_stop_loss()) {
                                        None => None,
                                        Some(i9) => match sp_opt_fixed(s, i9) {
                                            None => None,
                                            Some((stop_loss, i10)) => match sp_lit(
                                                s,
                                                i10,
                                                lit_take_profit(),
                                            ) {
                                                None => None,
                                                Some(i11) => match sp_opt_fixed(s, i11) {
                                                    None => None,
                                                    Some((take_profit, i12)) => match sp_lit(
                                                        s,
                                                        i12,
                                                        lit_comment(),
                                                    ) {
                                                        None => None,
                                                        Some(i13) => match sp_opt_quoted(s, i13) {
                                                            None => None,
                                                            Some((comment, i14)) => match sp_lit(
                                                                s,
                                                                i14,
                                                                lit_magic(),
                                                            ) {
                                                                None => None,
                                                                Some(i15) => match sp_number(
                                                                    s,
                                                                    i15,
                                                                    u32::MAX as nat,
                                                                ) {
                                                                    None => None,
                                                                    Some((magic, i16)) => match
                                                                        sp_lit(
                                                                        s,
                                                                        i16,
                                                                        lit_close(),
                                                                    ) {
                                                                        None => None,
                                                                        Some(i17) => if i17
                                                                            == s.len() {
                                                                            Some(
                                                                                WireOrderView {
                                                                                    symbol: sym,
                                                                                    action: action
                                                                                        as u32,
                                                                                    volume,
                                                                                    price,
                                                                                    stop_loss,
                                                                                    take_profit,
                                                                                    comment,
                                                                                    magic: magic
                                                                                        as u32,
                                                                                },
                                                                            )
                                                                        } else {
                                                                            None
                                                                        },
                                                                    },
                                                                },
                                                            },
                                                        },
                                                    },
                                                },
                                            },
                                        },
                                    },
                                },
                            },
                        },
                    },
                },
            },
        },
    }
}

// ---------------------------------------------------------------------------
// Round trip: the parser recovers what the encoder wrote
// ---------------------------------------------------------------------------

proof fn lemma_match_index(s: Seq<char>, i: int, l: Seq<char>, u: int)
    requires
        sp_match(s, i, l),
        0 <= u < l.len(),
    ensures
        s[i + u] == l[u],
{
    assert(s.subrange(i, i + l.len() as int)[u] == s[i + u]);
}

/// A match against a concatenation splits into a match against each part.
proof fn lemma_match_split(s: Seq<char>, i: int, x: Seq<char>, y: Seq<char>)
    requires
        sp_match(s, i, x + y),
    ensures
        sp_match(s, i, x),
        sp_match(s, i + x.len(), y),
{
    assert(s.subrange(i, i + x.len() as int) =~= x) by {
        assert forall|u: int| 0 <= u < x.len() implies s.subrange(i, i + x.len() as int)[u]
            == x[u] by {
            lemma_match_index(s, i, x + y, u);
        }
    }
    assert(s.subrange(i + x.len(), i + x.len() + y.len() as int) =~= y) by {
        assert forall|u: int| 0 <= u < y.len() implies s.subrange(
            i + x.len(),
            i + x.len() + y.len() as int,
        )[u] == y[u] by {
            lemma_match_index(s, i, x + y, x.len() + u);
        }
    }
}

/// What the code point of a control character gives: its two
/// hexadecimal digits recombine to it, and the cast back is the
/// character itself.
proof fn lemma_control_char(c: char)
    requires
        !(c >= ' '),
    ensures
        (c as u32) < 32,
        0 <= ((c as u32) / 16) < 16,
        0 <= ((c as u32) % 16) < 16,
        ((c as u32) / 16) * 16 + ((c as u32) % 16) == (c as u32),
        (((c as u32) as u8) as char) == c,
{
    assert((' ' as u32) == 32);
    lemma_fundamental_div_mod((c as u32) as int, 16);
    vstd::utf8::char_u32_cast(c, c as u32);
}

/// Hexadecimal digits written and read back.
proof fn lemma_hex_char(d: int)
    requires
        0 <= d < 16,
    ensures
        is_hex_char(hex_char(d)),
        hex_val(hex_char(d)) == d,
{
}

/// The escaped text of `body`, followed by a closing quote, reads back
/// as exactly `body`.
proof fn lemma_escaped_body_at(s: Seq<char>, i: int, body: Seq<char>)
    requires
        sp_match(s, i, spec_escape(body) + seq!['"']),
    ensures
        sp_str_body(s, i) == Some((body, i + spec_escape(body).len() + 1)),
    decreases body.len(),
{
    let l = spec_escape(body) + seq!['"'];
    if body.len() == 0 {
        lemma_match_index(s, i, l, 0);
        assert(s[i] == '"');
    } else {
        let c = body[0];
        let e = esc_char(c);
        let rest = body.skip(1);
        assert(spec_escape(body) == e + spec_escape(rest));
        assert((e + spec_escape(rest)) + seq!['"'] =~= e + (spec_escape(rest) + seq!['"']));
        lemma_match_split(s, i, e, spec_escape(rest) + seq!['"']);
        lemma_escaped_body_at(s, i + e.len(), rest);
        if c == '"' {
            lemma_match_index(s, i, e, 0);
            lemma_match_index(s, i, e, 1);
            assert(s[i] == '\\' && s[i + 1] == '"');
            assert(seq![s[i + 1]] + rest =~= body);
        } else if c == '\\' {
            lemma_match_index(s, i, e, 0);
            lemma_match_index(s, i, e, 1);
            assert(s[i] == '\\' && s[i + 1] == '\\');
            assert(seq![s[i + 1]] + rest =~= body);
        } else if !(c >= ' ') {
            lemma_control_char(c);
            let code = c as u32;
            let hi = (code / 16) as int;
            let lo = (code % 16) as int;
            lemma_match_index(s, i, e, 0);
            lemma_match_index(s, i, e, 1);
            lemma_match_index(s, i, e, 2);
            lemma_match_index(s, i, e, 3);
            lemma_match_index(s, i, e, 4);
            lemma_match_index(s, i, e, 5);
            assert(s[i] == '\\' && s[i + 1] == 'u' && s[i + 2] == '0' && s[i + 3] == '0');
            assert(s[i + 4] == hex_char(hi) && s[i + 5] == hex_char(lo));
            lemma_hex_char(hi);
            lemma_hex_char(lo);
            let v = hex_val(s[i + 4]) * 16 + hex_val(s[i + 5]);
            assert(v == hi * 16 + lo);
            assert(v == code);
            assert(v < 32);
            assert((v as u8) == (code as u8));
            assert(((v as u8) as char) == c);
            assert(seq![(v as u8) as char] + rest =~= body);
        } else {
            lemma_match_index(s, i, e, 0);
            assert(s[i] == c);
            assert(seq![s[i]] + rest =~= body);
        }
    }
}

proof fn lemma_quoted_at(s: Seq<char>, i: int, body: Seq<char>)
    requires
        sp_match(s, i, spec_quoted(body)),
    ensures
        sp_quoted(s, i) == Some((body, i + spec_quoted(body).len())),
{
    let q = spec_quoted(body);
    assert((seq!['"'] + spec_escape(body)) + seq!['"'] =~= seq!['"'] + (spec_escape(body)
        + seq!['"']));
    lemma_match_split(s, i, seq!['"'], spec_escape(body) + seq!['"']);
    lemma_match_index(s, i, seq!['"'], 0);
    assert(s[i] == '"');
    lemma_escaped_body_at(s, i + 1, body);
}

proof fn lemma_number_at(s: Seq<char>, i: int, n: nat, bound: nat)
    requires
        sp_match(s, i, spec_dec(n)),
        n <= bound,
        i + spec_dec(n).len() == s.len() || !is_digit_char(s[i + spec_dec(n).len()]),
    ensures
        sp_number(s, i, bound) == Some((n, i + spec_dec(n).len())),
{
    let l = spec_dec(n);
    lemma_dec_digits(n);
    assert forall|k: int| i <= k < i + l.len() implies is_digit_char(#[trigger] s[k]) by {
        lemma_match_index(s, i, l, k - i);
    }
    lemma_digit_run(s, i, i + l.len() as int);
    assert(s.subrange(i, i + l.len() as int) == l);
    lemma_dec_val(n);
}

proof fn lemma_fixed_at(s: Seq<char>, i: int, f: Fixed)
    requires
        f.wf(),
        sp_match(s, i, spec_fixed_chars(f)),
        i + spec_fixed_chars(f).len() == s.len() || !is_digit_char(
            s[i + spec_fixed_chars(f).len()],
        ),
    ensures
        sp_fixed(s, i) == Some((f, i + spec_fixed_chars(f).len())),
{
    let sign = if f.neg {
        seq!['-']
    } else {
        Seq::<char>::empty()
    };
    let ip = (f.units / 100000) as nat;
    let m = (f.units % 100000) as nat;
    let w = spec_dec(ip);
    let p = spec_pad5(m);
    lemma_pad5(m);
    lemma_dec_digits(ip);
    let chars = spec_fixed_chars(f);
    assert(chars == sign + w + seq!['.'] + p);
    lemma_match_split(s, i, sign + w + seq!['.'], p);
    lemma_match_split(s, i, sign + w, seq!['.']);
    lemma_match_split(s, i, sign, w);
    let i1 = i + sign.len();
    let j = i1 + w.len();
    let e = i + chars.len();
    assert(e == j + 6);
    // the sign, if any, then the whole part
    if f.neg {
        lemma_match_index(s, i, sign, 0);
        assert(s[i] == '-');
    } else {
        lemma_match_index(s, i1, w, 0);
        assert(is_digit_char(s[i]));
    }
    // the whole part ends at the point
    lemma_match_index(s, i + (sign + w).len(), seq!['.'], 0);
    assert(s[j] == '.');
    lemma_number_at(s, i1, ip, u64::MAX as nat);
    // the five fractional digits end at the terminator
    assert forall|k: int| j + 1 <= k < j + 6 implies is_digit_char(#[trigger] s[k]) by {
        lemma_match_index(s, j + 1, p, k - (j + 1));
    }
    lemma_digit_run(s, j + 1, j + 6);
    assert(s.subrange(j + 1, j + 6) =~= p) by {
        assert forall|u: int| 0 <= u < 5 implies s.subrange(j + 1, j + 6)[u] == p[u] by {
            lemma_match_index(s, j + 1, p, u);
        }
    }
    lemma_fundamental_div_mod(f.units as int, 100000);
    assert(ip * 100000 + m == f.units);
}

proof fn lemma_opt_fixed_at(s: Seq<char>, i: int, o: Option<Fixed>)
    requires
        o matches Some(f) ==> f.wf(),
        sp_match(s, i, spec_opt_fixed_chars(o)),
        i + spec_opt_fixed_chars(o).len() == s.len() || !is_digit_char(
            s[i + spec_opt_fixed_chars(o).len()],
        ),
    ensures
        sp_opt_fixed(s, i) == Some((o, i + spec_opt_fixed_chars(o).len())),
{
    reveal_strlit("null");
    match o {
        None => {
            assert(sp_lit(s, i, lit_null()) == Some(i + 4));
        },
        Some(f) => {
            let chars = spec_fixed_chars(f);
            assert(chars.len() > 0);
            if f.neg {
                lemma_match_index(s, i, chars, 0);
                assert(s[i] == '-');
            } else {
                lemma_dec_digits((f.units / 100000) as nat);
                lemma_match_index(s, i, chars, 0);
                assert(chars[0] == spec_dec((f.units / 100000) as nat)[0]);
                assert(is_digit_char(s[i]));
            }
            assert(s[i] != 'n');
            assert(sp_lit(s, i, lit_null()) is None) by {
                if sp_match(s, i, lit_null()) {
                    lemma_match_index(s, i, lit_null(), 0);
                }
            }
            lemma_fixed_at(s, i, f);
        },
    }
}

proof fn lemma_opt_quoted_at(s: Seq<char>, i: int, o: Option<Seq<char>>)
    requires
        sp_match(s, i, spec_opt_quoted(o)),
    ensures
        sp_opt_quoted(s, i) == Some((o, i + spec_opt_quoted(o).len())),
{
    reveal_strlit("null");
    match o {
        None => {
            lemma_match_index(s, i, lit_null(), 0);
            assert(s[i] == 'n');
            assert(sp_lit(s, i, lit_null()) == Some(i + 4));
        },
        Some(b) => {
            lemma_match_index(s, i, spec_quoted(b), 0);
            assert(s[i] == '"');
            lemma_quoted_at(s, i, b);
        },
    }
}

/// The first nine pieces of the wire text, as one prefix.
pub open spec fn wire_prefix9(g: WireOrderView) -> Seq<char> {
    lit_symbol() + spec_quoted(g.symbol) + lit_action() + spec_dec(g.action as nat)
        + lit_volume() + spec_fixed_chars(g.volume) + lit_price() + spec_fixed_chars(g.price)
        + lit_stop_loss()
}

/// Each of the last eight pieces of the wire text stands at its own offset.
pub open spec fn wire_laid_out_hi(g: WireOrderView) -> bool {
    let s = spec_encode(g);
    let o9 = wire_prefix9(g).len() as int;
    let o10 = o9 + spec_opt_fixed_chars(g.stop_loss).len();
    let o11 = o10 + lit_take_profit().len();
    let o12 = o11 + spec_opt_fixed_chars(g.take_profit).len();
    let o13 = o12 + lit_comment().len();
    let o14 = o13 + spec_opt_quoted(g.comment).len();
    let o15 = o14 + lit_magic().len();
    let o16 = o15 + spec_dec(g.magic as nat).len();
    let o17 = o16 + lit_close().len();
    &&& sp_match(s, o9, spec_opt_fixed_chars(g.stop_loss))
    &&& sp_match(s, o10, lit_take_profit())
    &&& sp_match(s, o11, spec_opt_fixed_chars(g.take_profit))
    &&& sp_match(s, o12, lit_comment())
    &&& sp_match(s, o13, spec_opt_quoted(g.comment))
    &&& sp_match(s, o14, lit_magic())
    &&& sp_match(s, o15, spec_dec(g.magic as nat))
    &&& sp_match(s, o16, lit_close())
    &&& o17 == s.len()
}

/// Each of the first nine pieces of the wire text stands at its own offset.
pub open spec fn wire_laid_out_lo(g: WireOrderView) -> bool {
    let s = spec_encode(g);
    let o1 = lit_symbol().len() as int;
    let o2 = o1 + spec_quoted(g.symbol).len();
    let o3 = o2 + lit_action().len();
    let o4 = o3 + spec_dec(g.action as nat).len();
    let o5 = o4 + lit_volume().len();
    let o6 = o5 + spec_fixed_chars(g.volume).len();
    let o7 = o6 + lit_price().len();
    let o8 = o7 + spec_fixed_chars(g.price).len();
    &&& sp_match(s, 0, lit_symbol())
    &&& sp_match(s, o1, spec_quoted(g.symbol))
    &&& sp_match(s, o2, lit_action())
    &&& sp_match(s, o3, spec_dec(g.action as nat))
    &&& sp_match(s, o4, lit_volume())
    &&& sp_match(s, o5, spec_fixed_chars(g.volume))
    &&& sp_match(s, o6, lit_price())
    &&& sp_match(s, o7, spec_fixed_chars(g.price))
    &&& sp_match(s, o8, lit_stop_loss())
}

#[verifier::rlimit(100)]
#[verifier::spinoff_prover]
proof fn lemma_pieces_hi(g: WireOrderView)
    ensures
        sp_match(spec_encode(g), 0, wire_prefix9(g)),
        wire_laid_out_hi(g),
{
    let s = spec_encode(g);
    let p9pre = wire_prefix9(g);
    let p10 = spec_opt_fixed_chars(g.stop_loss);
    let p11 = lit_take_profit();
    let p12 = spec_opt_fixed_chars(g.take_profit);
    let p13 = lit_comment();
    let p14 = spec_opt_quoted(g.comment);
    let p15 = lit_magic();
    let p16 = spec_dec(g.magic as nat);
    let p17 = lit_close();
    assert(sp_match(s, 0, s)) by {
        assert(s.subrange(0, s.len() as int) =~= s);
    }
    assert(s == ((((((((p9pre + p10) + p11) + p12) + p13) + p14) + p15) + p16) + p17));
    lemma_match_split(s, 0, (((((((p9pre + p10) + p11) + p12) + p13) + p14) + p15) + p16), p17);
    lemma_match_split(s, 0, ((((((p9pre + p10) + p11) + p12) + p13) + p14) + p15), p16);
    lemma_match_split(s, 0, (((((p9pre + p10) + p11) + p12) + p13) + p14), p15);
    lemma_match_split(s, 0, ((((p9pre + p10) + p11) + p12) + p13), p14);
    lemma_match_split(s, 0, (((p9pre + p10) + p11) + p12), p13);
    lemma_match_split(s, 0, ((p9pre + p10) + p11), p12);
    lemma_match_split(s, 0, (p9pre + p10), p11);
    lemma_match_split(s, 0, p9pre, p10);
}

#[verifier::rlimit(100)]
#[verifier::spinoff_prover]
proof fn lemma_pieces_lo(g: WireOrderView)
    requires
        sp_match(spec_encode(g), 0, wire_prefix9(g)),
    ensures
        wire_laid_out_lo(g),
{
    let s = spec_encode(g);
    let p1 = lit_symbol();
    let p2 = spec_quoted(g.symbol);
    let p3 = lit_action();
    let p4 = spec_dec(g.action as nat);
    let p5 = lit_volume();
    let p6 = spec_fixed_chars(g.volume);
    let p7 = lit_price();
    let p8 = spec_fixed_chars(g.price);
    let p9 = lit_stop_loss();
    assert(wire_prefix9(g) == ((((((((p1 + p2) + p3) + p4) + p5) + p6) + p7) + p8) + p9));
    lemma_match_split(s, 0, (((((((p1 + p2) + p3) + p4) + p5) + p6) + p7) + p8), p9);
    lemma_match_split(s, 0, ((((((p1 + p2) + p3) + p4) + p5) + p6) + p7), p8);
    lemma_match_split(s, 0, (((((p1 + p2) + p3) + p4) + p5) + p6), p7);
    lemma_match_split(s, 0, ((((p1 + p2) + p3) + p4) + p5), p6);
    lemma_match_split(s, 0, (((p1 + p2) + p3) + p4), p5);
    lemma_match_split(s, 0, ((p1 + p2) + p3), p4);
    lemma_match_split(s, 0, (p1 + p2), p3);
    lemma_match_split(s, 0, p1, p2);
}

/// Decoding the wire text of a well-formed order gives the order back:
/// in particular symbol and volume survive the trip exactly.
#[verifier::rlimit(100)]
#[verifier::spinoff_prover]
pub proof fn lemma_wire_round_trip(g: WireOrderView)
    requires
        g.wf(),
    ensures
        sp_decode(spec_encode(g)) == Some(g),
{
    let s = spec_encode(g);
    lemma_pieces_hi(g);
    lemma_pieces_lo(g);
    let p2 = spec_quoted(g.symbol);
    let p4 = spec_dec(g.action as nat);
    let p6 = spec_fixed_chars(g.volume);
    let p8 = spec_fixed_chars(g.price);
    let p10 = spec_opt_fixed_chars(g.stop_loss);
    let p12 = spec_opt_fixed_chars(g.take_profit);
    let p14 = spec_opt_quoted(g.comment);
    let p16 = spec_dec(g.magic as nat);
    let o1 = lit_symbol().len() as int;
    let o2 = o1 + p2.len();
    let o3 = o2 + lit_action().len();
    let o4 = o3 + p4.len();
    let o5 = o4 + lit_volume().len();
    let o6 = o5 + p6.len();
    let o7 = o6 + lit_price().len();
    let o8 = o7 + p8.len();
    let o9 = o8 + lit_stop_loss().len();
    let o10 = o9 + p10.len();
    let o11 = o10 + lit_take_profit().len();
    let o12 = o11 + p12.len();
    let o13 = o12 + lit_comment().len();
    let o14 = o13 + p14.len();
    let o15 = o14 + lit_magic().len();
    let o16 = o15 + p16.len();
    let o17 = o16 + lit_close().len();
    assert(o9 == wire_prefix9(g).len());
    // the first character after each number is not a digit
    reveal_strlit(",\"volume\":");
    reveal_strlit(",\"price\":");
    reveal_strlit(",\"stop_loss\":");
    reveal_strlit(",\"take_profit\":");
    reveal_strlit(",\"comment\":");
    reveal_strlit("}");
    lemma_match_index(s, o4, lit_volume(), 0);
    lemma_match_index(s, o6, lit_price(), 0);
    lemma_match_index(s, o8, lit_stop_loss(), 0);
    lemma_match_index(s, o10, lit_take_profit(), 0);
    lemma_match_index(s, o12, lit_comment(), 0);
    lemma_match_index(s, o16, lit_close(), 0);
    assert(s[o4] == ',' && s[o6] == ',' && s[o8] == ',' && s[o10] == ',' && s[o12] == ','
        && s[o16] == '}');
    // walk the parse
    assert(sp_lit(s, 0, lit_symbol()) == Some(o1));
    lemma_quoted_at(s, o1, g.symbol);
    assert(sp_quoted(s, o1) == Some((g.symbol, o2)));
    assert(sp_lit(s, o2, lit_action()) == Some(o3));
    lemma_number_at(s, o3, g.action as nat, u32::MAX as nat);
    assert(sp_number(s, o3, u32::MAX as nat) == Some((g.action as nat, o4)));
    assert(sp_lit(s, o4, lit_volume()) == Some(o5));
    lemma_fixed_at(s, o5, g.volume);
    assert(sp_fixed(s, o5) == Some((g.volume, o6)));
    assert(sp_lit(s, o6, lit_price()) == Some(o7));
    lemma_fixed_at(s, o7, g.price);
    assert(sp_fixed(s, o7) == Some((g.price, o8)));
    assert(sp_lit(s, o8, lit_stop_loss()) == Some(o9));
    lemma_opt_fixed_at(s, o9, g.stop_loss);
    assert(sp_opt_fixed(s, o9) == Some((g.stop_loss, o10)));
    assert(sp_lit(s, o10, lit_take_profit()) == Some(o11));
    lemma_opt_fixed_at(s, o11, g.take_profit);
    assert(sp_opt_fixed(s, o11) == Some((g.take_profit, o12)));
    assert(sp_lit(s, o12, lit_comment()) == Some(o13));
    lemma_opt_quoted_at(s, o13, g.comment);
    assert(sp_opt_quoted(s, o13) == Some((g.comment, o14)));
    assert(sp_lit(s, o14, lit_magic()) == Some(o15));
    lemma_number_at(s, o15, g.magic as nat, u32::MAX as nat);
    assert(sp_number(s, o15, u32::MAX as nat) == Some((g.magic as nat, o16)));
    assert(sp_lit(s, o16, lit_close()) == Some(o17));
    assert(o17 == s.len());
}

// ---------------------------------------------------------------------------
// Executable decoder
// ---------------------------------------------------------------------------

/// Consume the literal `l` at position `i`.
fn expect_lit(s: &Vec<char>, i: usize, l: &str) -> (r: Option<usize>)
    requires
        i <= s@.len(),
    ensures
        ({
            let sp = sp_lit(s@, i as int, l@);
            match r {
                Some(j) => sp == Some(j as int) && i <= j <= s@.len(),
                None => sp is None,
            }
        }),
{
    let lc = string_chars(l);
    if s.len() - i < lc.len() {
        return None;
    }
    let mut k: usize = 0;
    while k < lc.len()
        invariant
            i + lc@.len() <= s@.len(),
            i + lc@.len() <= usize::MAX,
            lc@ == l@,
            k <= lc@.len(),
            forall|u: int| 0 <= u < k ==> s@[i + u] == lc@[u],
        decreases lc@.len() - k,
    {
        if s[i + k] != lc[k] {
            proof {
                if sp_match(s@, i as int, l@) {
                    assert(s@.subrange(i as int, i + l@.len() as int)[k as int] == s@[i + k]);
                }
            }
            return None;
        }
        k += 1;
    }
    proof {
        assert(s@.subrange(i as int, i + l@.len() as int) =~= l@) by {
            assert forall|u: int| 0 <= u < l@.len() implies s@.subrange(
                i as int,
                i + l@.len() as int,
            )[u] == l@[u] by {}
        }
    }
    Some(i + lc.len())
}

/// Read a string body at `i`, the opening quote already consumed.
fn parse_str_body(s: &Vec<char>, i: usize) -> (r: Option<(Vec<char>, usize)>)
    requires
        i <= s@.len(),
    ensures
        ({
            let sp = sp_str_body(s@, i as int);
            match r {
                Some((b, j)) => sp == Some((b@, j as int)) && i <= j <= s@.len(),
                None => sp is None,
            }
        }),
{
    let mut out: Vec<char> = Vec::new();
    let mut cur = i;
    loop
        invariant
            i <= cur <= s@.len(),
            ({
                let sp0 = sp_str_body(s@, i as int);
                match sp_str_body(s@, cur as int) {
                    Some((t, j)) => sp0 == Some((out@ + t, j)),
                    None => sp0 is None,
                }
            }),
        decreases s@.len() - cur,
    {
        if cur == s.len() {
            return None;
        }
        let ghost pre = out@;
        let c = s[cur];
        if c == '"' {
            proof {
                assert(out@ + Seq::<char>::empty() =~= out@);
            }
            return Some((out, cur + 1));
        } else if c == '\\' {
            if cur + 1 == s.len() {
                return None;
            }
            let e = s[cur + 1];
            if e == '"' || e == '\\' {
                out.push(e);
                proof {
                    if let Some((t, _j)) = sp_str_body(s@, cur + 2) {
                        assert((pre + (seq![e] + t)) =~= (pre.push(e) + t));
                    }
                }
                cur = cur + 2;
            } else if e == 'u' {
                if s.len() - cur < 6 {
                    return None;
                }
                if s[cur + 2] != '0' || s[cur + 3] != '0' || !is_hex(s[cur + 4]) || !is_hex(
                    s[cur + 5],
                ) {
                    return None;
                }
                let v = char_hex(s[cur + 4]) * 16 + char_hex(s[cur + 5]);
                if v >= 32 {
                    return None;
                }
                let d = (v as u8) as char;
                out.push(d);
                proof {
                    if let Some((t, _j)) = sp_str_body(s@, cur + 6) {
                        assert((pre + (seq![d] + t)) =~= (pre.push(d) + t));
                    }
                }
                cur = cur + 6;
            } else {
                return None;
            }
        } else {
            out.push(c);
            proof {
                if let Some((t, _j)) = sp_str_body(s@, cur + 1) {
                    assert((pre + (seq![c] + t)) =~= (pre.push(c) + t));
                }
            }
            cur = cur + 1;
        }
    }
}

/// Consume a quoted string at position `i`.
fn parse_quoted(s: &Vec<char>, i: usize) -> (r: Option<(Vec<char>, usize)>)
    requires
        i <= s@.len(),
    ensures
        ({
            let sp = sp_quoted(s@, i as int);
            match r {
                Some((b, j)) => sp == Some((b@, j as int)) && i <= j <= s@.len(),
                None => sp is None,
            }
        }),
{
    if i == s.len() || s[i] != '"' {
        return None;
    }
    parse_str_body(s, i + 1)
}

/// Consume a number at position `i`, no greater than `u32::MAX`.
fn parse_u32_num(s: &Vec<char>, i: usize) -> (r: Option<(u32, usize)>)
    requires
        i <= s@.len(),
    ensures
        ({
            let sp = sp_number(s@, i as int, u32::MAX as nat);
            match r {
                Some((v, j)) => sp == Some((v as nat, j as int)) && i <= j <= s@.len(),
                None => sp is None,
            }
        }),
{
    let n = s.len();
    proof {
        lemma_digit_run_bounds(s@, i as int);
    }
    match parse_u64(s, i) {
        None => None,
        Some((v, j)) => {
            if v > 0xFFFF_FFFFu64 {
                None
            } else {
                Some((v as u32, j))
            }
        },
    }
}

/// Consume a fixed-point number at position `i`.
fn parse_fixed(s: &Vec<char>, i: usize) -> (r: Option<(Fixed, usize)>)
    requires
        i <= s@.len(),
    ensures
        ({
            let sp = sp_fixed(s@, i as int);
            match r {
                Some((f, j)) => sp == Some((f, j as int)) && i <= j <= s@.len(),
                None => sp is None,
            }
        }),
{
    let neg = i < s.len() && s[i] == '-';
    let i1 = if neg {
        i + 1
    } else {
        i
    };
    proof {
        lemma_digit_run_bounds(s@, i1 as int);
    }
    let (ip, j) = match parse_u64(s, i1) {
        None => {
            return None;
        },
        Some(x) => x,
    };
    if j == s.len() || s[j] != '.' {
        return None;
    }
    proof {
        lemma_digit_run_bounds(s@, (j + 1) as int);
    }
    match parse_u64(s, j + 1) {
        None => {
            proof {
                let k = digit_run_end(s@, (j + 1) as int);
                if k == j + 6 {
                    lemma_val_upper(s@.subrange((j + 1) as int, k));
                    lemma_pow10_5();
                }
            }
            None
        },
        Some((fr, k)) => {
            if k - (j + 1) != 5 {
                return None;
            }
            let units = match ip.checked_mul(100000) {
                None => {
                    return None;
                },
                Some(x) => x,
            };
            let units = match units.checked_add(fr) {
                None => {
                    return None;
                },
                Some(x) => x,
            };
            Some((Fixed { neg: neg && units > 0, units }, k))
        },
    }
}

/// Consume `null` or a fixed-point number at position `i`.
fn parse_opt_fixed(s: &Vec<char>, i: usize) -> (r: Option<(Option<Fixed>, usize)>)
    requires
        i <= s@.len(),
    ensures
        ({
            let sp = sp_opt_fixed(s@, i as int);
            match r {
                Some((o, j)) => sp == Some((o, j as int)) && i <= j <= s@.len(),
                None => sp is None,
            }
        }),
{
    match expect_lit(s, i, "null") {
        Some(j) => Some((None, j)),
        None => match parse_fixed(s, i) {
            Some((f, j)) => Some((Some(f), j)),
            None => None,
        },
    }
}

/// Consume `null` or a quoted string at position `i`.
fn parse_opt_quoted(s: &Vec<char>, i: usize) -> (r: Option<(Option<Vec<char>>, usize)>)
    requires
        i <= s@.len(),
    ensures
        ({
            let sp = sp_opt_quoted(s@, i as int);
            match r {
                Some((o, j)) => sp == Some(
                    (
                        match o {
                            Some(b) => Some(b@),
                            None => None,
                        },
                        j as int,
                    ),
                ) && i <= j <= s@.len(),
                None => sp is None,
            }
        }),
{
    if i < s.len() && s[i] == '"' {
        match parse_quoted(s, i) {
            Some((b, j)) => Some((Some(b), j)),
            None => None,
        }
    } else {
        match expect_lit(s, i, "null") {
            Some(j) => Some((None, j)),
            None => None,
        }
    }
}

/// Read a whole order object back from its wire text. Succeeds exactly
/// where the parsing specification does, and returns the order it names.
#[verifier::rlimit(60)]
pub fn decode_wire_order(s: &Vec<char>) -> (r: Option<WireOrder>)
    ensures
        ({
            let sp = sp_decode(s@);
            match r {
                Some(o) => sp == Some(o@),
                None => sp is None,
            }
        }),
{
    let i1 = match expect_lit(s, 0, "{\"symbol\":") {
        None => {
            return None;
        },
        Some(x) => x,
    };
    let (symbol, i2) = match parse_quoted(s, i1) {
        None => {
            return None;
        },
        Some(x) => x,
    };
    let i3 = match expect_lit(s, i2, ",\"action\":") {
        None => {
            return None;
        },
        Some(x) => x,
    };
    let (action, i4) = match parse_u32_num(s, i3) {
        None => {
            return None;
        },
        Some(x) => x,
    };
    let i5 = match expect_lit(s, i4, ",\"volume\":") {
        None => {
            return None;
        },
        Some(x) => x,
    };
    let (volume, i6) = match parse_fixed(s, i5) {
        None => {
            return None;
        },
        Some(x) => x,
    };
    let i7 = match expect_lit(s, i6, ",\"price\":") {
        None => {
            return None;
        },
        Some(x) => x,
    };
    let (price, i8) = match parse_fixed(s, i7) {
        None => {
            return None;
        },
        Some(x) => x,
    };
    let i9 = match expect_lit(s, i8, ",\"stop_loss\":") {
        None => {
            return None;
        },
        Some(x) => x,
    };
    let (stop_loss, i10) = match parse_opt_fixed(s, i9) {
        None => {
            return None;
        },
        Some(x) => x,
    };
    let i11 = match expect_lit(s, i10, ",\"take_profit\":") {
        None => {
            return None;
        },
        Some(x) => x,
    };
    let (take_profit, i12) = match parse_opt_fixed(s, i11) {
        None => {
            return None;
        },
        Some(x) => x,
    };
    let i13 = match expect_lit(s, i12, ",\"comment\":") {
        None => {
            return None;
        },
        Some(x) => x,
    };
    let (comment, i14) = match parse_opt_quoted(s, i13) {
        None => {
            return None;
        },
        Some(x) => x,
    };
    let i15 = match expect_lit(s, i14, ",\"magic\":") {
        None => {
            return None;
        },
        Some(x) => x,
    };
    let (magic, i16) = match parse_u32_num(s, i15) {
        None => {
            return None;
        },
        Some(x) => x,
    };
    let i17 = match expect_lit(s, i16, "}") {
        None => {
            return None;
        },
        Some(x) => x,
    };
    if i17 != s.len() {
        return None;
    }
    Some(
        WireOrder {
            symbol,
            action,
            volume,
            price,
            stop_loss,
            take_profit,
            comment,
            magic,
        },
    )
}

} // verus!

