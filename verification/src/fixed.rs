//! Fixed-point decimal quantities.
//!
//! Volumes, prices and money amounts travel through this crate as exact
//! fixed-point numbers with five decimal places: a sign and a count of
//! hundred-thousandths. This keeps every arithmetic and formatting step
//! inside the provable fragment while matching the decimal notation the
//! wire schema uses.

use vstd::prelude::*;
use crate::text::{
    spec_dec, spec_pad5, trim_zeros, all_digits, push_dec_string, push_pad5_chars, digit_char_str,
    lemma_pad5,
};

verus! {

/// How many units make one whole: 10^5, for five decimal places.
pub const FIXED_SCALE: u64 = 100000;

/// A signed fixed-point decimal with five decimal places.
///
/// The represented value is `units / 100000`, negated when `neg` is set.
/// Well-formed values never carry a negative zero, so each number has
/// exactly one representation.
#[derive(Clone, Copy, Debug, PartialEq, Eq, Structural)]
pub struct Fixed {
    pub neg: bool,
    pub units: u64,
}

impl Fixed {
    /// The value in signed hundred-thousandths.
    pub open spec fn spec_value(self) -> int {
        if self.neg {
            -(self.units as int)
        } else {
            self.units as int
        }
    }

    /// No negative zero: the representation is canonical.
    pub open spec fn wf(self) -> bool {
        self.neg ==> self.units > 0
    }

    /// The canonical zero.
    pub fn zero() -> (r: Fixed)
        ensures
            r.wf(),
            r.spec_value() == 0,
    {
        Fixed { neg: false, units: 0 }
    }

    /// A non-negative quantity of `units` hundred-thousandths.
    pub fn from_units(units: u64) -> (r: Fixed)
        ensures
            r.wf(),
            r.spec_value() == units as int,
    {
        Fixed { neg: false, units }
    }

    /// A quantity of `units` hundred-thousandths with the given sign;
    /// a zero magnitude is always stored as the canonical zero.
    pub fn new(neg: bool, units: u64) -> (r: Fixed)
        ensures
            r == spec_fixed_normal(Fixed { neg, units }),
            r.wf(),
            r.spec_value() == if neg { -(units as int) } else { units as int },
    {
        Fixed { neg: neg && units > 0, units }
    }

    /// Whether this value is exactly zero.
    pub fn is_zero(&self) -> (r: bool)
        ensures
            r == (self.spec_value() == 0),
    {
        self.units == 0
    }

    /// The human-readable decimal text of this value: sign, whole part,
    /// and the fractional digits with trailing zeros removed; a whole
    /// number shows no point at all.
    pub fn display_string(&self) -> (r: String)
        requires
            self.wf(),
        ensures
            r@ == spec_fixed_display(*self),
    {
        let mut out = String::new();
        if self.neg {
            out.append("-");
        }
        push_dec_string(&mut out, self.units / 100000);
        let frac = self.units % 100000;
        if frac != 0 {
            out.append(".");
            let ghost base = out@;
            let mut digits: Vec<char> = Vec::new();
            push_pad5_chars(&mut digits, frac);
            proof {
                lemma_pad5(frac as nat);
            }
            while digits.len() > 0 && digits[digits.len() - 1] == '0'
                invariant
                    trim_zeros(digits@) == trim_zeros(spec_pad5(frac as nat)),
                    all_digits(digits@),
                decreases digits.len(),
            {
                let _dropped = digits.pop();
            }
            proof {
                assert(trim_zeros(digits@) == digits@);
            }
            let mut k: usize = 0;
            while k < digits.len()
                invariant
                    k <= digits@.len(),
                    all_digits(digits@),
                    out@ == base + digits@.take(k as int),
                decreases digits@.len() - k,
            {
                out.append(digit_char_str(digits[k]));
                proof {
                    assert(out@ =~= base + digits@.take((k + 1) as int));
                }
                k += 1;
            }
            proof {
                assert(digits@.take(digits@.len() as int) =~= digits@);
            }
        }
        proof {
            reveal_strlit("-");
            reveal_strlit(".");
            assert(out@ =~= spec_fixed_display(*self));
        }
        out
    }
}

/// The canonical representation of the same value: a negative zero
/// becomes the plain zero.
pub open spec fn spec_fixed_normal(f: Fixed) -> Fixed {
    Fixed { neg: f.neg && f.units > 0, units: f.units }
}

/// The display text of a fixed-point value.
pub open spec fn spec_fixed_display(f: Fixed) -> Seq<char> {
    (if f.neg { seq!['-'] } else { Seq::<char>::empty() }) + spec_dec((f.units / 100000) as nat)
        + (if f.units % 100000 == 0 { Seq::<char>::empty() } else {
            seq!['.'] + trim_zeros(spec_pad5((f.units % 100000) as nat))
        })
}

} // verus!
