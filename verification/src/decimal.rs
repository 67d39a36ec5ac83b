//! Exact decimal numbers for the numeric header tags (BPM, GAP, VIDEOGAP).
//!
//! A chart may write a decimal with either `.` or `,` as the separator;
//! values are normalized and kept exactly as written, as a sign, a digit
//! string read as an integer, and the count of fractional digits.

use vstd::prelude::*;
use crate::num::{all_digits, check_digits, digits_val, digits_to_u64, lemma_digits_val_nonneg};
use crate::text::spec_find;

verus! {

/// An exactly-represented decimal number: the value is
/// `(-1)^negative * mantissa / 10^scale`.
#[derive(Clone, Copy, Debug, PartialEq, Eq, Structural)]
pub struct Decimal {
    pub negative: bool,
    pub mantissa: u64,
    pub scale: usize,
}

impl Decimal {
    /// The timing offset used when a chart gives no GAP tag.
    pub fn zero() -> (r: Decimal)
        ensures
            r == Decimal::spec_zero(),
    {
        Decimal { negative: false, mantissa: 0, scale: 0 }
    }

    pub open spec fn spec_zero() -> Decimal {
        Decimal { negative: false, mantissa: 0, scale: 0 }
    }
}

/// Normalization of the locale decimal separator: every `,` becomes `.`.
pub open spec fn spec_normalize_seps(s: Seq<char>) -> Seq<char> {
    s.map_values(|c: char| if c == ',' { '.' } else { c })
}

pub fn normalize_seps(v: &Vec<char>) -> (r: Vec<char>)
    ensures
        r@ == spec_normalize_seps(v@),
{
    let mut r: Vec<char> = Vec::new();
    let mut i: usize = 0;
    while i < v.len()
        invariant
            i <= v.len(),
            r@ == spec_normalize_seps(v@.take(i as int)),
        decreases v.len() - i,
    {
        let c = v[i];
        r.push(if c == ',' { '.' } else { c });
        proof {
            assert(r@ =~= spec_normalize_seps(v@.take(i as int + 1)));
        }
        i += 1;
    }
    proof {
        assert(v@.take(v@.len() as int) =~= v@);
    }
    r
}

/// The decimal grammar after separator normalization: an optional sign, then
/// digits with at most one `.`, and at least one digit in all.
pub open spec fn decimal_grammar(s: Seq<char>) -> bool {
    s.len() > 0 && {
        let body = decimal_body(s);
        let i = spec_find(body, '.');
        let ipart = body.take(i);
        let fpart = decimal_frac(s);
        body.len() > 0 && all_digits(ipart) && all_digits(fpart) && ipart.len() + fpart.len() > 0
    }
}

pub open spec fn decimal_body(s: Seq<char>) -> Seq<char> {
    if s.len() > 0 && (s[0] == '+' || s[0] == '-') {
        s.drop_first()
    } else {
        s
    }
}

pub open spec fn decimal_int_part(s: Seq<char>) -> Seq<char> {
    decimal_body(s).take(spec_find(decimal_body(s), '.'))
}

pub open spec fn decimal_frac(s: Seq<char>) -> Seq<char> {
    let body = decimal_body(s);
    let i = spec_find(body, '.');
    if i == body.len() {
        Seq::empty()
    } else {
        body.skip(i + 1)
    }
}

pub open spec fn decimal_is_negative(s: Seq<char>) -> bool {
    s.len() > 0 && s[0] == '-'
}

/// What parsing a normalized decimal string yields: `None` off the grammar
/// or when the digits exceed `u64::MAX`, the exact value otherwise.
pub open spec fn spec_parse_decimal(s: Seq<char>) -> Option<Decimal> {
    if !decimal_grammar(s) {
        None
    } else {
        let m = digits_val(decimal_int_part(s) + decimal_frac(s));
        if m <= u64::MAX {
            Some(
                Decimal {
                    negative: decimal_is_negative(s),
                    mantissa: m as u64,
                    scale: decimal_frac(s).len() as usize,
                },
            )
        } else {
            None
        }
    }
}

/// A numeric tag value as the chart grammar reads it: separators are
/// normalized, then the decimal grammar applies.
pub open spec fn spec_parse_number(s: Seq<char>) -> Option<Decimal> {
    spec_parse_decimal(spec_normalize_seps(s))
}

pub fn parse_decimal(v: &Vec<char>) -> (r: Option<Decimal>)
    ensures
        r == spec_parse_decimal(v@),
{
    if v.len() == 0 {
        return None;
    }
    let c0 = v[0];
    let has_sign: bool = c0 == '+' || c0 == '-';
    let neg: bool = c0 == '-';
    let from: usize = if has_sign {
        1
    } else {
        0
    };
    proof {
        if has_sign {
            assert(v@.subrange(1, v@.len() as int) =~= v@.drop_first());
        } else {
            assert(v@.subrange(0, v@.len() as int) =~= v@);
        }
        assert(v@.subrange(from as int, v@.len() as int) == decimal_body(v@));
    }
    if v.len() == from {
        return None;
    }
    let dot = crate::text::find_char_from(v, from, '.');
    let ghost body = decimal_body(v@);
    proof {
        crate::text::lemma_find(body, '.');
        assert(v@.skip(from as int) =~= body);
        assert(dot - from == spec_find(body, '.'));
        assert(v@.subrange(from as int, dot as int) =~= body.take(dot - from));
        assert(v@.subrange(from as int, dot as int) == decimal_int_part(v@));
        if dot < v.len() {
            assert(v@.subrange(dot as int + 1, v@.len() as int) =~= body.skip(dot - from + 1));
            assert(v@.subrange(dot as int + 1, v@.len() as int) == decimal_frac(v@));
        } else {
            assert(decimal_frac(v@) =~= Seq::<char>::empty());
        }
    }
    if !check_digits(v, from, dot) {
        return None;
    }
    let frac_from: usize = if dot == v.len() {
        dot
    } else {
        dot + 1
    };
    if !check_digits(v, frac_from, v.len()) {
        proof {
            assert(v@.subrange(frac_from as int, v@.len() as int) == decimal_frac(v@));
        }
        return None;
    }
    proof {
        assert(v@.subrange(frac_from as int, v@.len() as int) == decimal_frac(v@));
    }
    if dot - from == 0 && frac_from == v.len() {
        proof {
            assert(decimal_int_part(v@).len() + decimal_frac(v@).len() == 0);
        }
        return None;
    }
    // Gather the digits of both parts and read them as one integer.
    let mut digits = crate::text::subvec(v, from, dot);
    let mut k: usize = frac_from;
    while k < v.len()
        invariant
            frac_from <= k <= v.len(),
            frac_from as int == if dot == v@.len() { dot as int } else { dot + 1 },
            dot <= v@.len(),
            digits@ == v@.subrange(from as int, dot as int) + v@.subrange(
                frac_from as int,
                k as int,
            ),
            from <= dot,
            from <= frac_from,
        decreases v.len() - k,
    {
        digits.push(v[k]);
        proof {
            assert(digits@ =~= v@.subrange(from as int, dot as int) + v@.subrange(
                frac_from as int,
                k as int + 1,
            ));
        }
        k += 1;
    }
    proof {
        assert(digits@ == decimal_int_part(v@) + decimal_frac(v@));
        assert(digits@.subrange(0, digits@.len() as int) =~= digits@);
        assert(all_digits(digits@)) by {
            let ip = decimal_int_part(v@);
            let fp = decimal_frac(v@);
            assert forall|i: int| 0 <= i < digits@.len() implies crate::num::is_digit_char(
                #[trigger] digits@[i],
            ) by {
                if i < ip.len() {
                    assert(digits@[i] == ip[i]);
                } else {
                    assert(digits@[i] == fp[i - ip.len()]);
                }
            }
        }
    }
    match digits_to_u64(&digits, 0, digits.len()) {
        Some(m) => {
            let scale = v.len() - frac_from;
            proof {
                assert(decimal_frac(v@).len() == v@.len() - frac_from);
            }
            Some(Decimal { negative: neg, mantissa: m, scale })
        },
        None => None,
    }
}

/// Parse a numeric tag value, tolerating `,` as the decimal separator.
pub fn parse_number(v: &Vec<char>) -> (r: Option<Decimal>)
    ensures
        r == spec_parse_number(v@),
{
    let normalized = normalize_seps(v);
    parse_decimal(&normalized)
}

/// A value written with `,` as its decimal separator parses exactly as the
/// same value written with `.`: normalizing the separators of a string does
/// not change what the numeric grammar makes of it.
pub proof fn lemma_separator_equivalence(s: Seq<char>)
    ensures
        spec_parse_number(spec_normalize_seps(s)) == spec_parse_number(s),
{
    assert(spec_normalize_seps(spec_normalize_seps(s)) =~= spec_normalize_seps(s));
}

} // verus!
