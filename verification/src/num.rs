//! Decimal digit strings: the integer grammar shared by note fields, beat
//! values, years and HTTP ranges, and rendering of numbers back to text.

use vstd::prelude::*;

verus! {

pub open spec fn is_digit_char(c: char) -> bool {
    '0' <= c && c <= '9'
}

pub open spec fn digit_val(c: char) -> int {
    c as int - '0' as int
}

pub open spec fn all_digits(s: Seq<char>) -> bool {
    forall|i: int| 0 <= i < s.len() ==> is_digit_char(#[trigger] s[i])
}

/// Numeric value of a digit string, most significant digit first.
pub open spec fn digits_val(s: Seq<char>) -> int
    decreases s.len(),
{
    if s.len() == 0 {
        0
    } else {
        digits_val(s.drop_last()) * 10 + digit_val(s.last())
    }
}

pub proof fn lemma_digits_val_nonneg(s: Seq<char>)
    requires
        all_digits(s),
    ensures
        digits_val(s) >= 0,
    decreases s.len(),
{
    if s.len() > 0 {
        assert(all_digits(s.drop_last()));
        lemma_digits_val_nonneg(s.drop_last());
    }
}

pub fn is_digit(c: char) -> (r: bool)
    ensures
        r == is_digit_char(c),
{
    '0' <= c && c <= '9'
}

/// Check that `v[from..to]` consists of digits only.
pub fn check_digits(v: &Vec<char>, from: usize, to: usize) -> (r: bool)
    requires
        from <= to <= v.len(),
    ensures
        r == all_digits(v@.subrange(from as int, to as int)),
{
    let ghost sub = v@.subrange(from as int, to as int);
    let mut i: usize = from;
    while i < to
        invariant
            from <= i <= to <= v.len(),
            sub == v@.subrange(from as int, to as int),
            forall|k: int| 0 <= k < i - from ==> is_digit_char(#[trigger] sub[k]),
        decreases to - i,
    {
        if !is_digit(v[i]) {
            proof {
                assert(sub[i - from] == v@[i as int]);
            }
            return false;
        }
        proof {
            assert(sub[i - from] == v@[i as int]);
        }
        i += 1;
    }
    true
}

/// Value of the digit string `v[from..to]` as a `u64`, or `None` when it
/// exceeds `u64::MAX`.
pub fn digits_to_u64(v: &Vec<char>, from: usize, to: usize) -> (r: Option<u64>)
    requires
        from <= to <= v.len(),
        all_digits(v@.subrange(from as int, to as int)),
    ensures
        match r {
            Some(n) => n == digits_val(v@.subrange(from as int, to as int)),
            None => digits_val(v@.subrange(from as int, to as int)) > u64::MAX,
        },
{
    let ghost sub = v@.subrange(from as int, to as int);
    let mut acc: u64 = 0;
    let mut big: bool = false;
    let mut i: usize = from;
    proof {
        assert(sub.take(0) =~= Seq::<char>::empty());
    }
    while i < to
        invariant
            from <= i <= to <= v.len(),
            sub == v@.subrange(from as int, to as int),
            all_digits(sub),
            !big ==> acc == digits_val(sub.take(i - from)),
            big ==> digits_val(sub.take(i - from)) > u64::MAX,
        decreases to - i,
    {
        let c = v[i];
        proof {
            assert(sub[i - from] == v@[i as int]);
            assert(is_digit_char(sub[i - from]));
            assert(sub.take(i - from + 1).drop_last() =~= sub.take(i - from));
            assert(sub.take(i - from + 1).last() == sub[i - from]);
        }
        let d: u64 = (c as u64) - 48;
        if big {
            proof {
                assert(all_digits(sub.take(i - from)));
                lemma_digits_val_nonneg(sub.take(i - from));
                assert(digits_val(sub.take(i - from + 1)) == digits_val(sub.take(i - from)) * 10
                    + digit_val(sub[i - from]));
                assert(digits_val(sub.take(i - from)) * 10 >= digits_val(sub.take(i - from)))
                    by (nonlinear_arith)
                    requires
                        digits_val(sub.take(i - from)) >= 0,
                ;
            }
        } else if acc > (u64::MAX - d) / 10 {
            proof {
                let a = acc as int;
                let dd = d as int;
                assert(a * 10 + dd > u64::MAX) by (nonlinear_arith)
                    requires
                        a > (u64::MAX - dd) / 10,
                        0 <= dd <= 9,
                        a <= u64::MAX,
                ;
            }
            big = true;
        } else {
            proof {
                let a = acc as int;
                let dd = d as int;
                assert(a * 10 + dd <= u64::MAX) by (nonlinear_arith)
                    requires
                        a <= (u64::MAX - dd) / 10,
                        0 <= dd <= 9,
                        a >= 0,
                ;
            }
            acc = acc * 10 + d;
        }
        i += 1;
    }
    proof {
        assert(sub.take(to - from) =~= sub);
    }
    if big {
        None
    } else {
        Some(acc)
    }
}

/// The grammar of a signed integer: an optional `+` or `-` sign followed by
/// at least one digit.
pub open spec fn int_grammar(s: Seq<char>) -> bool {
    s.len() > 0 && {
        let body = if s[0] == '+' || s[0] == '-' {
            s.drop_first()
        } else {
            s
        };
        body.len() > 0 && all_digits(body)
    }
}

pub open spec fn int_body(s: Seq<char>) -> Seq<char> {
    if s.len() > 0 && (s[0] == '+' || s[0] == '-') {
        s.drop_first()
    } else {
        s
    }
}

pub open spec fn int_is_negative(s: Seq<char>) -> bool {
    s.len() > 0 && s[0] == '-'
}

/// What `i32::from_str` accepts and returns: the signed-integer grammar,
/// rejected when the value falls outside the `i32` range.
pub open spec fn spec_parse_i32(s: Seq<char>) -> Option<i32> {
    if !int_grammar(s) {
        None
    } else {
        let v = digits_val(int_body(s));
        if int_is_negative(s) {
            if v <= 0x8000_0000 {
                Some((-v) as i32)
            } else {
                None
            }
        } else {
            if v <= 0x7fff_ffff {
                Some(v as i32)
            } else {
                None
            }
        }
    }
}

pub fn parse_i32(v: &Vec<char>) -> (r: Option<i32>)
    ensures
        r == spec_parse_i32(v@),
{
    if v.len() == 0 {
        return None;
    }
    let c0 = v[0];
    let has_sign: bool = c0 == '+' || c0 == '-';
    let neg: bool = c0 == '-';
    let from: usize = if has_sign {
        1
    } else {
        0
    };
    proof {
        if has_sign {
            assert(v@.subrange(1, v@.len() as int) =~= v@.drop_first());
        } else {
            assert(v@.subrange(0, v@.len() as int) =~= v@);
        }
        assert(v@.subrange(from as int, v@.len() as int) == int_body(v@));
    }
    if v.len() == from {
        proof {
            assert(int_body(v@).len() == 0);
        }
        return None;
    }
    if !check_digits(v, from, v.len()) {
        return None;
    }
    let n = match digits_to_u64(v, from, v.len()) {
        Some(n) => n,
        None => {
            return None;
        },
    };
    if neg {
        if n <= 0x8000_0000 {
            Some((-(n as i64)) as i32)
        } else {
            None
        }
    } else {
        if n <= 0x7fff_ffff {
            Some(n as i32)
        } else {
            None
        }
    }
}

/// What `u16::from_str` accepts: an optional `+` sign, digits, value at most
/// `u16::MAX`.
pub open spec fn spec_parse_u16(s: Seq<char>) -> Option<u16> {
    if s.len() == 0 || int_is_negative(s) || !int_grammar(s) {
        None
    } else {
        let v = digits_val(int_body(s));
        if v <= 0xffff {
            Some(v as u16)
        } else {
            None
        }
    }
}

pub fn parse_u16(v: &Vec<char>) -> (r: Option<u16>)
    ensures
        r == spec_parse_u16(v@),
{
    if v.len() == 0 {
        return None;
    }
    let c0 = v[0];
    if c0 == '-' {
        return None;
    }
    let from: usize = if c0 == '+' {
        1
    } else {
        0
    };
    proof {
        if c0 == '+' {
            assert(v@.subrange(1, v@.len() as int) =~= v@.drop_first());
        } else {
            assert(v@.subrange(0, v@.len() as int) =~= v@);
        }
        assert(v@.subrange(from as int, v@.len() as int) == int_body(v@));
    }
    if v.len() == from {
        return None;
    }
    if !check_digits(v, from, v.len()) {
        return None;
    }
    match digits_to_u64(v, from, v.len()) {
        Some(n) => {
            if n <= 0xffff {
                Some(n as u16)
            } else {
                None
            }
        },
        None => None,
    }
}

/// What `u64::from_str` accepts: an optional `+` sign, digits, value at most
/// `u64::MAX`.
pub open spec fn spec_parse_u64(s: Seq<char>) -> Option<u64> {
    if s.len() == 0 || int_is_negative(s) || !int_grammar(s) {
        None
    } else {
        let v = digits_val(int_body(s));
        if v <= u64::MAX {
            Some(v as u64)
        } else {
            None
        }
    }
}

pub fn parse_u64(v: &Vec<char>) -> (r: Option<u64>)
    ensures
        r == spec_parse_u64(v@),
{
    if v.len() == 0 {
        return None;
    }
    let c0 = v[0];
    if c0 == '-' {
        return None;
    }
    let from: usize = if c0 == '+' {
        1
    } else {
        0
    };
    proof {
        if c0 == '+' {
            assert(v@.subrange(1, v@.len() as int) =~= v@.drop_first());
        } else {
            assert(v@.subrange(0, v@.len() as int) =~= v@);
        }
        assert(v@.subrange(from as int, v@.len() as int) == int_body(v@));
    }
    if v.len() == from {
        return None;
    }
    if !check_digits(v, from, v.len()) {
        return None;
    }
    digits_to_u64(v, from, v.len())
}

pub open spec fn spec_dec_digit(d: int) -> char {
    ((48 + d) as u8) as char
}

/// Decimal rendering of a nonnegative number, without leading zeros.
pub open spec fn spec_u64_dec(n: int) -> Seq<char>
    decreases n,
{
    if n < 10 {
        seq![spec_dec_digit(n)]
    } else {
        spec_u64_dec(n / 10) + seq![spec_dec_digit(n % 10)]
    }
}

pub fn u64_dec_chars(n: u64) -> (r: Vec<char>)
    ensures
        r@ == spec_u64_dec(n as int),
    decreases n,
{
    if n < 10 {
        let c = ((48 + n) as u8) as char;
        let mut r: Vec<char> = Vec::new();
        r.push(c);
        proof {
            assert(r@ =~= seq![spec_dec_digit(n as int)]);
        }
        r
    } else {
        let mut r = u64_dec_chars(n / 10);
        let c = ((48 + (n % 10)) as u8) as char;
        r.push(c);
        proof {
            assert(r@ =~= spec_u64_dec(n as int / 10) + seq![spec_dec_digit(n as int % 10)]);
        }
        r
    }
}

pub open spec fn spec_hex_digit(d: int) -> char {
    if d < 10 {
        ((48 + d) as u8) as char
    } else {
        ((87 + d) as u8) as char
    }
}

/// Lowercase hexadecimal rendering, without leading zeros, as the song id
/// uses it.
pub open spec fn spec_u64_hex(n: int) -> Seq<char>
    decreases n,
{
    if n < 16 {
        seq![spec_hex_digit(n)]
    } else {
        spec_u64_hex(n / 16) + seq![spec_hex_digit(n % 16)]
    }
}

pub fn u64_hex_chars(n: u64) -> (r: Vec<char>)
    ensures
        r@ == spec_u64_hex(n as int),
    decreases n,
{
    if n < 16 {
        let d = n;
        let c = if d < 10 {
            ((48 + d) as u8) as char
        } else {
            ((87 + d) as u8) as char
        };
        let mut r: Vec<char> = Vec::new();
        r.push(c);
        proof {
            assert(r@ =~= seq![spec_hex_digit(n as int)]);
        }
        r
    } else {
        let mut r = u64_hex_chars(n / 16);
        let d = n % 16;
        let c = if d < 10 {
            ((48 + d) as u8) as char
        } else {
            ((87 + d) as u8) as char
        };
        r.push(c);
        proof {
            assert(r@ =~= spec_u64_hex(n as int / 16) + seq![spec_hex_digit(n as int % 16)]);
        }
        r
    }
}

} // verus!
