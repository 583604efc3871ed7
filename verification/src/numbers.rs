//! Decimal integers: parsing with the error kinds of `str::parse` and rendering.
use vstd::prelude::*;

verus! {

/// Why a decimal integer could not be read, as `core::num::IntErrorKind` tells it.
#[derive(Clone, Copy, Debug, PartialEq, Eq, Structural)]
pub enum IntErrorKind {
    Empty,
    InvalidDigit,
    PosOverflow,
    NegOverflow,
}

impl IntErrorKind {
    pub open spec fn spec_message(self) -> Seq<char> {
        match self {
            IntErrorKind::Empty => "cannot parse integer from empty string"@,
            IntErrorKind::InvalidDigit => "invalid digit found in string"@,
            IntErrorKind::PosOverflow => "number too large to fit in target type"@,
            IntErrorKind::NegOverflow => "number too small to fit in target type"@,
        }
    }

    /// The text that `ParseIntError` displays for this kind.
    pub fn message(&self) -> (s: &'static str)
        ensures
            s@ == self.spec_message(),
    {
        match self {
            IntErrorKind::Empty => {
                let s = "cannot parse integer from empty string";
                proof {
                    reveal_strlit("cannot parse integer from empty string");
                }
                s
            },
            IntErrorKind::InvalidDigit => {
                let s = "invalid digit found in string";
                proof {
                    reveal_strlit("invalid digit found in string");
                }
                s
            },
            IntErrorKind::PosOverflow => {
                let s = "number too large to fit in target type";
                proof {
                    reveal_strlit("number too large to fit in target type");
                }
                s
            },
            IntErrorKind::NegOverflow => {
                let s = "number too small to fit in target type";
                proof {
                    reveal_strlit("number too small to fit in target type");
                }
                s
            },
        }
    }
}

pub open spec fn is_digit(c: char) -> bool {
    '0' <= c && c <= '9'
}

pub open spec fn digit_value(c: char) -> int {
    (c as u32) - ('0' as u32)
}

/// Reads the digits of `s` from position `i` on, starting from `acc`, in the
/// order `str::parse` reads them: the first character that is not a digit, or
/// the first prefix whose value leaves `[lo, hi]`, decides the error.
pub open spec fn scan_digits(s: Seq<char>, i: int, acc: int, neg: bool, lo: int, hi: int) -> Result<
    int,
    IntErrorKind,
>
    decreases s.len() - i,
{
    if i < 0 || i >= s.len() {
        Ok(acc)
    } else if !is_digit(s[i]) {
        Err(IntErrorKind::InvalidDigit)
    } else {
        let next = if neg {
            acc * 10 - digit_value(s[i])
        } else {
            acc * 10 + digit_value(s[i])
        };
        if next > hi {
            Err(IntErrorKind::PosOverflow)
        } else if next < lo {
            Err(IntErrorKind::NegOverflow)
        } else {
            scan_digits(s, i + 1, next, neg, lo, hi)
        }
    }
}

/// The result of parsing `s` as an integer in `[lo, hi]`; a leading `-` is a
/// sign only for signed targets.
pub open spec fn spec_parse_int(s: Seq<char>, signed: bool, lo: int, hi: int) -> Result<
    int,
    IntErrorKind,
> {
    if s.len() == 0 {
        Err(IntErrorKind::Empty)
    } else if (s[0] == '+' || s[0] == '-') && s.len() == 1 {
        Err(IntErrorKind::InvalidDigit)
    } else if s[0] == '+' {
        scan_digits(s, 1, 0, false, lo, hi)
    } else if s[0] == '-' && signed {
        scan_digits(s, 1, 0, true, lo, hi)
    } else {
        scan_digits(s, 0, 0, false, lo, hi)
    }
}

pub open spec fn spec_parse_i64(s: Seq<char>) -> Result<int, IntErrorKind> {
    spec_parse_int(s, true, i64::MIN as int, i64::MAX as int)
}

pub open spec fn spec_parse_u64(s: Seq<char>) -> Result<int, IntErrorKind> {
    spec_parse_int(s, false, 0, u64::MAX as int)
}

pub open spec fn spec_parse_usize(s: Seq<char>) -> Result<int, IntErrorKind> {
    spec_parse_int(s, false, 0, usize::MAX as int)
}

pub open spec fn spec_parse_u32(s: Seq<char>) -> Result<int, IntErrorKind> {
    spec_parse_int(s, false, 0, u32::MAX as int)
}

pub open spec fn spec_parse_u16(s: Seq<char>) -> Result<int, IntErrorKind> {
    spec_parse_int(s, false, 0, u16::MAX as int)
}

pub open spec fn spec_parse_u8(s: Seq<char>) -> Result<int, IntErrorKind> {
    spec_parse_int(s, false, 0, u8::MAX as int)
}

proof fn lemma_scan_in_range(s: Seq<char>, i: int, acc: int, neg: bool, lo: int, hi: int)
    requires
        lo <= acc <= hi,
    ensures
        scan_digits(s, i, acc, neg, lo, hi) matches Ok(v) ==> lo <= v <= hi,
    decreases s.len() - i,
{
    if 0 <= i < s.len() && is_digit(s[i]) {
        let next = if neg {
            acc * 10 - digit_value(s[i])
        } else {
            acc * 10 + digit_value(s[i])
        };
        if lo <= next <= hi {
            lemma_scan_in_range(s, i + 1, next, neg, lo, hi);
        }
    }
}

/// Parses `s` as an integer in `[lo, hi]`, reading the sign and digits as
/// `str::parse` does for an integer type with that range.
fn parse_int(s: &str, signed: bool, lo: i128, hi: i128) -> (r: Result<i128, IntErrorKind>)
    requires
        lo <= 0 <= hi,
        -0x1_0000_0000_0000_0000_0000 <= lo,
        hi <= 0x1_0000_0000_0000_0000_0000,
    ensures
        match r {
            Ok(v) => spec_parse_int(s@, signed, lo as int, hi as int) == Ok::<int, IntErrorKind>(
                v as int,
            ) && lo <= v <= hi,
            Err(e) => spec_parse_int(s@, signed, lo as int, hi as int) == Err::<int, IntErrorKind>(
                e,
            ),
        },
{
    let cs = crate::text::chars_of(s);
    if cs.len() == 0 {
        return Err(IntErrorKind::Empty);
    }
    if (cs[0] == '+' || cs[0] == '-') && cs.len() == 1 {
        return Err(IntErrorKind::InvalidDigit);
    }
    let (start, neg): (usize, bool) = if cs[0] == '+' {
        (1, false)
    } else if cs[0] == '-' && signed {
        (1, true)
    } else {
        (0, false)
    };
    let ghost target = spec_parse_int(s@, signed, lo as int, hi as int);
    assert(target == scan_digits(cs@, start as int, 0, neg, lo as int, hi as int));
    let mut acc: i128 = 0;
    let mut i: usize = start;
    while i < cs.len()
        invariant
            start <= i <= cs.len(),
            cs@ == s@,
            lo <= acc <= hi,
            lo <= 0 <= hi,
            -0x1_0000_0000_0000_0000_0000 <= lo,
            hi <= 0x1_0000_0000_0000_0000_0000,
            target == scan_digits(cs@, i as int, acc as int, neg, lo as int, hi as int),
            target == spec_parse_int(s@, signed, lo as int, hi as int),
        decreases cs.len() - i,
    {
        let c = cs[i];
        if !('0' <= c && c <= '9') {
            return Err(IntErrorKind::InvalidDigit);
        }
        let d = ((c as u32) - ('0' as u32)) as i128;
        let next: i128 = if neg {
            acc * 10 - d
        } else {
            acc * 10 + d
        };
        if next > hi {
            return Err(IntErrorKind::PosOverflow);
        }
        if next < lo {
            return Err(IntErrorKind::NegOverflow);
        }
        acc = next;
        i += 1;
    }
    Ok(acc)
}

pub fn parse_i64(s: &str) -> (r: Result<i64, IntErrorKind>)
    ensures
        match r {
            Ok(v) => spec_parse_i64(s@) == Ok::<int, IntErrorKind>(v as int),
            Err(e) => spec_parse_i64(s@) == Err::<int, IntErrorKind>(e),
        },
{
    match parse_int(s, true, i64::MIN as i128, i64::MAX as i128) {
        Ok(v) => Ok(v as i64),
        Err(e) => Err(e),
    }
}

pub fn parse_u64(s: &str) -> (r: Result<u64, IntErrorKind>)
    ensures
        match r {
            Ok(v) => spec_parse_u64(s@) == Ok::<int, IntErrorKind>(v as int),
            Err(e) => spec_parse_u64(s@) == Err::<int, IntErrorKind>(e),
        },
{
    match parse_int(s, false, 0, u64::MAX as i128) {
        Ok(v) => Ok(v as u64),
        Err(e) => Err(e),
    }
}

pub fn parse_usize(s: &str) -> (r: Result<usize, IntErrorKind>)
    ensures
        match r {
            Ok(v) => spec_parse_usize(s@) == Ok::<int, IntErrorKind>(v as int),
            Err(e) => spec_parse_usize(s@) == Err::<int, IntErrorKind>(e),
        },
{
    match parse_int(s, false, 0, usize::MAX as i128) {
        Ok(v) => Ok(v as usize),
        Err(e) => Err(e),
    }
}

pub fn parse_u32(s: &str) -> (r: Result<u32, IntErrorKind>)
    ensures
        match r {
            Ok(v) => spec_parse_u32(s@) == Ok::<int, IntErrorKind>(v as int),
            Err(e) => spec_parse_u32(s@) == Err::<int, IntErrorKind>(e),
        },
{
    match parse_int(s, false, 0, u32::MAX as i128) {
        Ok(v) => Ok(v as u32),
        Err(e) => Err(e),
    }
}

pub fn parse_u16(s: &str) -> (r: Result<u16, IntErrorKind>)
    ensures
        match r {
            Ok(v) => spec_parse_u16(s@) == Ok::<int, IntErrorKind>(v as int),
            Err(e) => spec_parse_u16(s@) == Err::<int, IntErrorKind>(e),
        },
{
    match parse_int(s, false, 0, u16::MAX as i128) {
        Ok(v) => Ok(v as u16),
        Err(e) => Err(e),
    }
}

pub fn parse_u8(s: &str) -> (r: Result<u8, IntErrorKind>)
    ensures
        match r {
            Ok(v) => spec_parse_u8(s@) == Ok::<int, IntErrorKind>(v as int),
            Err(e) => spec_parse_u8(s@) == Err::<int, IntErrorKind>(e),
        },
{
    match parse_int(s, false, 0, u8::MAX as i128) {
        Ok(v) => Ok(v as u8),
        Err(e) => Err(e),
    }
}

/// The decimal digits of a natural number, most significant first.
pub open spec fn nat_digits(n: nat) -> Seq<char>
    decreases n,
{
    if n < 10 {
        seq![(('0' as u32) + n) as char]
    } else {
        nat_digits(n / 10).push((('0' as u32) + (n % 10)) as char)
    }
}

/// The decimal text of an integer, as `i64::to_string` writes it.
pub open spec fn int_text(v: int) -> Seq<char> {
    if v < 0 {
        seq!['-'] + nat_digits((-v) as nat)
    } else {
        nat_digits(v as nat)
    }
}

fn digit_char(d: u32) -> (c: char)
    requires
        d < 10,
    ensures
        c == (('0' as u32) + d) as char,
{
    let b: u8 = 48u8 + (d as u8);
    b as char
}

proof fn lemma_nat_digits_len(n: nat)
    ensures
        nat_digits(n).len() >= 1,
        n < 10 ==> nat_digits(n).len() == 1,
    decreases n,
{
    if n >= 10 {
        lemma_nat_digits_len(n / 10);
    }
}

/// The decimal digits of `n`.
pub fn u128_digits(n: u128) -> (out: Vec<char>)
    ensures
        out@ == nat_digits(n as nat),
    decreases n,
{
    if n < 10 {
        let mut v = Vec::new();
        v.push(digit_char(n as u32));
        v
    } else {
        let mut v = u128_digits(n / 10);
        v.push(digit_char((n % 10) as u32));
        v
    }
}

/// The decimal text of `v`, as `i64::to_string` returns it.
pub fn i64_to_text(v: i64) -> (out: String)
    ensures
        out@ == int_text(v as int),
{
    if v < 0 {
        let mag: u128 = (-(v as i128)) as u128;
        let ds = u128_digits(mag);
        let mut cs: Vec<char> = Vec::new();
        cs.push('-');
        let mut i: usize = 0;
        while i < ds.len()
            invariant
                i <= ds.len(),
                cs@ == seq!['-'] + ds@.take(i as int),
            decreases ds.len() - i,
        {
            cs.push(ds[i]);
            assert(ds@.take(i + 1) == ds@.take(i as int).push(ds@[i as int]));
            i += 1;
        }
        assert(ds@.take(ds.len() as int) == ds@);
        crate::text::string_of(&cs)
    } else {
        let ds = u128_digits(v as u128);
        crate::text::string_of(&ds)
    }
}

/// The decimal text of `v`.
pub fn u64_to_text(v: u64) -> (out: String)
    ensures
        out@ == nat_digits(v as nat),
{
    let ds = u128_digits(v as u128);
    crate::text::string_of(&ds)
}

proof fn lemma_digit_char(k: nat)
    requires
        k < 10,
    ensures
        is_digit((('0' as u32) + k) as char),
        digit_value((('0' as u32) + k) as char) == k,
{
    let c = (('0' as u32) + k) as char;
    assert(c as u32 == 48 + k);
}

/// Scanning one more character at the end continues from where scanning the
/// shorter text stopped.
proof fn lemma_scan_snoc(q: Seq<char>, d: char, i: int, acc: int, neg: bool, lo: int, hi: int)
    requires
        0 <= i <= q.len(),
    ensures
        scan_digits(q.push(d), i, acc, neg, lo, hi) == match scan_digits(q, i, acc, neg, lo, hi) {
            Ok(a) => scan_digits(seq![d], 0, a, neg, lo, hi),
            Err(e) => Err(e),
        },
    decreases q.len() - i,
{
    reveal_with_fuel(scan_digits, 2);
    let s = q.push(d);
    if i == q.len() {
        assert(s[i] == d);
        assert(seq![d][0] == d);
    } else {
        assert(s[i] == q[i]);
        if is_digit(q[i]) {
            let next = if neg {
                acc * 10 - digit_value(q[i])
            } else {
                acc * 10 + digit_value(q[i])
            };
            if lo <= next <= hi {
                lemma_scan_snoc(q, d, i + 1, next, neg, lo, hi);
            }
        }
    }
}

proof fn lemma_nat_digits_first(n: nat)
    ensures
        nat_digits(n).len() >= 1,
        is_digit(nat_digits(n)[0]),
    decreases n,
{
    if n < 10 {
        lemma_digit_char(n);
    } else {
        lemma_nat_digits_first(n / 10);
        assert(nat_digits(n)[0] == nat_digits(n / 10)[0]);
    }
}

/// Scanning the decimal digits of `n` after a prefix gives `n` (or `-n` for
/// a negative number) when it is within the bounds.
proof fn lemma_scan_nat_digits(p: Seq<char>, n: nat, neg: bool, lo: int, hi: int)
    requires
        lo <= 0 <= hi,
        neg ==> -n >= lo,
        !neg ==> n <= hi,
    ensures
        scan_digits(p + nat_digits(n), p.len() as int, 0, neg, lo, hi) == Ok::<int, IntErrorKind>(
            if neg {
                -n
            } else {
                n as int
            },
        ),
    decreases n,
{
    reveal_with_fuel(scan_digits, 2);
    let k = n % 10;
    let d = (('0' as u32) + k) as char;
    lemma_digit_char(k);
    if n < 10 {
        assert(nat_digits(n) == seq![d]);
        assert(p + nat_digits(n) == p.push(d));
        lemma_scan_snoc(p, d, p.len() as int, 0, neg, lo, hi);
        assert(seq![d][0] == d);
    } else {
        let q = p + nat_digits(n / 10);
        assert(p + nat_digits(n) == q.push(d));
        lemma_scan_nat_digits(p, n / 10, neg, lo, hi);
        lemma_scan_snoc(q, d, p.len() as int, 0, neg, lo, hi);
        assert(seq![d][0] == d);
        assert((n / 10) * 10 + k == n);
    }
}

/// Decimal text reads back: parsing the text of an `i64` gives the number.
pub proof fn law_i64_text_parses_back(v: i64)
    ensures
        spec_parse_i64(int_text(v as int)) == Ok::<int, IntErrorKind>(v as int),
{
    let lo = i64::MIN as int;
    let hi = i64::MAX as int;
    if v < 0 {
        let n = (-(v as int)) as nat;
        let s = seq!['-'] + nat_digits(n);
        lemma_nat_digits_first(n);
        lemma_scan_nat_digits(seq!['-'], n, true, lo, hi);
        assert(s[0] == '-');
        assert(s.len() >= 2);
    } else {
        let n = v as nat;
        lemma_nat_digits_first(n);
        lemma_scan_nat_digits(Seq::empty(), n, false, lo, hi);
        assert(Seq::<char>::empty() + nat_digits(n) == nat_digits(n));
    }
}

/// Decimal text reads back: parsing the digits of a `u64` gives the number.
pub proof fn law_u64_text_parses_back(v: u64)
    ensures
        spec_parse_u64(nat_digits(v as nat)) == Ok::<int, IntErrorKind>(v as int),
{
    let n = v as nat;
    lemma_nat_digits_first(n);
    lemma_scan_nat_digits(Seq::empty(), n, false, 0, u64::MAX as int);
    assert(Seq::<char>::empty() + nat_digits(n) == nat_digits(n));
}

} // verus!
