//! Text helpers: decimal rendering and parsing of integers, character
//! filtering and path joining, all over `Seq<char>` models.
use vstd::prelude::*;

verus! {

/// The character of a decimal digit `d` (for `d < 10`).
pub open spec fn digit_char(d: nat) -> char {
    (48 + d) as char
}

/// Decimal notation of a natural number, most significant digit first,
/// without leading zeros ("0" for zero).
pub open spec fn decimal(n: nat) -> Seq<char>
    decreases n,
{
    if n < 10 {
        seq![digit_char(n)]
    } else {
        decimal(n / 10).push(digit_char(n % 10))
    }
}

/// Decimal notation of an integer, with a leading '-' when negative.
pub open spec fn signed_decimal(i: int) -> Seq<char> {
    if i < 0 {
        seq!['-'] + decimal((-i) as nat)
    } else {
        decimal(i as nat)
    }
}

/// `String::push` from std.
/// Contract: the string afterwards is the string before followed by `c`
/// (std documents: "Appends the given char to the end of this String").
#[verifier::external_body]
pub(crate) fn push_char(s: &mut String, c: char)
    ensures
        final(s)@ == old(s)@.push(c),
{
    s.push(c);
}

fn digit_to_char(d: u64) -> (c: char)
    requires
        d < 10,
    ensures
        c == digit_char(d as nat),
{
    ((48 + d) as u8) as char
}

/// Appends the decimal notation of `n` to `s`.
pub fn push_decimal(s: &mut String, n: u64)
    ensures
        final(s)@ == old(s)@ + decimal(n as nat),
    decreases n,
{
    if n < 10 {
        push_char(s, digit_to_char(n));
        assert(decimal(n as nat) == seq![digit_char(n as nat)]);
    } else {
        push_decimal(s, n / 10);
        push_char(s, digit_to_char(n % 10));
        assert(decimal(n as nat) == decimal((n / 10) as nat).push(digit_char((n % 10) as nat)));
    }
}


/// The characters of a string slice, as a vector.
pub fn chars_of(s: &str) -> (v: Vec<char>)
    ensures
        v@ == s@,
{
    let n = s.unicode_len();
    let mut v: Vec<char> = Vec::new();
    let mut i: usize = 0;
    while i < n
        invariant
            n == s@.len(),
            i <= n,
            v@ == s@.subrange(0, i as int),
        decreases n - i,
    {
        let c = s.get_char(i);
        v.push(c);
        assert(s@.subrange(0, i + 1) == s@.subrange(0, i as int).push(c));
        i = i + 1;
    }
    assert(s@.subrange(0, n as int) == s@);
    v
}

/// Appends the decimal notation of the signed integer `i` to `s`.
pub fn push_signed_decimal(s: &mut String, i: i64)
    ensures
        final(s)@ == old(s)@ + signed_decimal(i as int),
{
    if i < 0 {
        push_char(s, '-');
        let magnitude: u64 = if i == i64::MIN {
            0x8000_0000_0000_0000u64
        } else {
            (-i) as u64
        };
        push_decimal(s, magnitude);
        assert(old(s)@.push('-') + decimal(magnitude as nat) == old(s)@ + (seq!['-'] + decimal(
            magnitude as nat,
        )));
    } else {
        push_decimal(s, i as u64);
    }
}

/// The decimal notation of `n` as a new string.
pub fn decimal_string(n: u64) -> (s: String)
    ensures
        s@ == decimal(n as nat),
{
    let mut s = String::new();
    push_decimal(&mut s, n);
    assert(Seq::<char>::empty() + decimal(n as nat) == decimal(n as nat));
    s
}

/// The decimal notation of the signed integer `i` as a new string.
pub fn signed_decimal_string(i: i64) -> (s: String)
    ensures
        s@ == signed_decimal(i as int),
{
    let mut s = String::new();
    push_signed_decimal(&mut s, i);
    assert(Seq::<char>::empty() + signed_decimal(i as int) == signed_decimal(i as int));
    s
}

/// Why a text is not an integer of the requested range; the variants follow
/// the kinds of integer parse errors of the standard library.
#[derive(Clone, Copy, Debug, PartialEq, Eq)]
pub enum IntErrorKind {
    Empty,
    InvalidDigit,
    PosOverflow,
    NegOverflow,
}

impl IntErrorKind {
    /// The standard library's description of this kind of error.
    pub fn description(&self) -> (s: String)
        ensures
            s@ == self.description_spec(),
    {
        match self {
            IntErrorKind::Empty => String::from_str("cannot parse integer from empty string"),
            IntErrorKind::InvalidDigit => String::from_str("invalid digit found in string"),
            IntErrorKind::PosOverflow => String::from_str("number too large to fit in target type"),
            IntErrorKind::NegOverflow => String::from_str("number too small to fit in target type"),
        }
    }

    pub open spec fn description_spec(&self) -> Seq<char> {
        match self {
            IntErrorKind::Empty => "cannot parse integer from empty string"@,
            IntErrorKind::InvalidDigit => "invalid digit found in string"@,
            IntErrorKind::PosOverflow => "number too large to fit in target type"@,
            IntErrorKind::NegOverflow => "number too small to fit in target type"@,
        }
    }
}

pub open spec fn is_digit(c: char) -> bool {
    '0' <= c && c <= '9'
}

pub open spec fn digit_value(c: char) -> int {
    c as int - 48
}

/// Reads the digits `ds` left to right onto the accumulator `acc` (adding
/// each digit, or subtracting it when `neg`), failing at the first character
/// that is not a digit or at the first step that leaves `lo..=hi`.
pub open spec fn accumulate(ds: Seq<char>, acc: int, neg: bool, lo: int, hi: int) -> Result<
    int,
    IntErrorKind,
>
    decreases ds.len(),
{
    if ds.len() == 0 {
        Ok(acc)
    } else if !is_digit(ds[0]) {
        Err(IntErrorKind::InvalidDigit)
    } else {
        let next = if neg {
            acc * 10 - digit_value(ds[0])
        } else {
            acc * 10 + digit_value(ds[0])
        };
        if next > hi {
            Err(IntErrorKind::PosOverflow)
        } else if next < lo {
            Err(IntErrorKind::NegOverflow)
        } else {
            accumulate(ds.drop_first(), next, neg, lo as int, hi as int)
        }
    }
}

/// Integer syntax of the standard library's `str::parse` for an integer type
/// with range `lo..=hi`: an optional sign ('-' only for signed types, i.e.
/// `lo < 0`) followed by one or more ASCII digits, nothing else.
pub open spec fn parse_integer_spec(s: Seq<char>, lo: int, hi: int) -> Result<int, IntErrorKind> {
    if s.len() == 0 {
        Err(IntErrorKind::Empty)
    } else if (s[0] == '+' || s[0] == '-') && s.len() == 1 {
        Err(IntErrorKind::InvalidDigit)
    } else if s[0] == '+' {
        accumulate(s.drop_first(), 0, false, lo, hi)
    } else if s[0] == '-' && lo < 0 {
        accumulate(s.drop_first(), 0, true, lo, hi)
    } else {
        accumulate(s, 0, false, lo, hi)
    }
}

fn accumulate_exec(cs: &Vec<char>, start: usize, neg: bool, lo: i128, hi: i128) -> (r: Result<
    i128,
    IntErrorKind,
>)
    requires
        start <= cs.len(),
        lo <= 0 <= hi,
        -0x1_0000_0000_0000_0000 <= lo,
        hi <= 0x1_0000_0000_0000_0000,
    ensures
        match r {
            Ok(v) => accumulate(cs@.subrange(start as int, cs@.len() as int), 0, neg, lo as int, hi as int) == Ok::<
                int,
                IntErrorKind,
            >(v as int),
            Err(e) => accumulate(cs@.subrange(start as int, cs@.len() as int), 0, neg, lo as int, hi as int)
                == Err::<int, IntErrorKind>(e),
        },
{
    let ghost whole = accumulate(cs@.subrange(start as int, cs@.len() as int), 0, neg, lo as int, hi as int);
    let mut acc: i128 = 0;
    let mut i: usize = start;
    while i < cs.len()
        invariant
            start <= i <= cs.len(),
            lo <= 0 <= hi,
            -0x1_0000_0000_0000_0000 <= lo,
            hi <= 0x1_0000_0000_0000_0000,
            lo <= acc <= hi,
            whole == accumulate(cs@.subrange(start as int, cs@.len() as int), 0, neg, lo as int, hi as int),
            accumulate(cs@.subrange(i as int, cs@.len() as int), acc as int, neg, lo as int, hi as int) == whole,
        decreases cs.len() - i,
    {
        let c = cs[i];
        let ghost rest = cs@.subrange(i as int, cs@.len() as int);
        assert(rest[0] == c);
        if !('0' <= c && c <= '9') {
            return Err(IntErrorKind::InvalidDigit);
        }
        let d = (c as u32 - 48) as i128;
        let next = if neg {
            acc * 10 - d
        } else {
            acc * 10 + d
        };
        if next > hi {
            return Err(IntErrorKind::PosOverflow);
        }
        if next < lo {
            return Err(IntErrorKind::NegOverflow);
        }
        assert(rest.drop_first() == cs@.subrange(i + 1, cs@.len() as int));
        acc = next;
        i = i + 1;
    }
    assert(cs@.subrange(i as int, cs@.len() as int).len() == 0);
    Ok(acc)
}

/// Parses `text` as an integer in `lo..=hi` with the standard library's
/// integer syntax (see `parse_integer_spec`).
pub fn parse_integer(text: &str, lo: i128, hi: i128) -> (r: Result<i128, IntErrorKind>)
    requires
        lo <= 0 <= hi,
        -0x1_0000_0000_0000_0000 <= lo,
        hi <= 0x1_0000_0000_0000_0000,
    ensures
        match r {
            Ok(v) => parse_integer_spec(text@, lo as int, hi as int) == Ok::<int, IntErrorKind>(
                v as int,
            ),
            Err(e) => parse_integer_spec(text@, lo as int, hi as int) == Err::<int, IntErrorKind>(e),
        },
        r is Ok ==> lo <= r->Ok_0 <= hi,
{
    let cs = chars_of(text);
    if cs.len() == 0 {
        return Err(IntErrorKind::Empty);
    }
    let first = cs[0];
    if (first == '+' || first == '-') && cs.len() == 1 {
        return Err(IntErrorKind::InvalidDigit);
    }
    let r = if first == '+' {
        assert(cs@.subrange(1, cs@.len() as int) == cs@.drop_first());
        accumulate_exec(&cs, 1, false, lo, hi)
    } else if first == '-' && lo < 0 {
        assert(cs@.subrange(1, cs@.len() as int) == cs@.drop_first());
        accumulate_exec(&cs, 1, true, lo, hi)
    } else {
        assert(cs@.subrange(0, cs@.len() as int) == cs@);
        accumulate_exec(&cs, 0, false, lo, hi)
    };
    proof {
        if r is Ok {
            lemma_accumulate_bounds(cs@.subrange(if first == '+' || (first == '-' && lo < 0) { 1 } else { 0 }, cs@.len() as int), 0, first == '-' && lo < 0, lo as int, hi as int);
        }
    }
    r
}

/// A successful accumulation stays within its bounds.
pub proof fn lemma_accumulate_bounds(ds: Seq<char>, acc: int, neg: bool, lo: int, hi: int)
    requires
        lo <= acc <= hi,
    ensures
        accumulate(ds, acc, neg, lo as int, hi as int) is Ok ==> lo <= accumulate(ds, acc, neg, lo as int, hi as int)->Ok_0 <= hi,
    decreases ds.len(),
{
    if ds.len() > 0 && is_digit(ds[0]) {
        let next = if neg {
            acc * 10 - digit_value(ds[0])
        } else {
            acc * 10 + digit_value(ds[0])
        };
        if lo <= next <= hi {
            lemma_accumulate_bounds(ds.drop_first(), next, neg, lo as int, hi as int);
        }
    }
}


proof fn lemma_accumulate_push(s: Seq<char>, c: char, acc: int, neg: bool, lo: int, hi: int)
    ensures
        accumulate(s.push(c), acc, neg, lo, hi) == (match accumulate(s, acc, neg, lo, hi) {
            Ok(a) => accumulate(seq![c], a, neg, lo, hi),
            Err(e) => Err(e),
        }),
    decreases s.len(),
{
    if s.len() == 0 {
        assert(s.push(c) == seq![c]);
    } else {
        assert(s.push(c)[0] == s[0]);
        assert(s.push(c).drop_first() == s.drop_first().push(c));
        if is_digit(s[0]) {
            let next = if neg {
                acc * 10 - digit_value(s[0])
            } else {
                acc * 10 + digit_value(s[0])
            };
            lemma_accumulate_push(s.drop_first(), c, next, neg, lo, hi);
        }
    }
}

/// Every character of a decimal notation is a digit, and there is at least one.
pub proof fn lemma_decimal_digits(n: nat)
    ensures
        decimal(n).len() >= 1,
        forall|i: int| 0 <= i < decimal(n).len() ==> is_digit(#[trigger] decimal(n)[i]),
    decreases n,
{
    if n >= 10 {
        lemma_decimal_digits(n / 10);
    }
}

proof fn lemma_accumulate_decimal(n: nat, neg: bool, lo: int, hi: int)
    requires
        lo <= 0 <= hi,
        neg ==> lo <= -n,
        !neg ==> n <= hi,
    ensures
        accumulate(decimal(n), 0, neg, lo, hi) == Ok::<int, IntErrorKind>(
            if neg {
                -n
            } else {
                n as int
            },
        ),
    decreases n,
{
    let d = digit_char(n % 10);
    assert(digit_value(d) == n % 10);
    assert(is_digit(d));
    assert(seq![d][0] == d);
    assert(seq![d].drop_first() =~= Seq::<char>::empty());
    reveal_with_fuel(accumulate, 2);
    if n < 10 {
        assert(decimal(n) == seq![d]);
        assert(n % 10 == n);
    } else {
        lemma_accumulate_decimal(n / 10, neg, lo, hi);
        lemma_accumulate_push(decimal(n / 10), d, 0, neg, lo, hi);
        let a: int = if neg {
            -(n / 10)
        } else {
            (n / 10) as int
        };
        assert(decimal(n) == decimal(n / 10).push(d));
        if neg {
            assert(a * 10 - digit_value(d) == -n);
        } else {
            assert(a * 10 + digit_value(d) == n);
        }
        assert(accumulate(seq![d], a, neg, lo, hi) == Ok::<int, IntErrorKind>(
            if neg {
                -n
            } else {
                n as int
            },
        ));
    }
}

/// Reading back a decimal notation: for every integer `v` of the range
/// `lo..=hi` (a range that holds zero), the integer syntax of
/// `parse_integer_spec` reads `signed_decimal(v)` as `v`.
pub proof fn lemma_parse_signed_decimal(v: int, lo: int, hi: int)
    requires
        lo <= 0 <= hi,
        lo <= v <= hi,
    ensures
        parse_integer_spec(signed_decimal(v), lo, hi) == Ok::<int, IntErrorKind>(v),
{
    if v < 0 {
        let m = (-v) as nat;
        lemma_decimal_digits(m);
        let s = seq!['-'] + decimal(m);
        assert(s[0] == '-');
        assert(s.drop_first() == decimal(m));
        lemma_accumulate_decimal(m, true, lo, hi);
    } else {
        let m = v as nat;
        lemma_decimal_digits(m);
        assert(is_digit(decimal(m)[0]));
        lemma_accumulate_decimal(m, false, lo, hi);
    }
}

/// A successful parse lies in the range it was asked for.
pub proof fn lemma_parse_integer_spec_bounds(s: Seq<char>, lo: int, hi: int)
    requires
        lo <= 0 <= hi,
    ensures
        parse_integer_spec(s, lo, hi) is Ok ==> lo <= parse_integer_spec(s, lo, hi)->Ok_0 <= hi,
{
    if s.len() > 0 {
        lemma_accumulate_bounds(s, 0, false, lo, hi);
        lemma_accumulate_bounds(s.drop_first(), 0, false, lo, hi);
        lemma_accumulate_bounds(s.drop_first(), 0, true, lo, hi);
    }
}

} // verus!
