//! Text primitives shared by the library: decimal rendering, std-compatible
//! integer parsing, and small string-building helpers.
use vstd::prelude::*;
use vstd::utf8::{encode_scalar, encode_utf8};

verus! {

/// Appends one character to `s` (`String::push`).
#[verifier::external_body]
pub(crate) fn push_char(s: &mut String, c: char)
    ensures
        final(s)@ == old(s)@.push(c),
{
    s.push(c);
}

/// The characters of `s`, in order.
pub fn chars_of(s: &str) -> (out: Vec<char>)
    ensures
        out@ == s@,
{
    let mut out: Vec<char> = Vec::new();
    for c in it: s.chars()
        invariant
            out@ == it.seq().take(it.index() as int),
    {
        out.push(c);
    }
    out
}

/// Whether two strings hold the same characters.
pub fn same_text(a: &str, b: &str) -> (eq: bool)
    ensures
        eq == (a@ == b@),
{
    let x = chars_of(a);
    let y = chars_of(b);
    if x.len() != y.len() {
        return false;
    }
    let mut i: usize = 0;
    while i < x.len()
        invariant
            x@ == a@,
            y@ == b@,
            x.len() == y.len(),
            i <= x.len(),
            forall|j: int| 0 <= j < i ==> x@[j] == y@[j],
        decreases x.len() - i,
    {
        if x[i] != y[i] {
            return false;
        }
        i = i + 1;
    }
    assert(x@ =~= y@);
    true
}

/// The number of bytes a character takes in UTF-8.
fn utf8_width(c: char) -> (w: u64)
    ensures
        w == encode_scalar(c as u32).len(),
{
    proof {
        vstd::utf8::char_is_scalar(c);
    }
    let v = c as u32;
    if v <= 0x7F {
        1
    } else if v <= 0x7FF {
        2
    } else if v <= 0xFFFF {
        3
    } else {
        4
    }
}

/// Whether `s` takes fewer than `n` bytes in UTF-8 (`s.len() < n`).
pub fn utf8_len_below(s: &str, n: u64) -> (b: bool)
    ensures
        b == (encode_utf8(s@).len() < n),
{
    if n == 0 {
        return false;
    }
    let v = chars_of(s);
    let mut total: u64 = 0;
    let mut i: usize = 0;
    assert(v@.skip(0) =~= v@);
    while i < v.len()
        invariant
            v@ == s@,
            i <= v.len(),
            total < n,
            encode_utf8(s@).len() == total + encode_utf8(v@.skip(i as int)).len(),
        decreases v.len() - i,
    {
        assert(v@.skip(i as int)[0] == v@[i as int]);
        assert(v@.skip(i as int).drop_first() =~= v@.skip(i + 1));
        let w = utf8_width(v[i]);
        if w >= n - total {
            return false;
        }
        total = total + w;
        i = i + 1;
    }
    assert(v@.skip(i as int).len() == 0);
    true
}

/// The first `n` bytes of `s` (UTF-8) as characters, when byte `n` falls on a
/// character boundary within `s`; what `s.get(0..n)` gives.
pub open spec fn leading_bytes(s: Seq<char>, n: int) -> Option<Seq<char>>
    decreases s.len(),
{
    if n == 0 {
        Some(Seq::empty())
    } else if n < 0 || s.len() == 0 {
        None
    } else {
        match leading_bytes(s.drop_first(), n - encode_scalar(s[0] as u32).len()) {
            Some(rest) => Some(seq![s[0]] + rest),
            None => None,
        }
    }
}

/// `s.get(0..n)`: the first `n` bytes of `s`, if they end on a character boundary.
pub fn prefix_bytes(s: &str, n: u64) -> (r: Option<String>)
    ensures
        match r {
            Some(p) => leading_bytes(s@, n as int) == Some(p@),
            None => leading_bytes(s@, n as int) is None,
        },
{
    let v = chars_of(s);
    let mut out = String::new();
    let mut taken: u64 = 0;
    let mut i: usize = 0;
    assert(v@.skip(0) =~= v@);
    while i < v.len()
        invariant
            v@ == s@,
            i <= v.len(),
            taken <= n,
            leading_bytes(s@, n as int) == match leading_bytes(v@.skip(i as int), n - taken) {
                Some(rest) => Some(out@ + rest),
                None => None::<Seq<char>>,
            },
        decreases v.len() - i,
    {
        if taken == n {
            assert(out@ + Seq::<char>::empty() =~= out@);
            return Some(out);
        }
        let c = v[i];
        assert(v@.skip(i as int)[0] == c);
        assert(v@.skip(i as int).drop_first() =~= v@.skip(i + 1));
        let w = utf8_width(c);
        let ghost before = out@;
        if w > n - taken {
            reveal_with_fuel(leading_bytes, 2);
            return None;
        }
        push_char(&mut out, c);
        taken = taken + w;
        i = i + 1;
        assert forall|rest: Seq<char>| before + (seq![c] + rest) =~= out@ + rest by {}
    }
    assert(v@.skip(i as int).len() == 0);
    if taken == n {
        assert(out@ + Seq::<char>::empty() =~= out@);
        Some(out)
    } else {
        None
    }
}

/// `a` followed by `b`, as a new string.
pub fn concat_text(a: &str, b: &str) -> (out: String)
    ensures
        out@ == a@ + b@,
{
    let mut out = a.to_string();
    out.append(b);
    out
}

/// The ASCII digit for `d`, which lies in `0..10`.
pub open spec fn digit_char(d: int) -> char {
    (d + 48) as char
}

pub open spec fn is_digit(c: char) -> bool {
    '0' <= c && c <= '9'
}

pub open spec fn digit_value(c: char) -> int {
    c as int - 48
}

/// The decimal notation of `n`, without leading zeros (`0` is `"0"`).
pub open spec fn decimal(n: nat) -> Seq<char>
    decreases n,
{
    if n < 10 {
        seq![digit_char(n as int)]
    } else {
        decimal(n / 10).push(digit_char((n % 10) as int))
    }
}

/// The decimal notation of a signed integer, with a leading `-` when negative.
pub open spec fn signed_decimal(i: int) -> Seq<char> {
    if i < 0 {
        seq!['-'] + decimal((-i) as nat)
    } else {
        decimal(i as nat)
    }
}

fn digit(d: u64) -> (c: char)
    requires
        d < 10,
    ensures
        c == digit_char(d as int),
{
    ((d as u8) + 48u8) as char
}

/// Appends the decimal notation of `n` to `s`.
pub fn write_decimal(s: &mut String, n: u64)
    ensures
        final(s)@ == old(s)@ + decimal(n as nat),
    decreases n,
{
    if n >= 10 {
        write_decimal(s, n / 10);
    }
    push_char(s, digit(n % 10));
    proof {
        if n < 10 {
            assert(old(s)@ + decimal(n as nat) =~= old(s)@.push(digit_char(n as int)));
        } else {
            assert((old(s)@ + decimal((n / 10) as nat)).push(digit_char((n % 10) as int))
                =~= old(s)@ + decimal(n as nat));
        }
    }
}

/// Appends the decimal notation of a signed value to `s`.
pub fn write_signed_decimal(s: &mut String, i: i64)
    ensures
        final(s)@ == old(s)@ + signed_decimal(i as int),
{
    if i < 0 {
        push_char(s, '-');
        let m: u64 = if i == i64::MIN {
            9223372036854775808u64
        } else {
            (-i) as u64
        };
        write_decimal(s, m);
        assert(old(s)@ + signed_decimal(i as int) =~= old(s)@.push('-') + decimal(m as nat));
    } else {
        write_decimal(s, i as u64);
    }
}

/// The decimal notation of `n` as a new string.
pub fn decimal_string(n: u64) -> (out: String)
    ensures
        out@ == decimal(n as nat),
{
    let mut out = String::new();
    write_decimal(&mut out, n);
    assert(Seq::<char>::empty() + decimal(n as nat) =~= decimal(n as nat));
    out
}

/// Why text did not read as an integer; the kinds and messages of std's `ParseIntError`.
#[derive(Debug, Clone, Copy, PartialEq, Eq, Structural)]
pub enum IntErrorKind {
    Empty,
    InvalidDigit,
    PosOverflow,
    NegOverflow,
}

impl IntErrorKind {
    /// The message std's `ParseIntError` displays for this kind.
    pub fn message(&self) -> (m: &'static str)
        ensures
            m@ == self.spec_message(),
    {
        match self {
            IntErrorKind::Empty => "cannot parse integer from empty string",
            IntErrorKind::InvalidDigit => "invalid digit found in string",
            IntErrorKind::PosOverflow => "number too large to fit in target type",
            IntErrorKind::NegOverflow => "number too small to fit in target type",
        }
    }

    pub open spec fn spec_message(&self) -> Seq<char> {
        match self {
            IntErrorKind::Empty => "cannot parse integer from empty string"@,
            IntErrorKind::InvalidDigit => "invalid digit found in string"@,
            IntErrorKind::PosOverflow => "number too large to fit in target type"@,
            IntErrorKind::NegOverflow => "number too small to fit in target type"@,
        }
    }
}

/// Reads the digits `ds` left to right, continuing from `acc`, with `max` as the upper limit.
pub open spec fn scan_up(ds: Seq<char>, acc: int, max: int) -> Result<int, IntErrorKind>
    decreases ds.len(),
{
    if ds.len() == 0 {
        Ok(acc)
    } else if !is_digit(ds[0]) {
        Err(IntErrorKind::InvalidDigit)
    } else if acc * 10 + digit_value(ds[0]) > max {
        Err(IntErrorKind::PosOverflow)
    } else {
        scan_up(ds.drop_first(), acc * 10 + digit_value(ds[0]), max)
    }
}

/// Reads the digits of a negative number left to right, continuing from `acc`, down to `min`.
pub open spec fn scan_down(ds: Seq<char>, acc: int, min: int) -> Result<int, IntErrorKind>
    decreases ds.len(),
{
    if ds.len() == 0 {
        Ok(acc)
    } else if !is_digit(ds[0]) {
        Err(IntErrorKind::InvalidDigit)
    } else if acc * 10 - digit_value(ds[0]) < min {
        Err(IntErrorKind::NegOverflow)
    } else {
        scan_down(ds.drop_first(), acc * 10 - digit_value(ds[0]), min)
    }
}

/// What `str::parse` gives for an unsigned type whose largest value is `max`.
pub open spec fn parse_unsigned(s: Seq<char>, max: int) -> Result<int, IntErrorKind> {
    if s.len() == 0 {
        Err(IntErrorKind::Empty)
    } else if s.len() == 1 && (s[0] == '+' || s[0] == '-') {
        Err(IntErrorKind::InvalidDigit)
    } else if s[0] == '+' {
        scan_up(s.drop_first(), 0, max)
    } else {
        scan_up(s, 0, max)
    }
}

/// What `str::parse` gives for a signed type ranging over `min..=max`.
pub open spec fn parse_signed(s: Seq<char>, min: int, max: int) -> Result<int, IntErrorKind> {
    if s.len() == 0 {
        Err(IntErrorKind::Empty)
    } else if s.len() == 1 && (s[0] == '+' || s[0] == '-') {
        Err(IntErrorKind::InvalidDigit)
    } else if s[0] == '+' {
        scan_up(s.drop_first(), 0, max)
    } else if s[0] == '-' {
        scan_down(s.drop_first(), 0, min)
    } else {
        scan_up(s, 0, max)
    }
}

fn char_is_digit(c: char) -> (b: bool)
    ensures
        b == is_digit(c),
{
    c >= '0' && c <= '9'
}

fn char_digit_value(c: char) -> (d: u64)
    requires
        is_digit(c),
    ensures
        d == digit_value(c),
        d < 10,
{
    ((c as u32) - 48) as u64
}

/// Reads `v[i..]` as digits of a non-negative number no larger than `max`.
fn scan_up_exec(v: &Vec<char>, start: usize, max: u64) -> (r: Result<u64, IntErrorKind>)
    requires
        start <= v.len(),
        max <= u32::MAX,
    ensures
        match r {
            Ok(n) => n <= max && scan_up(v@.skip(start as int), 0, max as int) == Ok::<int, IntErrorKind>(n as int),
            Err(e) => scan_up(v@.skip(start as int), 0, max as int) == Err::<int, IntErrorKind>(e),
        },
{
    let mut acc: u64 = 0;
    let mut i: usize = start;
    while i < v.len()
        invariant
            start <= i <= v.len(),
            acc <= max,
            max <= u32::MAX,
            scan_up(v@.skip(start as int), 0, max as int) == scan_up(v@.skip(i as int), acc as int, max as int),
        decreases v.len() - i,
    {
        let c = v[i];
        assert(v@.skip(i as int)[0] == c);
        assert(v@.skip(i as int).drop_first() =~= v@.skip(i + 1));
        if !char_is_digit(c) {
            return Err(IntErrorKind::InvalidDigit);
        }
        let d = char_digit_value(c);
        if acc * 10 + d > max {
            return Err(IntErrorKind::PosOverflow);
        }
        acc = acc * 10 + d;
        i = i + 1;
    }
    assert(v@.skip(i as int).len() == 0);
    Ok(acc)
}

/// Reads `v[i..]` as digits of a negative number no smaller than `min`.
fn scan_down_exec(v: &Vec<char>, start: usize, min: i64) -> (r: Result<i64, IntErrorKind>)
    requires
        start <= v.len(),
        min >= i32::MIN,
        min <= 0,
    ensures
        match r {
            Ok(n) => min <= n <= 0 && scan_down(v@.skip(start as int), 0, min as int) == Ok::<int, IntErrorKind>(n as int),
            Err(e) => scan_down(v@.skip(start as int), 0, min as int) == Err::<int, IntErrorKind>(e),
        },
{
    let mut acc: i64 = 0;
    let mut i: usize = start;
    while i < v.len()
        invariant
            start <= i <= v.len(),
            min <= acc <= 0,
            min >= i32::MIN,
            scan_down(v@.skip(start as int), 0, min as int) == scan_down(v@.skip(i as int), acc as int, min as int),
        decreases v.len() - i,
    {
        let c = v[i];
        assert(v@.skip(i as int)[0] == c);
        assert(v@.skip(i as int).drop_first() =~= v@.skip(i + 1));
        if !char_is_digit(c) {
            return Err(IntErrorKind::InvalidDigit);
        }
        let d = char_digit_value(c) as i64;
        if acc * 10 - d < min {
            return Err(IntErrorKind::NegOverflow);
        }
        acc = acc * 10 - d;
        i = i + 1;
    }
    assert(v@.skip(i as int).len() == 0);
    Ok(acc)
}

/// `s.parse::<u32>()`: an optional `+`, then decimal digits, within `u32`.
pub fn parse_u32(s: &str) -> (r: Result<u32, IntErrorKind>)
    ensures
        match r {
            Ok(n) => parse_unsigned(s@, u32::MAX as int) == Ok::<int, IntErrorKind>(n as int),
            Err(e) => parse_unsigned(s@, u32::MAX as int) == Err::<int, IntErrorKind>(e),
        },
{
    let v = chars_of(s);
    if v.len() == 0 {
        return Err(IntErrorKind::Empty);
    }
    if v.len() == 1 && (v[0] == '+' || v[0] == '-') {
        return Err(IntErrorKind::InvalidDigit);
    }
    let start: usize = if v[0] == '+' { 1 } else { 0 };
    assert(v@.skip(0) =~= v@);
    assert(v@.skip(1) =~= v@.drop_first());
    match scan_up_exec(&v, start, u32::MAX as u64) {
        Ok(n) => Ok(n as u32),
        Err(e) => Err(e),
    }
}

/// `s.parse::<i32>()`: an optional sign, then decimal digits, within `i32`.
pub fn parse_i32(s: &str) -> (r: Result<i32, IntErrorKind>)
    ensures
        match r {
            Ok(n) => parse_signed(s@, i32::MIN as int, i32::MAX as int) == Ok::<int, IntErrorKind>(n as int),
            Err(e) => parse_signed(s@, i32::MIN as int, i32::MAX as int) == Err::<int, IntErrorKind>(e),
        },
{
    let v = chars_of(s);
    if v.len() == 0 {
        return Err(IntErrorKind::Empty);
    }
    if v.len() == 1 && (v[0] == '+' || v[0] == '-') {
        return Err(IntErrorKind::InvalidDigit);
    }
    assert(v@.skip(0) =~= v@);
    assert(v@.skip(1) =~= v@.drop_first());
    if v[0] == '-' {
        match scan_down_exec(&v, 1, i32::MIN as i64) {
            Ok(n) => Ok(n as i32),
            Err(e) => Err(e),
        }
    } else {
        let start: usize = if v[0] == '+' { 1 } else { 0 };
        match scan_up_exec(&v, start, i32::MAX as u64) {
            Ok(n) => Ok(n as i32),
            Err(e) => Err(e),
        }
    }
}

proof fn lemma_digit_char(d: int)
    requires
        0 <= d < 10,
    ensures
        is_digit(digit_char(d)),
        digit_value(digit_char(d)) == d,
{
}

proof fn lemma_decimal_digits(n: nat)
    ensures
        decimal(n).len() >= 1,
        forall|i: int| 0 <= i < decimal(n).len() ==> is_digit(#[trigger] decimal(n)[i]),
    decreases n,
{
    if n < 10 {
        lemma_digit_char(n as int);
    } else {
        lemma_decimal_digits(n / 10);
        lemma_digit_char((n % 10) as int);
    }
}

proof fn lemma_scan_up_push(ds: Seq<char>, c: char, acc: int, max: int)
    ensures
        scan_up(ds.push(c), acc, max) == (match scan_up(ds, acc, max) {
            Ok(v) => if !is_digit(c) {
                Err(IntErrorKind::InvalidDigit)
            } else if v * 10 + digit_value(c) > max {
                Err(IntErrorKind::PosOverflow)
            } else {
                Ok(v * 10 + digit_value(c))
            },
            Err(e) => Err(e),
        }),
    decreases ds.len(),
{
    reveal_with_fuel(scan_up, 2);
    assert(ds.push(c)[0] == if ds.len() == 0 { c } else { ds[0] });
    if ds.len() == 0 {
        assert(ds.push(c).drop_first() =~= Seq::<char>::empty());
    } else {
        assert(ds.push(c).drop_first() =~= ds.drop_first().push(c));
        lemma_scan_up_push(ds.drop_first(), c, acc * 10 + digit_value(ds[0]), max);
    }
}

proof fn lemma_scan_down_push(ds: Seq<char>, c: char, acc: int, min: int)
    ensures
        scan_down(ds.push(c), acc, min) == (match scan_down(ds, acc, min) {
            Ok(v) => if !is_digit(c) {
                Err(IntErrorKind::InvalidDigit)
            } else if v * 10 - digit_value(c) < min {
                Err(IntErrorKind::NegOverflow)
            } else {
                Ok(v * 10 - digit_value(c))
            },
            Err(e) => Err(e),
        }),
    decreases ds.len(),
{
    reveal_with_fuel(scan_down, 2);
    assert(ds.push(c)[0] == if ds.len() == 0 { c } else { ds[0] });
    if ds.len() == 0 {
        assert(ds.push(c).drop_first() =~= Seq::<char>::empty());
    } else {
        assert(ds.push(c).drop_first() =~= ds.drop_first().push(c));
        lemma_scan_down_push(ds.drop_first(), c, acc * 10 - digit_value(ds[0]), min);
    }
}

proof fn lemma_scan_up_decimal(n: nat, max: int)
    requires
        n <= max,
    ensures
        scan_up(decimal(n), 0, max) == Ok::<int, IntErrorKind>(n as int),
    decreases n,
{
    lemma_digit_char((n % 10) as int);
    if n < 10 {
        lemma_scan_up_push(Seq::<char>::empty(), digit_char(n as int), 0, max);
        assert(Seq::<char>::empty().push(digit_char(n as int)) =~= decimal(n));
    } else {
        lemma_scan_up_decimal(n / 10, max);
        lemma_scan_up_push(decimal(n / 10), digit_char((n % 10) as int), 0, max);
    }
}

proof fn lemma_scan_down_decimal(m: nat, min: int)
    requires
        -m >= min,
    ensures
        scan_down(decimal(m), 0, min) == Ok::<int, IntErrorKind>(-m),
    decreases m,
{
    lemma_digit_char((m % 10) as int);
    if m < 10 {
        lemma_scan_down_push(Seq::<char>::empty(), digit_char(m as int), 0, min);
        assert(Seq::<char>::empty().push(digit_char(m as int)) =~= decimal(m));
    } else {
        lemma_scan_down_decimal(m / 10, min);
        lemma_scan_down_push(decimal(m / 10), digit_char((m % 10) as int), 0, min);
    }
}

/// Reading back the decimal notation of a `u32` gives the same number.
pub proof fn lemma_parse_u32_reads_decimal(n: u32)
    ensures
        parse_unsigned(decimal(n as nat), u32::MAX as int) == Ok::<int, IntErrorKind>(n as int),
{
    lemma_decimal_digits(n as nat);
    assert(is_digit(decimal(n as nat)[0]));
    lemma_scan_up_decimal(n as nat, u32::MAX as int);
}

/// Reading back the signed decimal notation of an `i32` gives the same number.
pub proof fn lemma_parse_i32_reads_signed_decimal(i: i32)
    ensures
        parse_signed(signed_decimal(i as int), i32::MIN as int, i32::MAX as int)
            == Ok::<int, IntErrorKind>(i as int),
{
    if i < 0 {
        let m = (-i) as nat;
        lemma_decimal_digits(m);
        let s = signed_decimal(i as int);
        assert(s[0] == '-');
        assert(s.drop_first() =~= decimal(m));
        lemma_scan_down_decimal(m, i32::MIN as int);
    } else {
        lemma_decimal_digits(i as nat);
        assert(is_digit(decimal(i as nat)[0]));
        lemma_scan_up_decimal(i as nat, i32::MAX as int);
    }
}

} // verus!
