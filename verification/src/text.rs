//! Text helpers: ASCII case folding, concatenation, decimal rendering and
//! decimal reading, each stated over the characters of its arguments.
use vstd::prelude::*;

verus! {

/// Appends one character. `String::push` appends the given character to the
/// end of the string and changes nothing else.
pub assume_specification[ String::push ](s: &mut String, c: char)
    ensures
        final(s)@ == old(s)@.push(c),
;

/// The lower-case form of an ASCII letter; every other character is itself.
pub open spec fn lower_char(c: char) -> char {
    if 'A' <= c && c <= 'Z' {
        (c as u8 + 32u8) as char
    } else {
        c
    }
}

/// The text with its ASCII letters in lower case.
pub open spec fn lower(s: Seq<char>) -> Seq<char> {
    Seq::new(s.len(), |i: int| lower_char(s[i]))
}

/// A text in lower case stays as it is in lower case.
pub proof fn lowering_again_changes_nothing(s: Seq<char>)
    ensures
        lower(lower(s)) == lower(s),
{
    assert(lower(lower(s)) =~= lower(s));
}

/// Two texts are the same up to the case of their ASCII letters.
pub open spec fn same_fold(a: Seq<char>, b: Seq<char>) -> bool {
    lower(a) == lower(b)
}

/// The characters of a text, in order.
pub fn chars_of(s: &str) -> (out: Vec<char>)
    ensures
        out@ == s@,
{
    let mut out: Vec<char> = Vec::new();
    for c in it: s.chars()
        invariant
            out@ == it.seq().take(it.index() as int),
            it.seq() == s@,
    {
        out.push(c);
        assert(it.seq().take(it.index() + 1) =~= it.seq().take(it.index() as int).push(c));
    }
    assert(s@.take(s@.len() as int) =~= s@);
    out
}

/// The text made of the characters `chars[from..to]`.
pub fn text_of(chars: &Vec<char>, from: usize, to: usize) -> (out: String)
    requires
        from <= to <= chars.len(),
    ensures
        out@ == chars@.subrange(from as int, to as int),
{
    let mut out = String::new();
    let mut i: usize = from;
    assert(chars@.subrange(from as int, from as int) =~= Seq::<char>::empty());
    while i < to
        invariant
            from <= i <= to <= chars.len(),
            out@ == chars@.subrange(from as int, i as int),
        decreases to - i,
    {
        out.push(chars[i]);
        assert(chars@.subrange(from as int, i + 1) =~= chars@.subrange(from as int, i as int).push(
            chars@[i as int],
        ));
        i = i + 1;
    }
    out
}

/// Folds an ASCII letter to lower case.
pub fn to_lower_char(c: char) -> (out: char)
    ensures
        out == lower_char(c),
{
    if 'A' <= c && c <= 'Z' {
        (c as u8 + 32u8) as char
    } else {
        c
    }
}

/// Folds ASCII letters to lower case.
pub fn to_lower(s: &str) -> (out: String)
    ensures
        out@ == lower(s@),
{
    let chars = chars_of(s);
    let mut out = String::new();
    let mut i: usize = 0;
    while i < chars.len()
        invariant
            i <= chars.len(),
            chars@ == s@,
            out@ == lower(s@).take(i as int),
        decreases chars.len() - i,
    {
        let c = chars[i];
        let folded: char = to_lower_char(c);
        out.push(folded);
        assert(lower(s@).take(i + 1) =~= lower(s@).take(i as int).push(folded));
        i = i + 1;
    }
    assert(lower(s@).take(i as int) =~= lower(s@));
    out
}

/// Whether two texts hold the same characters.
pub fn text_eq(a: &str, b: &str) -> (same: bool)
    ensures
        same == (a@ == b@),
{
    let x: String = a.to_owned();
    let y: String = b.to_owned();
    x == y
}

/// Whether two texts are the same up to ASCII case.
pub fn eq_fold(a: &str, b: &str) -> (same: bool)
    ensures
        same == same_fold(a@, b@),
{
    to_lower(a) == to_lower(b)
}

/// A copy of a text as an owned string.
pub fn owned(s: &str) -> (out: String)
    ensures
        out@ == s@,
{
    s.to_owned()
}

pub fn cat2(a: &str, b: &str) -> (out: String)
    ensures
        out@ == a@ + b@,
{
    let mut out = a.to_owned();
    out.append(b);
    out
}

pub fn cat3(a: &str, b: &str, c: &str) -> (out: String)
    ensures
        out@ == a@ + b@ + c@,
{
    let mut out = cat2(a, b);
    out.append(c);
    out
}

pub fn cat4(a: &str, b: &str, c: &str, d: &str) -> (out: String)
    ensures
        out@ == a@ + b@ + c@ + d@,
{
    let mut out = cat3(a, b, c);
    out.append(d);
    out
}

pub fn cat5(a: &str, b: &str, c: &str, d: &str, e: &str) -> (out: String)
    ensures
        out@ == a@ + b@ + c@ + d@ + e@,
{
    let mut out = cat4(a, b, c, d);
    out.append(e);
    out
}

pub fn cat6(a: &str, b: &str, c: &str, d: &str, e: &str, f: &str) -> (out: String)
    ensures
        out@ == a@ + b@ + c@ + d@ + e@ + f@,
{
    let mut out = cat5(a, b, c, d, e);
    out.append(f);
    out
}

pub fn cat7(a: &str, b: &str, c: &str, d: &str, e: &str, f: &str, g: &str) -> (out: String)
    ensures
        out@ == a@ + b@ + c@ + d@ + e@ + f@ + g@,
{
    let mut out = cat6(a, b, c, d, e, f);
    out.append(g);
    out
}

/// The character of a decimal digit.
pub open spec fn digit_char(d: int) -> char {
    (48 + d) as char
}

/// The shortest decimal notation of a natural number.
pub open spec fn decimal(n: nat) -> Seq<char>
    decreases n,
{
    if n < 10 {
        seq![digit_char(n as int)]
    } else {
        decimal(n / 10).push(digit_char((n % 10) as int))
    }
}

/// The shortest decimal notation of an integer, with a leading `-` when it is
/// negative.
pub open spec fn decimal_int(n: int) -> Seq<char> {
    if n < 0 {
        seq!['-'] + decimal((-n) as nat)
    } else {
        decimal(n as nat)
    }
}

fn digit_of(d: u8) -> (c: char)
    requires
        d < 10,
    ensures
        c == digit_char(d as int),
{
    (48u8 + d) as char
}

/// Renders a natural number in decimal.
pub fn show_u64(n: u64) -> (out: String)
    ensures
        out@ == decimal(n as nat),
    decreases n,
{
    if n < 10 {
        let mut out = String::new();
        out.push(digit_of(n as u8));
        assert(out@ =~= decimal(n as nat));
        out
    } else {
        let mut out = show_u64(n / 10);
        out.push(digit_of((n % 10) as u8));
        out
    }
}

/// Renders the number after an index or a count in decimal.
pub fn show_next(n: usize) -> (out: String)
    ensures
        out@ == decimal((n + 1) as nat),
{
    let last: usize = n % 10;
    if last == 9 {
        let mut out = show_usize(n / 10 + 1);
        out.push(digit_of(0));
        out
    } else if n < 9 {
        show_usize(n + 1)
    } else {
        let mut out = show_usize(n / 10);
        out.push(digit_of((last + 1) as u8));
        out
    }
}

/// Renders an index or a count in decimal.
pub fn show_usize(n: usize) -> (out: String)
    ensures
        out@ == decimal(n as nat),
{
    show_u64(n as u64)
}

/// Renders an integer in decimal.
pub fn show_i64(n: i64) -> (out: String)
    ensures
        out@ == decimal_int(n as int),
{
    if n >= 0 {
        show_u64(n as u64)
    } else {
        let magnitude: u64 = if n == i64::MIN {
            9_223_372_036_854_775_808u64
        } else {
            (-n) as u64
        };
        let digits = show_u64(magnitude);
        let mut out = String::new();
        out.push('-');
        out.append(digits.as_str());
        assert(out@ =~= decimal_int(n as int));
        out
    }
}

/// A decimal digit.
pub open spec fn is_digit(c: char) -> bool {
    '0' <= c && c <= '9'
}

/// The number that a digit stands for.
pub open spec fn digit_value(c: char) -> int {
    c as int - 48
}

/// One or more decimal digits and nothing else.
pub open spec fn all_digits(s: Seq<char>) -> bool {
    &&& s.len() > 0
    &&& forall|i: int| 0 <= i < s.len() ==> is_digit(#[trigger] s[i])
}

/// The number that a row of decimal digits stands for.
pub open spec fn nat_value(s: Seq<char>) -> int
    decreases s.len(),
{
    if s.len() == 0 {
        0
    } else {
        10 * nat_value(s.drop_last()) + digit_value(s.last())
    }
}

/// The integer that a text stands for: an optional sign and then digits.
pub open spec fn int_value(s: Seq<char>) -> Option<int> {
    if all_digits(s) {
        Some(nat_value(s))
    } else if s.len() > 0 && s[0] == '-' && all_digits(s.skip(1)) {
        Some(-nat_value(s.skip(1)))
    } else if s.len() > 0 && s[0] == '+' && all_digits(s.skip(1)) {
        Some(nat_value(s.skip(1)))
    } else {
        None
    }
}

/// The natural number that a text stands for: an optional `+` and then digits.
pub open spec fn natural_value(s: Seq<char>) -> Option<int> {
    if all_digits(s) {
        Some(nat_value(s))
    } else if s.len() > 0 && s[0] == '+' && all_digits(s.skip(1)) {
        Some(nat_value(s.skip(1)))
    } else {
        None
    }
}

/// The part of an optional integer that lies within the given bounds.
pub open spec fn within(v: Option<int>, low: int, high: int) -> Option<int> {
    match v {
        Some(n) if low <= n <= high => Some(n),
        _ => None,
    }
}

/// Digit rows at or above this number are read as this number.
pub const READ_LIMIT: u128 = 1_000_000_000_000_000_000_000_000_000_000;

/// The smaller of two integers.
pub open spec fn min_int(a: int, b: int) -> int {
    if a <= b {
        a
    } else {
        b
    }
}

/// Reads `chars[from..to]` as decimal digits, capped at [`READ_LIMIT`].
pub fn read_digits(chars: &Vec<char>, from: usize, to: usize) -> (out: Option<u128>)
    requires
        from <= to <= chars.len(),
    ensures
        ({
            let s = chars@.subrange(from as int, to as int);
            match out {
                Some(v) => all_digits(s) && v as int == min_int(nat_value(s), READ_LIMIT as int),
                None => !all_digits(s),
            }
        }),
        out matches Some(v) ==> v <= READ_LIMIT,
{
    let ghost s = chars@.subrange(from as int, to as int);
    if from == to {
        return None;
    }
    let mut acc: u128 = 0;
    let mut i: usize = from;
    assert(s.take(0) =~= Seq::<char>::empty());
    while i < to
        invariant
            from <= i <= to <= chars.len(),
            s == chars@.subrange(from as int, to as int),
            acc <= READ_LIMIT,
            acc as int == min_int(nat_value(s.take(i - from)), READ_LIMIT as int),
            nat_value(s.take(i - from)) >= 0,
            forall|k: int| 0 <= k < i - from ==> is_digit(#[trigger] s[k]),
        decreases to - i,
    {
        let c = chars[i];
        assert(s[i - from] == c);
        if c < '0' || c > '9' {
            return None;
        }
        let d: u128 = (c as u8 - 48u8) as u128;
        let ghost now = s.take(i - from);
        let ghost next = s.take(i + 1 - from);
        assert(next.drop_last() =~= now);
        assert(next.last() == c);
        let wide: u128 = acc * 10 + d;
        acc = if wide <= READ_LIMIT {
            wide
        } else {
            READ_LIMIT
        };
        i = i + 1;
    }
    assert(s.take(i - from) =~= s);
    Some(acc)
}

fn read_signed(s: &str) -> (out: Option<i128>)
    ensures
        match out {
            Some(v) => match int_value(s@) {
                Some(n) => if n > READ_LIMIT {
                    v == READ_LIMIT
                } else if n < -(READ_LIMIT as int) {
                    v == -(READ_LIMIT as int)
                } else {
                    v == n
                },
                None => false,
            },
            None => int_value(s@) is None,
        },
{
    let chars = chars_of(s);
    assert(chars@.subrange(0, chars@.len() as int) =~= s@);
    if chars.len() == 0 {
        return None;
    }
    assert(s@.skip(1) =~= chars@.subrange(1, chars@.len() as int));
    if chars[0] == '-' {
        match read_digits(&chars, 1, chars.len()) {
            Some(v) => Some(-(v as i128)),
            None => None,
        }
    } else if chars[0] == '+' {
        match read_digits(&chars, 1, chars.len()) {
            Some(v) => Some(v as i128),
            None => None,
        }
    } else {
        match read_digits(&chars, 0, chars.len()) {
            Some(v) => Some(v as i128),
            None => None,
        }
    }
}

/// Reads a 16-bit integer: an optional sign and then digits.
pub fn read_i16(s: &str) -> (out: Option<i16>)
    ensures
        (match out {
            Some(v) => Some(v as int),
            None => None,
        }) == within(int_value(s@), i16::MIN as int, i16::MAX as int),
{
    match read_signed(s) {
        Some(v) if -32_768 <= v && v <= 32_767 => Some(v as i16),
        _ => None,
    }
}

/// Reads a 32-bit integer: an optional sign and then digits.
pub fn read_i32(s: &str) -> (out: Option<i32>)
    ensures
        (match out {
            Some(v) => Some(v as int),
            None => None,
        }) == within(int_value(s@), i32::MIN as int, i32::MAX as int),
{
    match read_signed(s) {
        Some(v) if -2_147_483_648 <= v && v <= 2_147_483_647 => Some(v as i32),
        _ => None,
    }
}

/// Reads a 64-bit integer: an optional sign and then digits.
pub fn read_i64(s: &str) -> (out: Option<i64>)
    ensures
        (match out {
            Some(v) => Some(v as int),
            None => None,
        }) == within(int_value(s@), i64::MIN as int, i64::MAX as int),
{
    match read_signed(s) {
        Some(v) if -9_223_372_036_854_775_808 <= v && v <= 9_223_372_036_854_775_807 => Some(
            v as i64,
        ),
        _ => None,
    }
}

fn read_unsigned(s: &str) -> (out: Option<u128>)
    ensures
        match out {
            Some(v) => match natural_value(s@) {
                Some(n) => v as int == min_int(n, READ_LIMIT as int),
                None => false,
            },
            None => natural_value(s@) is None,
        },
        out matches Some(v) ==> v <= READ_LIMIT,
{
    let chars = chars_of(s);
    assert(chars@.subrange(0, chars@.len() as int) =~= s@);
    if chars.len() == 0 {
        return None;
    }
    assert(s@.skip(1) =~= chars@.subrange(1, chars@.len() as int));
    if chars[0] == '+' {
        read_digits(&chars, 1, chars.len())
    } else {
        read_digits(&chars, 0, chars.len())
    }
}

/// Reads a 32-bit natural number: an optional `+` and then digits.
pub fn read_u32(s: &str) -> (out: Option<u32>)
    ensures
        (match out {
            Some(v) => Some(v as int),
            None => None,
        }) == within(natural_value(s@), 0, u32::MAX as int),
{
    match read_unsigned(s) {
        Some(v) if v <= 4_294_967_295 => Some(v as u32),
        _ => None,
    }
}

/// Reads a 64-bit natural number: an optional `+` and then digits.
pub fn read_u64(s: &str) -> (out: Option<u64>)
    ensures
        (match out {
            Some(v) => Some(v as int),
            None => None,
        }) == within(natural_value(s@), 0, u64::MAX as int),
{
    match read_unsigned(s) {
        Some(v) if v <= 18_446_744_073_709_551_615 => Some(v as u64),
        _ => None,
    }
}

/// Reads a natural number that may need more than 64 bits, capped at
/// [`READ_LIMIT`].
pub fn read_wide(s: &str) -> (out: Option<u128>)
    ensures
        match out {
            Some(v) => match natural_value(s@) {
                Some(n) => v as int == min_int(n, READ_LIMIT as int),
                None => false,
            },
            None => natural_value(s@) is None,
        },
{
    read_unsigned(s)
}

/// A white-space character.
pub open spec fn is_space(c: char) -> bool {
    ||| '\t' <= c && c <= '\r'
    ||| c == ' '
    ||| c == '\u{85}'
    ||| c == '\u{A0}'
    ||| c == '\u{1680}'
    ||| '\u{2000}' <= c && c <= '\u{200A}'
    ||| c == '\u{2028}'
    ||| c == '\u{2029}'
    ||| c == '\u{202F}'
    ||| c == '\u{205F}'
    ||| c == '\u{3000}'
}

/// Tells whether a character is white space.
pub fn space(c: char) -> (yes: bool)
    ensures
        yes == is_space(c),
{
    ('\t' <= c && c <= '\r') || c == ' ' || c == '\u{85}' || c == '\u{A0}' || c == '\u{1680}' || (
    '\u{2000}' <= c && c <= '\u{200A}') || c == '\u{2028}' || c == '\u{2029}' || c == '\u{202F}' || c
        == '\u{205F}' || c == '\u{3000}'
}

/// The text without the white space at its start.
pub open spec fn trim_start(s: Seq<char>) -> Seq<char>
    decreases s.len(),
{
    if s.len() > 0 && is_space(s[0]) {
        trim_start(s.skip(1))
    } else {
        s
    }
}

/// The text without the white space at its end.
pub open spec fn trim_end(s: Seq<char>) -> Seq<char>
    decreases s.len(),
{
    if s.len() > 0 && is_space(s.last()) {
        trim_end(s.drop_last())
    } else {
        s
    }
}

/// The text without the white space at either end.
pub open spec fn trim(s: Seq<char>) -> Seq<char> {
    trim_end(trim_start(s))
}

/// Removes the white space at both ends of a text.
pub fn trimmed(s: &str) -> (out: String)
    ensures
        out@ == trim(s@),
{
    let chars = chars_of(s);
    let mut from: usize = 0;
    assert(chars@.skip(0) =~= s@);
    while from < chars.len() && space(chars[from])
        invariant
            from <= chars.len(),
            trim_start(chars@.skip(from as int)) == trim_start(s@),
        decreases chars.len() - from,
    {
        assert(chars@.skip(from as int).skip(1) =~= chars@.skip(from + 1));
        from = from + 1;
    }
    let mut to: usize = chars.len();
    assert(trim_start(s@) =~= chars@.subrange(from as int, to as int));
    while from < to && space(chars[to - 1])
        invariant
            from <= to <= chars.len(),
            trim_end(chars@.subrange(from as int, to as int)) == trim(s@),
        decreases to - from,
    {
        assert(chars@.subrange(from as int, to as int).drop_last() =~= chars@.subrange(
            from as int,
            to - 1,
        ));
        to = to - 1;
    }
    text_of(&chars, from, to)
}

} // verus!
