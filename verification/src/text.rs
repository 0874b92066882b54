//! Character and string primitives shared by the rest of the library:
//! building strings, trimming, ASCII classes, decimal numerals.
use vstd::prelude::*;

verus! {

/// Appends one character to a string (`String::push`).
#[verifier::external_body]
pub(crate) fn push_char(s: &mut String, c: char)
    ensures
        final(s)@ == old(s)@.push(c),
{
    s.push(c);
}

/// Appends a string slice to a string.
pub fn push_str(s: &mut String, t: &str)
    ensures
        final(s)@ == old(s)@ + t@,
{
    s.append(t);
}

/// The characters of a string slice, in order.
pub fn chars_of(s: &str) -> (v: Vec<char>)
    ensures
        v@ == s@,
{
    let mut v: Vec<char> = Vec::new();
    for c in it: s.chars()
        invariant
            it.seq() == s@,
            v@ == s@.take(it.index() as int),
    {
        proof {
            assert(s@.take(it.index() + 1) =~= s@.take(it.index() as int).push(c));
        }
        v.push(c);
    }
    proof {
        assert(s@.take(s@.len() as int) =~= s@);
    }
    v
}

/// A string made of the characters `v[lo..hi]`.
pub fn string_from_range(v: &Vec<char>, lo: usize, hi: usize) -> (s: String)
    requires
        lo <= hi <= v@.len(),
    ensures
        s@ == v@.subrange(lo as int, hi as int),
{
    let mut s = String::new();
    let mut i = lo;
    while i < hi
        invariant
            lo <= i <= hi <= v@.len(),
            s@ == v@.subrange(lo as int, i as int),
        decreases hi - i,
    {
        push_char(&mut s, v[i]);
        proof {
            assert(v@.subrange(lo as int, i + 1) =~= v@.subrange(lo as int, i as int).push(v@[i as int]));
        }
        i = i + 1;
    }
    s
}

/// A string made of all the characters of `v`.
pub fn string_from_chars(v: &Vec<char>) -> (s: String)
    ensures
        s@ == v@,
{
    let s = string_from_range(v, 0, v.len());
    proof {
        assert(v@.subrange(0, v@.len() as int) =~= v@);
    }
    s
}

/// A new string holding a copy of `t`.
pub fn owned(t: &str) -> (s: String)
    ensures
        s@ == t@,
{
    let mut s = String::new();
    s.append(t);
    proof {
        assert(Seq::<char>::empty() + t@ =~= t@);
    }
    s
}

/// Whether two strings hold the same characters.
pub fn str_eq(a: &str, b: &str) -> (r: bool)
    ensures
        r == (a@ == b@),
{
    let x = chars_of(a);
    let y = chars_of(b);
    if x.len() != y.len() {
        return false;
    }
    let mut i: usize = 0;
    while i < x.len()
        invariant
            x@ == a@,
            y@ == b@,
            x@.len() == y@.len(),
            i <= x@.len(),
            forall|j: int| 0 <= j < i ==> x@[j] == y@[j],
        decreases x.len() - i,
    {
        if x[i] != y[i] {
            return false;
        }
        i = i + 1;
    }
    proof {
        assert(x@ =~= y@);
    }
    true
}

/// Whether `c` occurs in `s`.
pub fn contains_char(s: &str, c: char) -> (r: bool)
    ensures
        r == s@.contains(c),
{
    let v = chars_of(s);
    let mut i: usize = 0;
    while i < v.len()
        invariant
            v@ == s@,
            i <= v@.len(),
            forall|j: int| 0 <= j < i ==> v@[j] != c,
        decreases v.len() - i,
    {
        if v[i] == c {
            assert(s@[i as int] == c);
            return true;
        }
        i = i + 1;
    }
    false
}

// ---- character classes ------------------------------------------------

/// Unicode `White_Space`: the characters `str::trim` removes.
pub open spec fn is_white_space(c: char) -> bool {
    let u = c as u32;
    (0x09 <= u && u <= 0x0d) || u == 0x20 || u == 0x85 || u == 0xa0 || u == 0x1680 || (0x2000
        <= u && u <= 0x200a) || u == 0x2028 || u == 0x2029 || u == 0x202f || u == 0x205f || u
        == 0x3000
}

pub fn char_is_white_space(c: char) -> (b: bool)
    ensures
        b == is_white_space(c),
{
    let u = c as u32;
    (0x09 <= u && u <= 0x0d) || u == 0x20 || u == 0x85 || u == 0xa0 || u == 0x1680 || (0x2000
        <= u && u <= 0x200a) || u == 0x2028 || u == 0x2029 || u == 0x202f || u == 0x205f || u
        == 0x3000
}

pub open spec fn is_ascii_digit(c: char) -> bool {
    '0' <= c && c <= '9'
}

pub open spec fn is_ascii_upper(c: char) -> bool {
    'A' <= c && c <= 'Z'
}

pub open spec fn is_ascii_lower(c: char) -> bool {
    'a' <= c && c <= 'z'
}

pub open spec fn is_ascii_alphabetic(c: char) -> bool {
    is_ascii_upper(c) || is_ascii_lower(c)
}

pub open spec fn is_ascii_alphanumeric(c: char) -> bool {
    is_ascii_alphabetic(c) || is_ascii_digit(c)
}

pub fn char_is_ascii_digit(c: char) -> (b: bool)
    ensures
        b == is_ascii_digit(c),
{
    '0' <= c && c <= '9'
}

pub fn char_is_ascii_alphabetic(c: char) -> (b: bool)
    ensures
        b == is_ascii_alphabetic(c),
{
    ('A' <= c && c <= 'Z') || ('a' <= c && c <= 'z')
}

pub fn char_is_ascii_alphanumeric(c: char) -> (b: bool)
    ensures
        b == is_ascii_alphanumeric(c),
{
    char_is_ascii_alphabetic(c) || char_is_ascii_digit(c)
}

/// ASCII lower-casing of one character; every other character is kept.
pub open spec fn ascii_lower_char(c: char) -> char {
    if is_ascii_upper(c) {
        ((c as u32) + 32) as char
    } else {
        c
    }
}

/// ASCII lower-casing of a whole sequence.
pub open spec fn ascii_lower(s: Seq<char>) -> Seq<char> {
    s.map_values(|c: char| ascii_lower_char(c))
}

/// ASCII upper-casing of one character; every other character is kept.
pub open spec fn ascii_upper_char(c: char) -> char {
    if is_ascii_lower(c) {
        ((c as u32) - 32) as char
    } else {
        c
    }
}

/// ASCII upper-casing of a whole sequence.
pub open spec fn ascii_upper(s: Seq<char>) -> Seq<char> {
    s.map_values(|c: char| ascii_upper_char(c))
}

pub open spec fn all_ascii(s: Seq<char>) -> bool {
    forall|i: int| 0 <= i < s.len() ==> (s[i] as u32) < 128
}

// ---- case mapping (Unicode, by std) -----------------------------------

/// What `str::to_lowercase` returns for a string: its Unicode lower-case
/// mapping.
pub uninterp spec fn unicode_lowercase(s: Seq<char>) -> Seq<char>;

/// What `str::to_uppercase` returns for a string: its Unicode upper-case
/// mapping.
pub uninterp spec fn unicode_uppercase(s: Seq<char>) -> Seq<char>;

/// No ASCII capital letter occurs in `s`.
pub open spec fn no_ascii_upper(s: Seq<char>) -> bool {
    forall|i: int| 0 <= i < s.len() ==> !is_ascii_upper(#[trigger] s[i])
}

/// `str::to_lowercase`. The contract names the Unicode mapping and states
/// that on pure ASCII input it is the ASCII mapping (A-Z to a-z, every
/// other character kept), and that the result holds no ASCII capital (the
/// documentation maps every character to its Unicode lower case, and no
/// character's lower case is an ASCII capital); the rest of the Unicode
/// tables is left unsaid.
#[verifier::external_body]
pub(crate) fn to_lowercase(s: &str) -> (r: String)
    ensures
        r@ == unicode_lowercase(s@),
        all_ascii(s@) ==> r@ == ascii_lower(s@),
        no_ascii_upper(r@),
{
    s.to_lowercase()
}

/// `str::to_uppercase`. The contract names the Unicode mapping and states
/// only that on pure ASCII input it is the ASCII mapping (a-z to A-Z, every
/// other character kept); the rest of the Unicode tables is left unsaid.
#[verifier::external_body]
pub(crate) fn to_uppercase(s: &str) -> (r: String)
    ensures
        r@ == unicode_uppercase(s@),
        all_ascii(s@) ==> r@ == ascii_upper(s@),
{
    s.to_uppercase()
}

// ---- trimming -----------------------------------------------------------

/// `s` without its leading white space.
pub open spec fn trim_start(s: Seq<char>) -> Seq<char>
    decreases s.len(),
{
    if s.len() > 0 && is_white_space(s[0]) {
        trim_start(s.drop_first())
    } else {
        s
    }
}

/// `s` without its trailing white space.
pub open spec fn trim_end(s: Seq<char>) -> Seq<char>
    decreases s.len(),
{
    if s.len() > 0 && is_white_space(s.last()) {
        trim_end(s.drop_last())
    } else {
        s
    }
}

/// `s` without leading and trailing white space (`str::trim`).
pub open spec fn trim(s: Seq<char>) -> Seq<char> {
    trim_end(trim_start(s))
}

proof fn lemma_trim_start_skip(s: Seq<char>, i: int)
    requires
        0 <= i < s.len(),
        is_white_space(s[i]),
    ensures
        trim_start(s.subrange(i, s.len() as int)) == trim_start(s.subrange(i + 1, s.len() as int)),
{
    assert(s.subrange(i, s.len() as int).drop_first() =~= s.subrange(i + 1, s.len() as int));
}

proof fn lemma_trim_end_skip(s: Seq<char>, lo: int, j: int)
    requires
        0 <= lo < j <= s.len(),
        is_white_space(s[j - 1]),
    ensures
        trim_end(s.subrange(lo, j)) == trim_end(s.subrange(lo, j - 1)),
{
    assert(s.subrange(lo, j).drop_last() =~= s.subrange(lo, j - 1));
}

proof fn lemma_trim_start_keeps_ascii(s: Seq<char>)
    requires
        all_ascii(s),
    ensures
        all_ascii(trim_start(s)),
    decreases s.len(),
{
    if s.len() > 0 && is_white_space(s[0]) {
        assert forall|i: int| 0 <= i < s.drop_first().len() implies (s.drop_first()[i] as u32) < 128 by {
            assert(s.drop_first()[i] == s[i + 1]);
        }
        lemma_trim_start_keeps_ascii(s.drop_first());
    }
}

proof fn lemma_trim_end_keeps_ascii(s: Seq<char>)
    requires
        all_ascii(s),
    ensures
        all_ascii(trim_end(s)),
    decreases s.len(),
{
    if s.len() > 0 && is_white_space(s.last()) {
        assert forall|i: int| 0 <= i < s.drop_last().len() implies (s.drop_last()[i] as u32) < 128 by {
            assert(s.drop_last()[i] == s[i]);
        }
        lemma_trim_end_keeps_ascii(s.drop_last());
    }
}

/// Trimming ASCII text leaves ASCII text.
pub proof fn lemma_trim_keeps_ascii(s: Seq<char>)
    requires
        all_ascii(s),
    ensures
        all_ascii(trim(s)),
{
    lemma_trim_start_keeps_ascii(s);
    lemma_trim_end_keeps_ascii(trim_start(s));
}

/// The string without leading and trailing white space.
pub fn trimmed(s: &str) -> (r: String)
    ensures
        r@ == trim(s@),
{
    let v = chars_of(s);
    let n = v.len();
    let mut i: usize = 0;
    proof {
        assert(v@.subrange(0, n as int) =~= v@);
    }
    while i < n && char_is_white_space(v[i])
        invariant
            v@ == s@,
            n == v@.len(),
            i <= n,
            trim_start(s@) == trim_start(v@.subrange(i as int, n as int)),
        decreases n - i,
    {
        proof {
            lemma_trim_start_skip(v@, i as int);
        }
        i = i + 1;
    }
    proof {
        let rest = v@.subrange(i as int, n as int);
        if rest.len() > 0 {
            assert(rest[0] == v@[i as int]);
        }
        assert(trim_start(rest) == rest);
    }
    let mut j: usize = n;
    proof {
        assert(v@.subrange(i as int, j as int) =~= v@.subrange(i as int, n as int));
    }
    while j > i && char_is_white_space(v[j - 1])
        invariant
            v@ == s@,
            n == v@.len(),
            i <= j <= n,
            trim(s@) == trim_end(v@.subrange(i as int, j as int)),
        decreases j - i,
    {
        proof {
            lemma_trim_end_skip(v@, i as int, j as int);
        }
        j = j - 1;
    }
    proof {
        let mid = v@.subrange(i as int, j as int);
        if mid.len() > 0 {
            assert(mid.last() == v@[j - 1]);
        }
        assert(trim_end(mid) == mid);
    }
    string_from_range(&v, i, j)
}

// ---- decimal numerals ---------------------------------------------------

/// The ASCII digit for `d` (`0 <= d < 10`).
pub open spec fn digit_char(d: int) -> char {
    (('0' as int) + d) as char
}

/// The decimal numeral of a natural number, without leading zeros.
pub open spec fn decimal(n: nat) -> Seq<char>
    decreases n,
{
    if n < 10 {
        seq![digit_char(n as int)]
    } else {
        decimal(n / 10).push(digit_char((n % 10) as int))
    }
}

/// The decimal numeral of an integer, with a leading `-` when negative
/// (what `Display` prints for integers).
pub open spec fn int_text(n: int) -> Seq<char> {
    if n < 0 {
        seq!['-'] + decimal((-n) as nat)
    } else {
        decimal(n as nat)
    }
}

fn digit(d: u64) -> (c: char)
    requires
        d < 10,
    ensures
        c == digit_char(d as int),
{
    match d {
        0 => '0',
        1 => '1',
        2 => '2',
        3 => '3',
        4 => '4',
        5 => '5',
        6 => '6',
        7 => '7',
        8 => '8',
        _ => '9',
    }
}

/// Appends the decimal numeral of `n`.
pub fn push_decimal(out: &mut String, n: u64)
    ensures
        final(out)@ == old(out)@ + decimal(n as nat),
    decreases n,
{
    if n < 10 {
        push_char(out, digit(n));
        proof {
            assert(old(out)@.push(digit_char(n as int)) =~= old(out)@ + seq![digit_char(n as int)]);
        }
    } else {
        push_decimal(out, n / 10);
        push_char(out, digit(n % 10));
        proof {
            assert(old(out)@ + decimal((n / 10) as nat).push(digit_char((n % 10) as int)) =~= (
            old(out)@ + decimal((n / 10) as nat)).push(digit_char((n % 10) as int)));
        }
    }
}

/// Appends the decimal numeral of `n`, with `-` when negative.
pub fn push_int(out: &mut String, n: i64)
    ensures
        final(out)@ == old(out)@ + int_text(n as int),
{
    if n < 0 {
        push_char(out, '-');
        let m: u64 = ((-(n + 1)) as u64) + 1;
        push_decimal(out, m);
        proof {
            assert(old(out)@.push('-') + decimal(m as nat) =~= old(out)@ + (seq!['-'] + decimal(
                m as nat,
            )));
        }
    } else {
        push_decimal(out, n as u64);
    }
}

/// The decimal text of an integer.
pub fn int_to_string(n: i64) -> (s: String)
    ensures
        s@ == int_text(n as int),
{
    let mut s = String::new();
    push_int(&mut s, n);
    proof {
        assert(Seq::<char>::empty() + int_text(n as int) =~= int_text(n as int));
    }
    s
}

// ---- parsing integers (`FromStr` for integer types) ----------------------

pub open spec fn all_digits(s: Seq<char>) -> bool {
    forall|i: int| 0 <= i < s.len() ==> is_ascii_digit(#[trigger] s[i])
}

/// The value of a string of decimal digits.
pub open spec fn digits_value(s: Seq<char>) -> nat
    decreases s.len(),
{
    if s.len() == 0 {
        0
    } else {
        digits_value(s.drop_last()) * 10 + ((s.last() as int) - ('0' as int)) as nat
    }
}

/// The integer a numeral denotes as `FromStr` for signed integers reads
/// it: an optional `+` or `-`, then one or more ASCII digits, nothing else.
pub open spec fn signed_numeral(s: Seq<char>) -> Option<int> {
    if s.len() > 0 && (s[0] == '+' || s[0] == '-') {
        let d = s.drop_first();
        if d.len() > 0 && all_digits(d) {
            Some(
                if s[0] == '-' {
                    -(digits_value(d) as int)
                } else {
                    digits_value(d) as int
                },
            )
        } else {
            None
        }
    } else if s.len() > 0 && all_digits(s) {
        Some(digits_value(s) as int)
    } else {
        None
    }
}

/// The integer a numeral denotes as `FromStr` for unsigned integers reads
/// it: an optional `+`, then one or more ASCII digits, nothing else.
pub open spec fn unsigned_numeral(s: Seq<char>) -> Option<int> {
    match signed_numeral(s) {
        Some(v) => if s[0] == '-' {
            None
        } else {
            Some(v)
        },
        None => None,
    }
}

/// `i64::from_str`, as an option: the value when the text is a numeral in
/// range.
pub open spec fn spec_parse_i64(s: Seq<char>) -> Option<i64> {
    match signed_numeral(s) {
        Some(v) => if i64::MIN <= v <= i64::MAX {
            Some(v as i64)
        } else {
            None
        },
        None => None,
    }
}

/// `usize::from_str`, as an option.
pub open spec fn spec_parse_usize(s: Seq<char>) -> Option<usize> {
    match unsigned_numeral(s) {
        Some(v) => if 0 <= v <= usize::MAX {
            Some(v as usize)
        } else {
            None
        },
        None => None,
    }
}

/// Cap on the running value while reading digits; above every bound
/// checked afterwards.
pub open spec fn digits_cap() -> int {
    0x1_0000_0000_0000_0000
}

/// Reads `d` as a digit string: `(true, min(value, cap))` when every
/// character is a digit and there is at least one.
fn read_digits(d: &Vec<char>, start: usize) -> (r: (bool, u128))
    requires
        start <= d@.len(),
    ensures
        r.0 == (d@.len() > start && all_digits(d@.subrange(start as int, d@.len() as int))),
        r.0 ==> r.1 == (if digits_value(d@.subrange(start as int, d@.len() as int))
            < digits_cap() {
            digits_value(d@.subrange(start as int, d@.len() as int)) as int
        } else {
            digits_cap()
        }),
{
    let n = d.len();
    if n == start {
        return (false, 0);
    }
    let cap: u128 = 0x1_0000_0000_0000_0000;
    let mut acc: u128 = 0;
    let mut i = start;
    proof {
        assert(d@.subrange(start as int, start as int) =~= Seq::<char>::empty());
    }
    while i < n
        invariant
            start <= i <= n == d@.len(),
            cap == digits_cap(),
            all_digits(d@.subrange(start as int, i as int)),
            acc == (if digits_value(d@.subrange(start as int, i as int)) < digits_cap() {
                digits_value(d@.subrange(start as int, i as int)) as int
            } else {
                digits_cap()
            }),
        decreases n - i,
    {
        let c = d[i];
        if !char_is_ascii_digit(c) {
            proof {
                let whole = d@.subrange(start as int, n as int);
                assert(whole[i - start] == c);
            }
            return (false, 0);
        }
        let dv: u128 = (c as u32 - '0' as u32) as u128;
        let ghost prefix = d@.subrange(start as int, i as int);
        let ghost next = d@.subrange(start as int, i + 1);
        proof {
            assert(next.drop_last() =~= prefix);
            assert(next.last() == c);
            assert(digits_value(next) == digits_value(prefix) * 10 + dv);
            assert forall|k: int| 0 <= k < next.len() implies is_ascii_digit(#[trigger] next[k]) by {
                if k < prefix.len() {
                    assert(next[k] == prefix[k]);
                }
            }
        }
        if acc >= cap {
            acc = cap;
        } else {
            let v = acc * 10 + dv;
            acc = if v >= cap { cap } else { v };
        }
        i = i + 1;
    }
    (true, acc)
}

/// `i64::from_str`: `Some` exactly when the text is a signed decimal
/// numeral whose value fits in an `i64`.
pub fn parse_i64(s: &str) -> (r: Option<i64>)
    ensures
        r == spec_parse_i64(s@),
{
    let d = chars_of(s);
    if d.len() == 0 {
        return None;
    }
    let c0 = d[0];
    let signed = c0 == '+' || c0 == '-';
    let start: usize = if signed { 1 } else { 0 };
    let (ok, v) = read_digits(&d, start);
    proof {
        if signed {
            assert(s@.drop_first() =~= d@.subrange(1, d@.len() as int));
        } else {
            assert(s@ =~= d@.subrange(0, d@.len() as int));
        }
    }
    if !ok {
        return None;
    }
    if c0 == '-' {
        if v > 0x8000_0000_0000_0000 {
            None
        } else if v == 0x8000_0000_0000_0000 {
            Some(i64::MIN)
        } else {
            Some(-(v as i64))
        }
    } else {
        if v > 0x7fff_ffff_ffff_ffff {
            None
        } else {
            Some(v as i64)
        }
    }
}

/// `usize::from_str`: `Some` exactly when the text is an unsigned decimal
/// numeral whose value fits in a `usize`.
pub fn parse_usize(s: &str) -> (r: Option<usize>)
    ensures
        r == spec_parse_usize(s@),
{
    let d = chars_of(s);
    if d.len() == 0 {
        return None;
    }
    let c0 = d[0];
    if c0 == '-' {
        return None;
    }
    let start: usize = if c0 == '+' { 1 } else { 0 };
    let (ok, v) = read_digits(&d, start);
    proof {
        if c0 == '+' {
            assert(s@.drop_first() =~= d@.subrange(1, d@.len() as int));
        } else {
            assert(s@ =~= d@.subrange(0, d@.len() as int));
        }
    }
    if !ok {
        return None;
    }
    if v > usize::MAX as u128 {
        None
    } else {
        Some(v as usize)
    }
}

/// `bool::from_str`: exactly `"true"` or `"false"`.
pub fn parse_bool(s: &str) -> (r: Option<bool>)
    ensures
        r == (if s@ == "true"@ {
            Some(true)
        } else if s@ == "false"@ {
            Some(false)
        } else {
            None::<bool>
        }),
{
    if str_eq(s, "true") {
        Some(true)
    } else if str_eq(s, "false") {
        Some(false)
    } else {
        None
    }
}

} // verus!

verus! {

proof fn lemma_decimal_digits(n: nat)
    ensures
        decimal(n).len() > 0,
        all_digits(decimal(n)),
        digits_value(decimal(n)) == n,
    decreases n,
{
    if n >= 10 {
        lemma_decimal_digits(n / 10);
        let s = decimal(n);
        assert(s.drop_last() =~= decimal(n / 10));
        let d = (n % 10) as int;
        assert((digit_char(d) as int) == ('0' as int) + d);
        assert(s.last() == digit_char(d));
        assert(digits_value(s) == digits_value(s.drop_last()) * 10 + ((s.last() as int) - ('0' as int)) as nat);
        assert(n == (n / 10) * 10 + d) by (nonlinear_arith)
            requires d == n % 10;
        assert(digits_value(s.drop_last()) == n / 10);
        assert(digits_value(s) == n);
        assert forall|i: int| 0 <= i < s.len() implies is_ascii_digit(#[trigger] s[i]) by {
            if i < s.len() - 1 {
                assert(s[i] == decimal(n / 10)[i]);
            }
        }
    } else {
        assert(decimal(n).drop_last() =~= Seq::<char>::empty());
        assert((digit_char(n as int) as int) == ('0' as int) + n);
        let s = decimal(n);
        assert(s.last() == digit_char(n as int));
        assert(digits_value(s) == digits_value(s.drop_last()) * 10 + ((s.last() as int) - ('0' as int)) as nat);
        assert(digits_value(s) == n);
    }
}

/// The decimal text of an integer reads back as that integer: what
/// `to_string` prints, `parse` accepts and returns unchanged.
pub proof fn lemma_int_text_round_trip(n: i64)
    ensures
        spec_parse_i64(int_text(n as int)) == Some(n),
{
    if n < 0 {
        let m = (-(n as int)) as nat;
        lemma_decimal_digits(m);
        let s = int_text(n as int);
        assert(s.drop_first() =~= decimal(m));
    } else {
        lemma_decimal_digits(n as nat);
        let s = decimal(n as nat);
        assert(is_ascii_digit(s[0]));
    }
}

} // verus!
