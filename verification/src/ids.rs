//! Identifiers. Rows are identified by UUIDs, held here as their 128-bit
//! value; their text forms are the lowercase hexadecimal ones.
use vstd::prelude::*;

use crate::text::{push_str, string_from_chars, string_from_range};

verus! {

/// The lowercase hexadecimal digit for `d` (`0 <= d < 16`).
pub open spec fn hex_digit(d: u128) -> char {
    if d < 10 {
        (('0' as u32) + (d as u32)) as char
    } else {
        (('a' as u32) + (d as u32) - 10) as char
    }
}

/// The `k`-th hexadecimal digit of `v`, counting from the least
/// significant one.
pub open spec fn nibble(v: u128, k: int) -> u128 {
    (v >> ((4 * k) as u128)) & 0xf
}

/// The 32-digit lowercase hexadecimal form of a UUID (`Uuid::simple`).
pub open spec fn uuid_simple(v: u128) -> Seq<char> {
    Seq::new(32, |i: int| hex_digit(nibble(v, 31 - i)))
}

/// The hyphenated form of a UUID (its `Display`): the simple form split
/// into groups of 8, 4, 4, 4 and 12 digits by `-`.
pub open spec fn uuid_hyphenated(v: u128) -> Seq<char> {
    let s = uuid_simple(v);
    s.subrange(0, 8) + seq!['-'] + s.subrange(8, 12) + seq!['-'] + s.subrange(12, 16) + seq!['-']
        + s.subrange(16, 20) + seq!['-'] + s.subrange(20, 32)
}

fn hex_char(d: u128) -> (c: char)
    requires
        d < 16,
    ensures
        c == hex_digit(d),
{
    if d < 10 {
        let u: u32 = 48 + d as u32;
        proof {
            assert(('0' as u32) == 48);
        }
        char_from_u32(u)
    } else {
        let u: u32 = 97 + d as u32 - 10;
        proof {
            assert(('a' as u32) == 97);
        }
        char_from_u32(u)
    }
}

fn char_from_u32(u: u32) -> (c: char)
    requires
        48 <= u <= 57 || 97 <= u <= 102,
    ensures
        c == u as char,
{
    match u {
        48 => '0',
        49 => '1',
        50 => '2',
        51 => '3',
        52 => '4',
        53 => '5',
        54 => '6',
        55 => '7',
        56 => '8',
        57 => '9',
        97 => 'a',
        98 => 'b',
        99 => 'c',
        100 => 'd',
        101 => 'e',
        _ => 'f',
    }
}

/// The 32 hexadecimal digits of a UUID, most significant first.
pub fn uuid_digits(v: u128) -> (r: Vec<char>)
    ensures
        r@ == uuid_simple(v),
{
    let mut r: Vec<char> = Vec::new();
    let mut i: usize = 0;
    while i < 32
        invariant
            i <= 32,
            r@ =~= uuid_simple(v).take(i as int),
        decreases 32 - i,
    {
        let shift: u128 = (4 * (31 - i)) as u128;
        let d = (v >> shift) & 0xf;
        proof {
            assert(d < 16) by (bit_vector)
                requires
                    d == (v >> shift) & 0xf,
            ;
            assert(d == nibble(v, 31 - i as int));
        }
        r.push(hex_char(d));
        i = i + 1;
    }
    r
}

/// `Uuid::simple` as text: 32 lowercase hexadecimal digits.
pub fn uuid_to_simple(v: u128) -> (s: String)
    ensures
        s@ == uuid_simple(v),
{
    string_from_chars(&uuid_digits(v))
}

/// A UUID's hyphenated text form (`8-4-4-4-12` lowercase digits).
pub fn uuid_to_string(v: u128) -> (s: String)
    ensures
        s@ == uuid_hyphenated(v),
{
    let d = uuid_digits(v);
    let mut s = string_from_range(&d, 0, 8);
    push_str(&mut s, "-");
    push_str(&mut s, string_from_range(&d, 8, 12).as_str());
    push_str(&mut s, "-");
    push_str(&mut s, string_from_range(&d, 12, 16).as_str());
    push_str(&mut s, "-");
    push_str(&mut s, string_from_range(&d, 16, 20).as_str());
    push_str(&mut s, "-");
    push_str(&mut s, string_from_range(&d, 20, 32).as_str());
    proof {
        reveal_strlit("-");
        assert("-"@ =~= seq!['-']);
    }
    s
}

} // verus!

verus! {

/// A fresh random (version 4) UUID, `Uuid::new_v4`. The value rests on
/// chance; the contract states only the version and variant bits that
/// every such UUID carries.
#[verifier::external_body]
fn new_v4() -> (r: u128)
    ensures
        nibble(r, 19) == 4,
        (r >> 62u128) & 3 == 2,
{
    uuid::Uuid::new_v4().as_u128()
}

/// The invite token made of two UUIDs: their simple forms one after the
/// other (64 lowercase hexadecimal digits).
pub fn token_from_uuids(a: u128, b: u128) -> (r: String)
    ensures
        r@ == uuid_simple(a) + uuid_simple(b),
{
    let mut r = uuid_to_simple(a);
    push_str(&mut r, uuid_to_simple(b).as_str());
    r
}

/// A short opaque random token (two random UUIDs, about 244 bits of
/// entropy) for invite links.
pub fn random_token() -> (r: String)
    ensures
        exists|a: u128, b: u128|
            nibble(a, 19) == 4 && nibble(b, 19) == 4 && r@ == uuid_simple(a) + uuid_simple(b),
{
    let a = new_v4();
    let b = new_v4();
    token_from_uuids(a, b)
}

} // verus!

verus! {

proof fn lemma_nibble_step(a: u128, b: u128, s: u128)
    requires
        s <= 120,
        a >> (s + 4) == b >> (s + 4),
        (a >> s) & 0xf == (b >> s) & 0xf,
    ensures
        a >> s == b >> s,
{
    assert(a >> s == b >> s) by (bit_vector)
        requires
            s <= 120,
            a >> (s + 4) == b >> (s + 4),
            (a >> s) & 0xf == (b >> s) & 0xf,
    ;
}

/// Equal digits from the `k`-th on give equal values shifted right by
/// `4 * k` bits.
proof fn lemma_nibbles_determine_from(a: u128, b: u128, k: int)
    requires
        0 <= k < 32,
        forall|j: int| k <= j < 32 ==> #[trigger] nibble(a, j) == nibble(b, j),
    ensures
        a >> ((4 * k) as u128) == b >> ((4 * k) as u128),
    decreases 32 - k,
{
    let s = (4 * k) as u128;
    assert(nibble(a, k) == nibble(b, k));
    if k == 31 {
        assert(a >> 124u128 == b >> 124u128) by (bit_vector)
            requires
                (a >> 124u128) & 0xf == (b >> 124u128) & 0xf,
        ;
    } else {
        lemma_nibbles_determine_from(a, b, k + 1);
        assert((4 * (k + 1)) as u128 == s + 4);
        lemma_nibble_step(a, b, s);
    }
}

/// A value is determined by its 32 hexadecimal digits.
proof fn lemma_nibbles_determine(a: u128, b: u128)
    requires
        forall|j: int| 0 <= j < 32 ==> #[trigger] nibble(a, j) == nibble(b, j),
    ensures
        a == b,
{
    lemma_nibbles_determine_from(a, b, 0);
    assert(a == b) by (bit_vector)
        requires
            a >> 0u128 == b >> 0u128,
    ;
}

proof fn lemma_nibble_small(v: u128, k: int)
    requires
        0 <= k < 32,
    ensures
        nibble(v, k) < 16,
{
    let s: u128 = (4 * k) as u128;
    assert(((v >> s) & 0xf) < 16) by (bit_vector);
}

proof fn lemma_hex_digit_code(d: u128)
    requires
        d < 16,
    ensures
        (hex_digit(d) as u32) == (if d < 10 {
            48 + d
        } else {
            87 + d
        }),
{
    assert(('0' as u32) == 48);
    assert(('a' as u32) == 97);
}

/// The hyphenated form of a UUID is 36 characters long, each a `-` or a
/// lowercase hexadecimal digit, beginning with a digit.
pub proof fn lemma_uuid_hyphenated_chars(v: u128)
    ensures
        uuid_hyphenated(v).len() == 36,
        forall|i: int|
            0 <= i < 36 ==> (#[trigger] uuid_hyphenated(v)[i] == '-' || (48 <= (uuid_hyphenated(
                v,
            )[i] as u32) <= 57) || (97 <= (uuid_hyphenated(v)[i] as u32) <= 102)),
        uuid_hyphenated(v)[0] != '-',
{
    let s = uuid_simple(v);
    let h = uuid_hyphenated(v);
    assert forall|i: int| 0 <= i < 32 implies (48 <= (#[trigger] s[i] as u32) <= 57) || (97 <= (
    s[i] as u32) <= 102) by {
        lemma_nibble_small(v, 31 - i);
        lemma_hex_digit_code(nibble(v, 31 - i));
    }
    assert forall|i: int| 0 <= i < 36 implies (#[trigger] h[i] == '-' || (48 <= (h[i] as u32) <= 57)
        || (97 <= (h[i] as u32) <= 102)) by {
        if i < 8 {
            assert(h[i] == s[i]);
        } else if i == 8 || i == 13 || i == 18 || i == 23 {
        } else if i < 13 {
            assert(h[i] == s[i - 1]);
        } else if i < 18 {
            assert(h[i] == s[i - 2]);
        } else if i < 23 {
            assert(h[i] == s[i - 3]);
        } else {
            assert(h[i] == s[i - 4]);
        }
    }
    assert(h[0] == s[0]);
}

/// Different UUIDs have different text forms: the simple form (and so the
/// hyphenated one) determines the UUID.
pub proof fn lemma_uuid_simple_injective(a: u128, b: u128)
    requires
        uuid_simple(a) == uuid_simple(b),
    ensures
        a == b,
{
    assert forall|k: int| 0 <= k < 32 implies #[trigger] nibble(a, k) == nibble(b, k) by {
        lemma_nibble_small(a, k);
        lemma_nibble_small(b, k);
        assert(uuid_simple(a)[31 - k] == uuid_simple(b)[31 - k]);
        lemma_hex_digit_code(nibble(a, k));
        lemma_hex_digit_code(nibble(b, k));
        assert(uuid_simple(a)[31 - k] == hex_digit(nibble(a, 31 - (31 - k))));
        assert(uuid_simple(b)[31 - k] == hex_digit(nibble(b, 31 - (31 - k))));
        assert(31 - (31 - k) == k);
        assert(hex_digit(nibble(a, k)) == hex_digit(nibble(b, k)));
        assert((hex_digit(nibble(a, k)) as u32) == (hex_digit(nibble(b, k)) as u32));
    }
    lemma_nibbles_determine(a, b);
}

/// The hyphenated form determines the simple form.
pub proof fn lemma_uuid_hyphenated_injective(a: u128, b: u128)
    requires
        uuid_hyphenated(a) == uuid_hyphenated(b),
    ensures
        a == b,
{
    let ha = uuid_hyphenated(a);
    let sa = uuid_simple(a);
    let sb = uuid_simple(b);
    assert forall|i: int| 0 <= i < 32 implies sa[i] == sb[i] by {
        let j = if i < 8 { i } else if i < 12 { i + 1 } else if i < 16 { i + 2 } else if i < 20 { i + 3 } else { i + 4 };
        assert(uuid_hyphenated(a)[j] == sa[i]);
        assert(uuid_hyphenated(b)[j] == sb[i]);
    }
    assert(sa =~= sb);
    lemma_uuid_simple_injective(a, b);
}

} // verus!
