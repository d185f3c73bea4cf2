//! Unique, immutable, stable identifiers for notes: random UUIDs, written as hyphenated
//! hexadecimal text.
use vstd::prelude::*;

verus! {

#[verifier::external_type_specification]
#[verifier::external_body]
pub struct ExUuidError(uuid::Error);

/// The lower-case hexadecimal digit of a value below sixteen.
pub open spec fn hex_digit(n: nat) -> char {
    if n < 10 {
        (48 + n) as char
    } else {
        (87 + n) as char
    }
}

/// The `count` lowest hexadecimal digits of `v`, the most significant first.
pub open spec fn hex_digits(v: nat, count: nat) -> Seq<char>
    decreases count,
{
    if count == 0 {
        Seq::empty()
    } else {
        hex_digits(v / 16, (count - 1) as nat).push(hex_digit(v % 16))
    }
}

/// The hyphenated text of a 128-bit UUID: 32 lower-case hexadecimal digits in groups of
/// 8, 4, 4, 4 and 12, joined by `-`.
pub open spec fn hyphenated_text(v: u128) -> Seq<char> {
    let d = hex_digits(v as nat, 32);
    d.subrange(0, 8) + seq!['-'] + d.subrange(8, 12) + seq!['-'] + d.subrange(12, 16) + seq![
        '-',
    ] + d.subrange(16, 20) + seq!['-'] + d.subrange(20, 32)
}

/// The version field of a UUID (bits 76 to 79).
pub open spec fn uuid_version(v: u128) -> u128 {
    (v >> 76u128) & 0xfu128
}

/// The variant field of a UUID (bits 62 and 63).
pub open spec fn uuid_variant(v: u128) -> u128 {
    (v >> 62u128) & 0x3u128
}

/// The bits of a version 4 UUID that are drawn at random: all but the version field and the
/// two top bits of the variant field.
pub const RANDOM_BITS: u128 = 0xFFFF_FFFF_FFFF_4FFF_BFFF_FFFF_FFFF_FFFFu128;

/// The fixed bits of a version 4 UUID: version 4 and the RFC 4122 variant.
pub const V4_MARKS: u128 = 0x4000_8000_0000_0000_0000u128;

/// What `uuid::Uuid::from_str` makes of a text: the UUID, or nothing where it refuses it.
pub uninterp spec fn parsed_uuid(text: Seq<char>) -> Option<u128>;

/// The `Display` text of `uuid::Uuid::from_u128(v)`: its hyphenated, lower-case form.
#[verifier::external_body]
fn uuid_text(v: u128) -> (r: String)
    ensures
        r@ == hyphenated_text(v),
{
    uuid::Uuid::from_u128(v).to_string()
}

/// `uuid::Uuid::from_str`, read back with `as_u128`. It accepts the hyphenated text that
/// `uuid_text` writes (among other forms), and gives back the UUID that was written.
#[verifier::external_body]
fn parse_uuid(text: &str) -> (r: Result<u128, uuid::Error>)
    ensures
        r matches Ok(v) ==> parsed_uuid(text@) == Some(v),
        r is Err ==> parsed_uuid(text@) is None,
        forall|v: u128| text@ == hyphenated_text(v) ==> (r is Ok && r->Ok_0 == v),
{
    match <uuid::Uuid as std::str::FromStr>::from_str(text) {
        Ok(u) => Ok(u.as_u128()),
        Err(e) => Err(e),
    }
}


/// Sixteen to the power `k`.
pub open spec fn pow16(k: nat) -> nat
    decreases k,
{
    if k == 0 {
        1
    } else {
        pow16((k - 1) as nat) * 16
    }
}

proof fn lemma_pow16_positive(k: nat)
    ensures
        pow16(k) > 0,
    decreases k,
{
    if k > 0 {
        lemma_pow16_positive((k - 1) as nat);
    }
}

/// Digit `i` of `hex_digits(v, count)` is the hexadecimal digit of `v` of weight
/// `16^(count - 1 - i)`.
proof fn lemma_hex_digit_at(v: nat, count: nat, i: nat)
    requires
        i < count,
    ensures
        hex_digits(v, count).len() == count,
        hex_digits(v, count)[i as int] == hex_digit((v / pow16((count - 1 - i) as nat)) % 16),
    decreases count,
{
    lemma_hex_digits_len(v, count);
    let prefix = hex_digits(v / 16, (count - 1) as nat);
    lemma_hex_digits_len(v / 16, (count - 1) as nat);
    assert(hex_digits(v, count) == prefix.push(hex_digit(v % 16)));
    if i < count - 1 {
        lemma_hex_digit_at(v / 16, (count - 1) as nat, i);
        let k = (count - 2 - i) as nat;
        lemma_pow16_positive(k);
        vstd::arithmetic::div_mod::lemma_div_denominator(v as int, 16, pow16(k) as int);
        assert(pow16((count - 1 - i) as nat) == pow16(k) * 16);
        vstd::arithmetic::mul::lemma_mul_is_commutative(pow16(k) as int, 16);
        assert((v / 16) / pow16(k) == v / pow16((count - 1 - i) as nat));
        assert(hex_digits(v, count)[i as int] == prefix[i as int]);
    } else {
        assert(pow16(0) == 1);
        assert(v / pow16(0) == v);
    }
}

proof fn lemma_hex_digits_len(v: nat, count: nat)
    ensures
        hex_digits(v, count).len() == count,
    decreases count,
{
    if count > 0 {
        lemma_hex_digits_len(v / 16, (count - 1) as nat);
    }
}

/// Where two values agree on every hexadecimal digit below weight `16^n`, they agree modulo
/// `16^n`.
proof fn lemma_same_digits_same_rest(a: nat, b: nat, n: nat)
    requires
        forall|k: nat| k < n ==> #[trigger] ((a / pow16(k)) % 16) == (b / pow16(k)) % 16,
    ensures
        a % pow16(n) == b % pow16(n),
    decreases n,
{
    if n > 0 {
        let m = (n - 1) as nat;
        lemma_same_digits_same_rest(a, b, m);
        lemma_pow16_positive(m);
        vstd::arithmetic::div_mod::lemma_mod_breakdown(a as int, pow16(m) as int, 16);
        vstd::arithmetic::div_mod::lemma_mod_breakdown(b as int, pow16(m) as int, 16);
        assert((a / pow16(m)) % 16 == (b / pow16(m)) % 16);
    }
}

/// The text of a random (version 4) identifier: 36 characters, with the version digit `4` at
/// position 14 and one of `8`, `9`, `a`, `b` (the RFC 4122 variant) at position 19.
pub proof fn law_random_identifier_text(v: u128)
    requires
        uuid_version(v) == 4,
        uuid_variant(v) == 2,
    ensures
        hyphenated_text(v).len() == 36,
        hyphenated_text(v)[14] == '4',
        hyphenated_text(v)[19] == '8' || hyphenated_text(v)[19] == '9' || hyphenated_text(v)[19]
            == 'a' || hyphenated_text(v)[19] == 'b',
{
    let d = hex_digits(v as nat, 32);
    lemma_hex_digit_at(v as nat, 32, 12);
    lemma_hex_digit_at(v as nat, 32, 16);
    reveal_with_fuel(pow16, 20);
    assert(pow16(19) == 0x1000_0000_0000_0000_0000nat);
    assert(pow16(15) == 0x1000_0000_0000_0000nat);
    assert(((v >> 76u128) & 0xfu128) == (v / 0x1000_0000_0000_0000_0000u128) % 16u128)
        by (bit_vector);
    assert(((v >> 60u128) & 0xfu128) == (v / 0x1000_0000_0000_0000u128) % 16u128)
        by (bit_vector);
    assert((v >> 62u128) & 0x3u128 == 2u128 ==> 8u128 <= ((v >> 60u128) & 0xfu128) <= 11u128)
        by (bit_vector);
    let t = hyphenated_text(v);
    assert(t[14] == d[12]);
    assert(t[19] == d[16]);
}

/// Distinct identifiers have distinct texts.
pub proof fn law_identifier_text_is_unique(a: u128, b: u128)
    ensures
        hyphenated_text(a) == hyphenated_text(b) ==> a == b,
{
    if hyphenated_text(a) == hyphenated_text(b) {
        let da = hex_digits(a as nat, 32);
        let db = hex_digits(b as nat, 32);
        lemma_hex_digits_len(a as nat, 32);
        lemma_hex_digits_len(b as nat, 32);
        let ta = hyphenated_text(a);
        assert forall|i: int| 0 <= i < 32 implies da[i] == db[i] by {
            if i < 8 {
                assert(ta[i] == da[i]);
            } else if i < 12 {
                assert(ta[i + 1] == da[i]);
            } else if i < 16 {
                assert(ta[i + 2] == da[i]);
            } else if i < 20 {
                assert(ta[i + 3] == da[i]);
            } else {
                assert(ta[i + 4] == da[i]);
            }
        }
        assert forall|k: nat| k < 32 implies #[trigger] ((a as nat / pow16(k)) % 16) == (b as nat
            / pow16(k)) % 16 by {
            let i = (31 - k) as nat;
            lemma_hex_digit_at(a as nat, 32, i);
            lemma_hex_digit_at(b as nat, 32, i);
            lemma_pow16_positive(k);
            let x = (a as nat / pow16(k)) % 16;
            let y = (b as nat / pow16(k)) % 16;
            assert(hex_digit(x) == hex_digit(y));
            assert(x == y);
        }
        lemma_same_digits_same_rest(a as nat, b as nat, 32);
        assert(pow16(32) == 0x1_0000_0000_0000_0000_0000_0000_0000_0000nat) by {
            reveal_with_fuel(pow16, 33);
        }
        vstd::arithmetic::div_mod::lemma_small_mod(a as nat, pow16(32));
        vstd::arithmetic::div_mod::lemma_small_mod(b as nat, pow16(32));
    }
}

/// A unique, immutable, stable identifier for a `Note`.
#[derive(Debug, Clone, Copy)]
pub struct Identifier {
    value: u128,
}

impl View for Identifier {
    type V = u128;

    closed spec fn view(&self) -> u128 {
        self.value
    }
}

/// A text that is not a UUID.
#[derive(Debug)]
pub enum IdentifierError {
    UuidParseError { from: String, error: uuid::Error },
}

impl Identifier {
    /// The random (version 4) identifier made of 128 random bits: the version field is set
    /// to 4 and the variant field to the RFC 4122 variant, and the other 122 bits are kept.
    pub fn new(random_bits: u128) -> (r: Self)
        ensures
            r@ == (random_bits & RANDOM_BITS) | V4_MARKS,
            uuid_version(r@) == 4,
            uuid_variant(r@) == 2,
    {
        let value = (random_bits & RANDOM_BITS) | V4_MARKS;
        assert(((random_bits & 0xFFFF_FFFF_FFFF_4FFF_BFFF_FFFF_FFFF_FFFFu128)
            | 0x4000_8000_0000_0000_0000u128) >> 76u128 & 0xfu128 == 4u128) by (bit_vector);
        assert(((random_bits & 0xFFFF_FFFF_FFFF_4FFF_BFFF_FFFF_FFFF_FFFFu128)
            | 0x4000_8000_0000_0000_0000u128) >> 62u128 & 0x3u128 == 2u128) by (bit_vector);
        Identifier { value }
    }

    /// The identifier as hyphenated lower-case hexadecimal text.
    pub fn to_string(&self) -> (r: String)
        ensures
            r@ == hyphenated_text(self@),
    {
        uuid_text(self.value)
    }

    /// Reads an identifier from its text. Every text that `to_string` writes is read back as
    /// the identifier that wrote it.
    pub fn from_str(s: &str) -> (r: Result<Self, IdentifierError>)
        ensures
            match r {
                Ok(id) => parsed_uuid(s@) == Some(id@),
                Err(IdentifierError::UuidParseError { from, .. }) => parsed_uuid(s@) is None
                    && from@ == s@,
            },
            forall|v: u128| s@ == hyphenated_text(v) ==> (r matches Ok(id) && id@ == v),
    {
        match parse_uuid(s) {
            Ok(value) => Ok(Identifier { value }),
            Err(error) => Err(IdentifierError::UuidParseError { from: s.to_owned(), error }),
        }
    }
}

impl Default for Identifier {
    /// The nil identifier, all of whose bits are zero.
    fn default() -> (r: Self)
        ensures
            r@ == 0,
    {
        Identifier { value: 0 }
    }
}

} // verus!
