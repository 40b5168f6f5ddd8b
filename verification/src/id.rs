use vstd::prelude::*;
use vstd::arithmetic::power2::pow2;

verus! {

/// A 128-bit universally unique identifier, held as its big-endian value.
#[derive(Copy, Clone, Debug, PartialEq, Eq, Hash)]
pub struct Uuid {
    pub value: u128,
}

/// The lower-case hexadecimal digit of `n` (`0 <= n < 16`).
pub open spec fn hex_digit(n: int) -> char {
    if n < 10 {
        (48 + n) as char
    } else {
        (87 + n) as char
    }
}

/// The `k`-th hexadecimal digit of `v`, counted from the most significant
/// one (`0 <= k < 32`).
pub open spec fn nibble(v: u128, k: int) -> int {
    (v as int / pow2((4 * (31 - k)) as nat) as int) % 16
}

/// How many dashes the hyphenated form has before position `p`.
pub open spec fn dashes_before(p: int) -> int {
    if p < 8 {
        0
    } else if p < 13 {
        1
    } else if p < 18 {
        2
    } else if p < 23 {
        3
    } else {
        4
    }
}

/// The hyphenated lower-case form `xxxxxxxx-xxxx-xxxx-xxxx-xxxxxxxxxxxx` of a value.
pub open spec fn hyphenated(v: u128) -> Seq<char> {
    Seq::new(
        36,
        |p: int|
            if p == 8 || p == 13 || p == 18 || p == 23 {
                '-'
            } else {
                hex_digit(nibble(v, p - dashes_before(p)))
            },
    )
}

/// A random (version 4, RFC 4122 variant) value: the version digit is `4`
/// and the variant digit is one of `8`, `9`, `a`, `b`.
pub open spec fn is_random_v4(v: u128) -> bool {
    &&& nibble(v, 12) == 4
    &&& nibble(v, 16) / 4 == 2
}

/// Calls `uuid::Uuid::new_v4` and returns the value of the new identifier.
/// Its source masks a random 128-bit number and sets the version digit to 4
/// and the variant bits to `10`; nothing else is said of the random part.
#[verifier::external_body]
fn random_v4_value() -> (v: u128)
    ensures
        is_random_v4(v),
{
    uuid::Uuid::new_v4().as_u128()
}

/// Calls `Uuid::from_u128(v).hyphenated().to_string()`, the lower-case
/// hyphenated form of the identifier with value `v`.
#[verifier::external_body]
fn hyphenated_text(v: u128) -> (s: String)
    ensures
        s@ == hyphenated(v),
{
    uuid::Uuid::from_u128(v).hyphenated().to_string()
}

impl Uuid {
    /// Whether this identifier is a random (version 4) one.
    pub open spec fn is_v4(self) -> bool {
        is_random_v4(self.value)
    }

    /// A fresh random identifier.
    pub fn new_v4() -> (id: Uuid)
        ensures
            id.is_v4(),
    {
        Uuid { value: random_v4_value() }
    }

    /// The identifier with the given 128-bit value.
    pub fn from_u128(value: u128) -> (id: Uuid)
        ensures
            id.value == value,
    {
        Uuid { value }
    }

    /// The 128-bit value of the identifier.
    pub fn as_u128(&self) -> (v: u128)
        ensures
            v == self.value,
    {
        self.value
    }

    /// The hyphenated lower-case text of the identifier, as it is displayed.
    pub fn to_string(&self) -> (s: String)
        ensures
            s@ == hyphenated(self.value),
    {
        hyphenated_text(self.value)
    }
}


/// The text of a random identifier shows its kind: 36 characters, with the
/// version digit `4` at position 14 and a variant digit `8`, `9`, `a` or `b`
/// at position 19.
pub proof fn random_id_text_shows_version(v: u128)
    requires
        is_random_v4(v),
    ensures
        hyphenated(v).len() == 36,
        hyphenated(v)[14] == '4',
        hyphenated(v)[19] == '8' || hyphenated(v)[19] == '9' || hyphenated(v)[19] == 'a' || hyphenated(v)[19] == 'b',
{
    let n = nibble(v, 16);
    assert(0 <= n < 16);
    assert(8 <= n < 12);
}

} // verus!
