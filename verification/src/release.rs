//! Release identifiers and their canonical text form.

use vstd::prelude::*;

verus! {

/// The sixteen lower-case hexadecimal digits, by value.
pub open spec fn hex_digits() -> Seq<char> {
    seq!['0', '1', '2', '3', '4', '5', '6', '7', '8', '9', 'a', 'b', 'c', 'd', 'e', 'f']
}

/// Sixteen to the power `n`.
pub open spec fn pow16(n: nat) -> nat
    decreases n,
{
    if n == 0 {
        1
    } else {
        16 * pow16((n - 1) as nat)
    }
}

/// The `k`-th hexadecimal digit of `bits`, counted from the most significant
/// of its thirty-two digits.
pub open spec fn nibble(bits: u128, k: int) -> int {
    (bits as int / pow16((31 - k) as nat) as int) % 16
}

/// How many hyphens stand before position `i` of the canonical text.
pub open spec fn hyphens_before(i: int) -> int {
    if i < 8 {
        0
    } else if i < 13 {
        1
    } else if i < 18 {
        2
    } else if i < 23 {
        3
    } else {
        4
    }
}

/// Whether position `i` of the canonical text holds a hyphen.
pub open spec fn is_hyphen_position(i: int) -> bool {
    i == 8 || i == 13 || i == 18 || i == 23
}

/// The canonical text of an identifier: its thirty-two lower-case
/// hexadecimal digits, most significant first, in groups of 8, 4, 4, 4 and
/// 12 digits with a hyphen between two groups.
pub open spec fn canonical_text(bits: u128) -> Seq<char> {
    Seq::new(
        36,
        |i: int|
            if is_hyphen_position(i) {
                '-'
            } else {
                hex_digits()[nibble(bits, i - hyphens_before(i))]
            },
    )
}

/// Sixteen to any power is positive, and sixteen to the thirty-second is
/// more than 128 bits hold.
proof fn lemma_pow16(n: nat)
    ensures
        pow16(n) > 0,
        pow16(n + 1) == pow16(n) * 16,
        pow16(32) == 0x1_0000_0000_0000_0000_0000_0000_0000_0000,
    decreases n,
{
    if n > 0 {
        lemma_pow16((n - 1) as nat);
    }
    reveal_with_fuel(pow16, 33);
}

/// Different values have different hexadecimal digits.
proof fn lemma_hex_digits_differ(x: int, y: int)
    requires
        0 <= x < 16,
        0 <= y < 16,
        hex_digits()[x] == hex_digits()[y],
    ensures
        x == y,
{
    let d = hex_digits();
    assert(d[0] == '0' && d[1] == '1' && d[2] == '2' && d[3] == '3');
    assert(d[4] == '4' && d[5] == '5' && d[6] == '6' && d[7] == '7');
    assert(d[8] == '8' && d[9] == '9' && d[10] == 'a' && d[11] == 'b');
    assert(d[12] == 'c' && d[13] == 'd' && d[14] == 'e' && d[15] == 'f');
}

/// The canonical text is thirty-six characters long. Four of them are
/// hyphens and the others hexadecimal digits; none is a slash, so the text
/// is a file name.
pub proof fn lemma_canonical_text_shape(bits: u128)
    ensures
        canonical_text(bits).len() == 36,
        forall|i: int|
            0 <= i < 36 ==> if is_hyphen_position(i) {
                #[trigger] canonical_text(bits)[i] == '-'
            } else {
                hex_digits().contains(canonical_text(bits)[i])
            },
        !canonical_text(bits).contains('/'),
        !canonical_text(bits).contains('.'),
{
    let text = canonical_text(bits);
    let d = hex_digits();
    assert(d[0] == '0' && d[1] == '1' && d[2] == '2' && d[3] == '3');
    assert(d[4] == '4' && d[5] == '5' && d[6] == '6' && d[7] == '7');
    assert(d[8] == '8' && d[9] == '9' && d[10] == 'a' && d[11] == 'b');
    assert(d[12] == 'c' && d[13] == 'd' && d[14] == 'e' && d[15] == 'f');
    assert forall|i: int| 0 <= i < 36 implies (if is_hyphen_position(i) {
        #[trigger] text[i] == '-'
    } else {
        d.contains(text[i]) && text[i] != '/' && text[i] != '.'
    }) by {
        if !is_hyphen_position(i) {
            let k = i - hyphens_before(i);
            lemma_pow16((31 - k) as nat);
            let v = nibble(bits, k);
            assert(0 <= v < 16);
            assert(text[i] == d[v]);
        }
    }
    assert(!text.contains('/')) by {
        if text.contains('/') {
            let i = choose|i: int| 0 <= i < text.len() && text[i] == '/';
            assert(text[i] == '/');
        }
    }
    assert(!text.contains('.')) by {
        if text.contains('.') {
            let i = choose|i: int| 0 <= i < text.len() && text[i] == '.';
            assert(text[i] == '.');
        }
    }
}

/// Identifiers with the same digits in their lowest `n` places are the
/// same in those places.
proof fn lemma_same_digits_same_low_part(a: u128, b: u128, n: nat)
    requires
        n <= 32,
        forall|k: int| 0 <= k < 32 ==> nibble(a, k) == nibble(b, k),
    ensures
        a as int % pow16(n) as int == b as int % pow16(n) as int,
    decreases n,
{
    if n > 0 {
        let m = (n - 1) as nat;
        lemma_same_digits_same_low_part(a, b, m);
        lemma_pow16(m);
        let p = pow16(m) as int;
        vstd::arithmetic::div_mod::lemma_mod_breakdown(a as int, p, 16);
        vstd::arithmetic::div_mod::lemma_mod_breakdown(b as int, p, 16);
        assert(nibble(a, 31 - m) == nibble(b, 31 - m));
        assert(nibble(a, 31 - m) == (a as int / p) % 16);
        assert(nibble(b, 31 - m) == (b as int / p) % 16);
        assert(pow16(n) as int == p * 16);
    }
}

/// Two identifiers with the same canonical text are the same identifier:
/// no two releases share a file in the blob cache or an address at the
/// lookup service.
pub proof fn lemma_canonical_text_is_injective(a: u128, b: u128)
    requires
        canonical_text(a) == canonical_text(b),
    ensures
        a == b,
{
    assert forall|k: int| 0 <= k < 32 implies nibble(a, k) == nibble(b, k) by {
        let i = if k < 8 {
            k
        } else if k < 12 {
            k + 1
        } else if k < 16 {
            k + 2
        } else if k < 20 {
            k + 3
        } else {
            k + 4
        };
        assert(!is_hyphen_position(i) && i - hyphens_before(i) == k);
        lemma_pow16((31 - k) as nat);
        assert(canonical_text(a)[i] == hex_digits()[nibble(a, k)]);
        assert(canonical_text(b)[i] == hex_digits()[nibble(b, k)]);
        lemma_hex_digits_differ(nibble(a, k), nibble(b, k));
    }
    lemma_same_digits_same_low_part(a, b, 32);
    lemma_pow16(32);
    vstd::arithmetic::div_mod::lemma_small_mod(a as nat, pow16(32));
    vstd::arithmetic::div_mod::lemma_small_mod(b as nat, pow16(32));
}

/// What `uuid::Uuid::parse_str` makes of a text: the 128 bits of the
/// identifier it accepts, or `None` where it rejects the text.
pub uninterp spec fn uuid_parse(text: Seq<char>) -> Option<u128>;

/// Calls `uuid::Uuid::parse_str` and hands the identifier out as its 128
/// bits, most significant byte first. Nothing is proved of the parser: its
/// answer is only given the name `uuid_parse`.
#[verifier::external_body]
fn uuid_parse_str(text: &str) -> (bits: Option<u128>)
    ensures
        bits == uuid_parse(text@),
{
    match uuid::Uuid::parse_str(text) {
        Ok(id) => Some(id.as_u128()),
        Err(_) => None,
    }
}

/// Calls `uuid::Uuid::to_hyphenated` on the identifier with the given bits
/// and formats it. The contract claims that the outcome is the lower-case
/// 8-4-4-4-12 form, which is what the crate's encoder writes.
#[verifier::external_body]
fn uuid_hyphenated(bits: u128) -> (text: String)
    ensures
        text@ == canonical_text(bits),
{
    uuid::Uuid::from_u128(bits).to_hyphenated().to_string()
}

/// An opaque, globally unique 128-bit identifier of a music release.
#[derive(Clone, Copy, Debug, PartialEq, Eq, Hash, Structural)]
pub struct ReleaseId {
    pub bits: u128,
}

impl ReleaseId {
    /// The identifier a text stands for, if the text is a valid identifier.
    pub open spec fn parsed(text: Seq<char>) -> Option<ReleaseId> {
        match uuid_parse(text) {
            Some(bits) => Some(ReleaseId { bits }),
            None => None,
        }
    }

    /// The canonical text of this identifier.
    pub open spec fn text(self) -> Seq<char> {
        canonical_text(self.bits)
    }

    /// The identifier with the given bits.
    pub fn from_bits(bits: u128) -> (id: ReleaseId)
        ensures
            id.bits == bits,
    {
        ReleaseId { bits }
    }

    /// Reads an identifier from text. A text that is no valid identifier
    /// gives `None`; that is not an error.
    pub fn parse(text: &str) -> (id: Option<ReleaseId>)
        ensures
            id == ReleaseId::parsed(text@),
    {
        match uuid_parse_str(text) {
            Some(bits) => Some(ReleaseId { bits }),
            None => None,
        }
    }

    /// Writes the identifier in its canonical hyphenated form.
    pub fn to_text(&self) -> (text: String)
        ensures
            text@ == self.text(),
    {
        uuid_hyphenated(self.bits)
    }
}

} // verus!
