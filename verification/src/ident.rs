//! Identifiers and their text form.
//!
//! An identifier is a 128-bit number. Its text is the usual hyphenated form:
//! 32 lower-case hexadecimal digits in groups of 8, 4, 4, 4 and 12.
//!
//! A randomly drawn identifier carries 122 random bits, since six of its
//! bits mark version and variant. A secret is therefore drawn as two of
//! them, and reads as the two texts with a hyphen between.

use vstd::prelude::*;
use vstd::string::StringExecFns;

verus! {

/// A 128-bit identifier of an event, a reservation or a scanner invite.
pub type Id = u128;

/// The lower-case hexadecimal digit that stands for `n`, for `n` below 16.
pub open spec fn hex_digit(n: nat) -> char {
    seq![
        '0', '1', '2', '3', '4', '5', '6', '7', '8', '9', 'a', 'b', 'c', 'd', 'e', 'f',
    ][n as int]
}

/// The `k`-th hexadecimal digit of `value`, counted from the least significant.
pub open spec fn nibble(value: nat, k: nat) -> nat
    decreases k,
{
    if k == 0 {
        value % 16
    } else {
        nibble(value / 16, (k - 1) as nat)
    }
}

/// How many hexadecimal digits stand left of position `p` in the text of an
/// identifier (positions 8, 13, 18 and 23 hold hyphens).
pub open spec fn digits_before(p: int) -> int {
    if p < 8 {
        p
    } else if p < 13 {
        p - 1
    } else if p < 18 {
        p - 2
    } else if p < 23 {
        p - 3
    } else {
        p - 4
    }
}

/// The character at position `p` of the text of `id`.
pub open spec fn uuid_char(id: Id, p: int) -> char {
    if p == 8 || p == 13 || p == 18 || p == 23 {
        '-'
    } else {
        hex_digit(nibble(id as nat, (31 - digits_before(p)) as nat))
    }
}

/// The text of `id`: 36 characters, most significant digit first.
pub open spec fn uuid_text(id: Id) -> Seq<char> {
    Seq::new(36, |p: int| uuid_char(id, p))
}

/// Whether `id` carries the marks of a randomly drawn identifier: version 4
/// in digit 19 and the standard variant in the two top bits of digit 15.
pub open spec fn is_random_id(id: Id) -> bool {
    &&& nibble(id as nat, 19) == 4
    &&& 8 <= nibble(id as nat, 15) <= 11
}

/// What `uuid::Uuid::parse_str` makes of `text`: the identifier it reads, or
/// `None` where it reports an error.
pub uninterp spec fn parsed_uuid(text: Seq<char>) -> Option<Id>;

/// Makes `uuid::Error` known as a type, so that the parser's error can be
/// handed on. Nothing is said of what such a value holds.
#[verifier::external_type_specification]
#[verifier::external_body]
pub struct ExUuidError(uuid::Error);

/// Draws a random identifier with `uuid::Uuid::new_v4`.
///
/// Nothing is claimed of the value but the version and variant marks that
/// `new_v4` always sets. Two calls may return the same value; the store's
/// uniqueness checks decide. `new_v4` panics where the operating system
/// hands out no random bytes.
#[verifier::external_body]
pub(crate) fn fresh_id() -> (id: Id)
    ensures
        is_random_id(id),
{
    uuid::Uuid::new_v4().as_u128()
}

/// Writes `id` as text with the `Display` impl of `uuid::Uuid`, which prints
/// the hyphenated lower-case form.
#[verifier::external_body]
pub(crate) fn id_text(id: Id) -> (text: String)
    ensures
        text@ == uuid_text(id),
{
    uuid::Uuid::from_u128(id).to_string()
}

/// Reads an identifier with `uuid::Uuid::parse_str`. The result is named by
/// `parsed_uuid`; the error is the parser's own.
#[verifier::external_body]
pub(crate) fn parse_id(text: &str) -> (r: Result<Id, uuid::Error>)
    ensures
        r is Ok <==> parsed_uuid(text@) is Some,
        r matches Ok(id) ==> parsed_uuid(text@) == Some(id),
{
    match uuid::Uuid::parse_str(text) {
        Ok(parsed) => Ok(parsed.as_u128()),
        Err(e) => Err(e),
    }
}

/// Every hexadecimal digit of a number is below 16.
pub proof fn lemma_nibble_bound(value: nat, k: nat)
    ensures
        nibble(value, k) < 16,
    decreases k,
{
    if k > 0 {
        lemma_nibble_bound(value / 16, (k - 1) as nat);
    }
}

/// The text of an identifier, for links and messages.
pub fn format_id(id: Id) -> (text: String)
    ensures
        text@ == uuid_text(id),
{
    id_text(id)
}

/// What is left of `value` once its `n` lowest hexadecimal digits are cut
/// off.
pub open spec fn upper_digits(value: nat, n: nat) -> nat
    decreases n,
{
    if n == 0 {
        value
    } else {
        upper_digits(value / 16, (n - 1) as nat)
    }
}

/// Two numbers with the same `n` lowest hexadecimal digits and the same
/// digits above them are the same number.
pub proof fn lemma_digits_fix_number(a: nat, b: nat, n: nat)
    requires
        forall|k: nat| k < n ==> #[trigger] nibble(a, k) == nibble(b, k),
        upper_digits(a, n) == upper_digits(b, n),
    ensures
        a == b,
    decreases n,
{
    if n > 0 {
        assert forall|k: nat| k < (n - 1) as nat implies #[trigger] nibble(a / 16, k) == nibble(
            b / 16,
            k,
        ) by {
            assert(nibble(a, k + 1) == nibble(a / 16, k));
            assert(nibble(b, k + 1) == nibble(b / 16, k));
        }
        lemma_digits_fix_number(a / 16, b / 16, (n - 1) as nat);
        assert(nibble(a, 0) == nibble(b, 0));
    }
}

/// Cutting `m` digits and then `n` more is cutting `m + n`.
proof fn lemma_upper_digits_add(value: nat, m: nat, n: nat)
    ensures
        upper_digits(upper_digits(value, m), n) == upper_digits(value, m + n),
    decreases m,
{
    if m > 0 {
        lemma_upper_digits_add(value / 16, (m - 1) as nat, n);
    }
}

/// An identifier has 32 hexadecimal digits and nothing above them.
pub proof fn lemma_id_has_32_digits(id: Id)
    ensures
        upper_digits(id as nat, 32) == 0,
{
    let v = id as nat;
    reveal_with_fuel(upper_digits, 9);
    let a = upper_digits(v, 8);
    assert(a == v / 0x1_0000_0000);
    let b = upper_digits(a, 8);
    assert(b == a / 0x1_0000_0000);
    let c = upper_digits(b, 8);
    assert(c == b / 0x1_0000_0000);
    let d = upper_digits(c, 8);
    assert(d == c / 0x1_0000_0000);
    assert(d == 0);
    lemma_upper_digits_add(v, 8, 8);
    lemma_upper_digits_add(v, 16, 8);
    lemma_upper_digits_add(v, 24, 8);
}

/// The position in the text of an identifier of its `d`-th digit from the
/// left.
pub open spec fn digit_position(d: int) -> int {
    if d < 8 {
        d
    } else if d < 12 {
        d + 1
    } else if d < 16 {
        d + 2
    } else if d < 20 {
        d + 3
    } else {
        d + 4
    }
}

/// Different numbers below 16 have different hexadecimal digits.
pub proof fn lemma_hex_digit_injective(n: nat, m: nat)
    requires
        n < 16,
        m < 16,
        hex_digit(n) == hex_digit(m),
    ensures
        n == m,
{
}

/// The text tells the identifier: two identifiers with the same text are
/// the same.
pub proof fn lemma_uuid_text_injective(a: Id, b: Id)
    requires
        uuid_text(a) == uuid_text(b),
    ensures
        a == b,
{
    assert forall|k: nat| k < 32 implies #[trigger] nibble(a as nat, k) == nibble(b as nat, k) by {
        let p = digit_position(31 - k);
        assert(0 <= p < 36);
        assert(31 - digits_before(p) == k);
        assert(uuid_text(a)[p] == uuid_char(a, p));
        assert(uuid_text(b)[p] == uuid_char(b, p));
        lemma_nibble_bound(a as nat, k);
        lemma_nibble_bound(b as nat, k);
        lemma_hex_digit_injective(nibble(a as nat, k), nibble(b as nat, k));
    }
    lemma_id_has_32_digits(a);
    lemma_id_has_32_digits(b);
    lemma_digits_fix_number(a as nat, b as nat, 32);
}

/// What a secret is drawn as: two random identifiers, which together carry
/// 244 random bits.
#[derive(Debug, Clone, Copy, PartialEq, Eq, Structural)]
pub struct Draw {
    pub first: Id,
    pub second: Id,
}

impl Draw {
    /// Whether both identifiers carry the marks of a random one.
    pub open spec fn is_random(self) -> bool {
        is_random_id(self.first) && is_random_id(self.second)
    }

    /// The text of the secret: the texts of the two identifiers with a
    /// hyphen between, 73 characters in all.
    pub open spec fn text(self) -> Seq<char> {
        uuid_text(self.first) + seq!['-'] + uuid_text(self.second)
    }

    /// Draws a secret. Two draws may come out the same; whoever stores
    /// secrets decides whether one is taken.
    pub fn new() -> (draw: Self)
        ensures
            draw.is_random(),
    {
        Draw { first: fresh_id(), second: fresh_id() }
    }

    /// The text of the secret.
    pub fn to_text(&self) -> (text: String)
        ensures
            text@ == self.text(),
    {
        let mut text = id_text(self.first);
        text.append("-");
        text.append(id_text(self.second).as_str());
        proof {
            reveal_strlit("-");
            assert("-"@ =~= seq!['-']);
        }
        text
    }
}

/// Whether `text` is the text of some secret drawn at random.
pub open spec fn is_secret_text(text: Seq<char>) -> bool {
    exists|draw: Draw| draw.is_random() && text == #[trigger] draw.text()
}

/// As many draws as `n`.
pub fn draw_many(n: u32) -> (draws: Vec<Draw>)
    ensures
        draws.len() == n,
        forall|k: int| 0 <= k < draws.len() ==> (#[trigger] draws[k]).is_random(),
{
    let mut draws: Vec<Draw> = Vec::new();
    let mut drawn: u32 = 0;
    while drawn < n
        invariant
            drawn <= n,
            draws.len() == drawn,
            forall|k: int| 0 <= k < draws.len() ==> (#[trigger] draws[k]).is_random(),
        decreases n - drawn,
    {
        draws.push(Draw::new());
        drawn += 1;
    }
    draws
}

/// The text tells the secret: two secrets with the same text are the same
/// draw.
pub proof fn lemma_secret_text_injective(a: Draw, b: Draw)
    requires
        a.text() == b.text(),
    ensures
        a == b,
{
    assert(a.text().subrange(0, 36) =~= uuid_text(a.first));
    assert(b.text().subrange(0, 36) =~= uuid_text(b.first));
    assert(a.text().subrange(37, 73) =~= uuid_text(a.second));
    assert(b.text().subrange(37, 73) =~= uuid_text(b.second));
    lemma_uuid_text_injective(a.first, b.first);
    lemma_uuid_text_injective(a.second, b.second);
}

/// A secret under a prefix tells the secret all the same.
pub proof fn lemma_prefixed_secret_injective(prefix: Seq<char>, a: Draw, b: Draw)
    requires
        prefix + a.text() == prefix + b.text(),
    ensures
        a == b,
{
    let n = prefix.len() as int;
    assert((prefix + a.text()).subrange(n, n + 73) =~= a.text());
    assert((prefix + b.text()).subrange(n, n + 73) =~= b.text());
    lemma_secret_text_injective(a, b);
}

} // verus!
