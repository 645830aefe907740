//! The textual form of a UUID, held as a `u128`, and the calls into the
//! `uuid` crate that write and read it.
use vstd::prelude::*;

verus! {

/// The lowercase hexadecimal digit for `d` (`0`-`9`, then `a`-`f`).
pub open spec fn hex_digit(d: nat) -> char {
    if d < 10 {
        (d + 48) as char
    } else {
        (d + 87) as char
    }
}

/// The `n` lowest hexadecimal digits of `v`, most significant first.
pub open spec fn hex_digits(v: nat, n: nat) -> Seq<char>
    decreases n,
{
    if n == 0 {
        Seq::empty()
    } else {
        hex_digits(v / 16, (n - 1) as nat).push(hex_digit(v % 16))
    }
}

/// Sixteen to the power `n`.
pub open spec fn power16(n: nat) -> nat
    decreases n,
{
    if n == 0 {
        1
    } else {
        16 * power16((n - 1) as nat)
    }
}

/// The canonical (hyphenated, lowercase) text of the UUID whose 128 bits,
/// read big-endian, are `v`: 8-4-4-4-12 hexadecimal digits.
pub open spec fn uuid_text(v: u128) -> Seq<char> {
    let d = hex_digits(v as nat, 32);
    d.subrange(0, 8) + seq!['-'] + d.subrange(8, 12) + seq!['-'] + d.subrange(12, 16) + seq![
        '-',
    ] + d.subrange(16, 20) + seq!['-'] + d.subrange(20, 32)
}

/// What `uuid::Uuid::parse_str` makes of a text that is not the canonical
/// text of any UUID (braced, URN, uppercase or undelimited forms, or no UUID).
pub uninterp spec fn uuid_parsed(s: Seq<char>) -> Option<u128>;

/// The UUID that the text `s` denotes, if any: the canonical text of `v`
/// denotes `v`; on other texts the parser of the `uuid` crate decides.
pub open spec fn uuid_of_text(s: Seq<char>) -> Option<u128> {
    if exists|v: u128| uuid_text(v) == s {
        Some(choose|v: u128| uuid_text(v) == s)
    } else {
        uuid_parsed(s)
    }
}

proof fn lemma_hex_digit_injective(a: nat, b: nat)
    requires
        a < 16,
        b < 16,
        hex_digit(a) == hex_digit(b),
    ensures
        a == b,
{
}

proof fn lemma_hex_digits_injective(a: nat, b: nat, n: nat)
    requires
        a < power16(n),
        b < power16(n),
        hex_digits(a, n) == hex_digits(b, n),
    ensures
        a == b,
    decreases n,
{
    if n > 0 {
        let m = (n - 1) as nat;
        assert(hex_digits(a, n).last() == hex_digit(a % 16));
        assert(hex_digits(b, n).last() == hex_digit(b % 16));
        lemma_hex_digit_injective(a % 16, b % 16);
        assert(hex_digits(a, n).drop_last() =~= hex_digits(a / 16, m));
        assert(hex_digits(b, n).drop_last() =~= hex_digits(b / 16, m));
        let p = power16(m);
        assert(a / 16 < p) by (nonlinear_arith)
            requires
                a < 16 * p,
        ;
        assert(b / 16 < p) by (nonlinear_arith)
            requires
                b < 16 * p,
        ;
        lemma_hex_digits_injective(a / 16, b / 16, m);
    }
}

proof fn lemma_hex_digits_len(v: nat, n: nat)
    ensures
        hex_digits(v, n).len() == n,
    decreases n,
{
    if n > 0 {
        lemma_hex_digits_len(v / 16, (n - 1) as nat);
    }
}

/// The digits of a canonical text, its hyphens left out.
spec fn text_digits(t: Seq<char>) -> Seq<char> {
    t.subrange(0, 8) + t.subrange(9, 13) + t.subrange(14, 18) + t.subrange(19, 23) + t.subrange(
        24,
        36,
    )
}

proof fn lemma_text_digits(v: u128)
    ensures
        text_digits(uuid_text(v)) == hex_digits(v as nat, 32),
{
    lemma_hex_digits_len(v as nat, 32);
    assert(text_digits(uuid_text(v)) =~= hex_digits(v as nat, 32));
}

/// A canonical text has 36 characters.
pub proof fn lemma_uuid_text_len(v: u128)
    ensures
        uuid_text(v).len() == 36,
{
    lemma_hex_digits_len(v as nat, 32);
}

/// Distinct UUIDs have distinct canonical texts.
pub proof fn lemma_uuid_text_injective(a: u128, b: u128)
    requires
        uuid_text(a) == uuid_text(b),
    ensures
        a == b,
{
    lemma_text_digits(a);
    lemma_text_digits(b);
    reveal_with_fuel(power16, 33);
    assert(power16(32) == 0x1_0000_0000_0000_0000_0000_0000_0000_0000nat);
    lemma_hex_digits_injective(a as nat, b as nat, 32);
}

/// The canonical text of `v` denotes `v`.
pub proof fn lemma_uuid_of_own_text(v: u128)
    ensures
        uuid_of_text(uuid_text(v)) == Some(v),
{
    let w = choose|w: u128| uuid_text(w) == uuid_text(v);
    lemma_uuid_text_injective(w, v);
}

/// Relies on `uuid::Uuid::from_u128` (the bits read big-endian) and on the
/// `Display` impl of `uuid::Uuid`, which writes the hyphenated lowercase form.
#[verifier::external_body]
pub(crate) fn uuid_to_string(v: u128) -> (r: String)
    ensures
        r@ == uuid_text(v),
{
    uuid::Uuid::from_u128(v).to_string()
}

/// Relies on `uuid::Uuid::parse_str` and `uuid::Uuid::as_u128`: the
/// hyphenated lowercase text of a UUID parses back to it, the empty text is
/// refused.
#[verifier::external_body]
pub(crate) fn parse_uuid(s: &str) -> (r: Option<u128>)
    ensures
        forall|v: u128| uuid_text(v) == s@ ==> r == Some(v),
        (forall|v: u128| uuid_text(v) != s@) ==> r == uuid_parsed(s@),
        s@.len() == 0 ==> r is None,
{
    match uuid::Uuid::parse_str(s) {
        Ok(u) => Some(u.as_u128()),
        Err(_) => None,
    }
}

} // verus!
