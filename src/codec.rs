use crate::error::BridgeError;
use vstd::prelude::*;

verus! {

pub open spec fn is_digit(c: char) -> bool {
    '0' <= c && c <= '9'
}

pub open spec fn digit_value(c: char) -> nat {
    (c as u32 - '0' as u32) as nat
}

pub open spec fn digit_char(d: nat) -> char {
    (d + '0' as u32) as char
}

/// The number that a string of decimal digits denotes.
pub open spec fn value_of(s: Seq<char>) -> nat
    decreases s.len(),
{
    if s.len() == 0 {
        0
    } else {
        value_of(s.drop_last()) * 10 + digit_value(s.last())
    }
}

/// The shortest decimal text of `n`.
pub open spec fn decimal_of(n: nat) -> Seq<char>
    decreases n,
{
    if n < 10 {
        seq![digit_char(n)]
    } else {
        decimal_of(n / 10).push(digit_char(n % 10))
    }
}

pub open spec fn all_digits(s: Seq<char>) -> bool {
    forall|i: int| 0 <= i < s.len() ==> is_digit(#[trigger] s[i])
}

/// The digits of a handle's text: everything after an optional leading `+`.
pub open spec fn digits_part(s: Seq<char>) -> Seq<char> {
    if s.len() > 0 && s[0] == '+' {
        s.drop_first()
    } else {
        s
    }
}

/// Text that names a 64-bit id: an optional `+`, then at least one decimal
/// digit, denoting a value that fits in 64 bits.
pub open spec fn is_handle_text(s: Seq<char>) -> bool {
    let d = digits_part(s);
    d.len() > 0 && all_digits(d) && value_of(d) <= u64::MAX
}

/// The id that handle text denotes.
pub open spec fn handle_of(s: Seq<char>) -> nat {
    value_of(digits_part(s))
}

/// Relies on `u64::to_string` (the `Display` impl of integers): the value in
/// decimal, without sign or leading zeros.
#[verifier::external_body]
fn u64_to_decimal(n: u64) -> (r: String)
    ensures
        r@ == decimal_of(n as nat),
{
    n.to_string()
}

/// Relies on `str::parse::<u64>` (`FromStr` for `u64`): it accepts an
/// optional `+` followed by decimal digits whose value fits in 64 bits, and
/// nothing else.
#[verifier::external_body]
fn parse_u64(s: &str) -> (r: Option<u64>)
    ensures
        r is Some <==> is_handle_text(s@),
        r matches Some(v) ==> v as nat == handle_of(s@),
{
    s.parse::<u64>().ok()
}

/// Writes a handle id as exact decimal text, so that callers whose numbers
/// cannot carry all 64 bits still pass it back unchanged.
pub fn encode_handle(id: u64) -> (r: String)
    ensures
        r@ == decimal_of(id as nat),
{
    u64_to_decimal(id)
}

/// Reads a handle id back from its decimal text.
pub fn decode_handle(text: &str) -> (r: Result<u64, BridgeError>)
    ensures
        r is Ok <==> is_handle_text(text@),
        r matches Ok(v) ==> v as nat == handle_of(text@),
        r matches Err(e) ==> e == BridgeError::MalformedHandle,
{
    match parse_u64(text) {
        Some(v) => Ok(v),
        None => Err(BridgeError::MalformedHandle),
    }
}

proof fn lemma_decimal_of_digits(n: nat)
    ensures
        decimal_of(n).len() > 0,
        all_digits(decimal_of(n)),
        decimal_of(n)[0] != '+',
        value_of(decimal_of(n)) == n,
    decreases n,
{
    if n < 10 {
        let s = decimal_of(n);
        assert(s.drop_last() =~= Seq::<char>::empty());
        assert(value_of(s.drop_last()) == 0);
    } else {
        lemma_decimal_of_digits(n / 10);
        let s = decimal_of(n);
        let p = decimal_of(n / 10);
        assert(s.drop_last() =~= p);
        assert forall|i: int| 0 <= i < s.len() implies is_digit(#[trigger] s[i]) by {
            if i < p.len() {
                assert(s[i] == p[i]);
            }
        }
        assert(s[0] == p[0]);
    }
}

/// Decoding the text of an encoded id gives the id back exactly, over the
/// whole 64-bit range.
pub proof fn lemma_decode_encode(id: u64)
    ensures
        is_handle_text(decimal_of(id as nat)),
        handle_of(decimal_of(id as nat)) == id as nat,
{
    lemma_decimal_of_digits(id as nat);
}

} // verus!
