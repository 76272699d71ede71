use vstd::prelude::*;

verus! {

/// The decimal digit character for `d < 10`.
pub open spec fn digit_char(d: nat) -> char {
    if d < 10 {
        (48 + d) as char
    } else {
        '?'
    }
}

/// The decimal notation of `n`, without sign or leading zeros.
pub open spec fn decimal_digits(n: nat) -> Seq<char>
    decreases n,
{
    if n < 10 {
        seq![digit_char(n)]
    } else {
        decimal_digits(n / 10).push(digit_char(n % 10))
    }
}

/// Relies on the `Display` of `u128` (through `ToString`): it writes the
/// value in decimal, without sign or leading zeros.
#[verifier::external_body]
pub(crate) fn decimal(n: u128) -> (r: String)
    ensures
        r@ == decimal_digits(n as nat),
{
    n.to_string()
}

} // verus!
