//! Header text built through outside crates and std.
use vstd::prelude::*;

verus! {

/// The decimal digit for `d`, which is below ten.
pub open spec fn digit_char(d: nat) -> char {
    if d == 0 { '0' }
    else if d == 1 { '1' }
    else if d == 2 { '2' }
    else if d == 3 { '3' }
    else if d == 4 { '4' }
    else if d == 5 { '5' }
    else if d == 6 { '6' }
    else if d == 7 { '7' }
    else if d == 8 { '8' }
    else { '9' }
}

/// The decimal notation of `n`, without sign or leading zeros.
pub open spec fn decimal(n: nat) -> Seq<char>
    decreases n,
{
    if n < 10 {
        seq![digit_char(n)]
    } else {
        decimal(n / 10) + seq![digit_char(n % 10)]
    }
}

/// What `url_escape::encode_component` makes of a text: UTF-8 percent-encoding
/// of every byte outside the component-safe ASCII characters.
pub uninterp spec fn component_encoding(s: Seq<char>) -> Seq<char>;

/// Relies on `url_escape::encode_component_to_string`: it appends the encoded
/// text to `out`; the encoding of an empty text is empty, and every character
/// it writes is ASCII, since each byte of a non-ASCII character is written as
/// `%XX`.
#[verifier::external_body]
pub(crate) fn encode_component_to_string(text: &str, out: &mut String)
    ensures
        final(out)@ == old(out)@ + component_encoding(text@),
        text@.len() == 0 ==> final(out)@ == old(out)@,
        forall|i: int| old(out)@.len() <= i < final(out)@.len()
            ==> ((#[trigger] final(out)@[i]) as u32) < 0x80,
{
    url_escape::encode_component_to_string(text, out);
}

/// Relies on `u64`'s `Display`: decimal digits, no sign, no leading zeros.
#[verifier::external_body]
pub(crate) fn u64_to_string(n: u64) -> (r: String)
    ensures
        r@ == decimal(n as nat),
{
    n.to_string()
}

} // verus!
