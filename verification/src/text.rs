//! Small text-building helpers: turning verified ASCII byte sequences into
//! `String`s, and rendering integers in decimal.

use vstd::prelude::*;

verus! {

/// Relies on `String::from_utf8`: ASCII bytes are valid UTF-8 and decode to
/// one `char` per byte, each equal to the byte's code point.
#[verifier::external_body]
pub(crate) fn ascii_string(bytes: Vec<u8>) -> (r: String)
    requires
        forall|i: int| 0 <= i < bytes@.len() ==> bytes@[i] < 128,
    ensures
        r@ == bytes@.map(|_i: int, b: u8| b as char),
{
    String::from_utf8(bytes).unwrap()
}

/// The decimal digits of `n`, most significant first, as bytes.
pub open spec fn dec_bytes(n: nat) -> Seq<u8>
    decreases n,
{
    if n < 10 {
        seq![(48 + n) as u8]
    } else {
        dec_bytes(n / 10).push((48 + n % 10) as u8)
    }
}

/// The decimal digits of `n`, most significant first, as characters.
pub open spec fn dec_seq(n: nat) -> Seq<char> {
    dec_bytes(n).map(|_i: int, b: u8| b as char)
}

/// Every byte of a decimal rendering is an ASCII digit.
pub proof fn lemma_dec_bytes_digits(n: nat)
    ensures
        dec_bytes(n).len() >= 1,
        forall|i: int| 0 <= i < dec_bytes(n).len() ==> 48 <= #[trigger] dec_bytes(n)[i] <= 57,
    decreases n,
{
    if n >= 10 {
        lemma_dec_bytes_digits(n / 10);
    }
}

/// Appends the decimal digits of `m` to `out`, most significant first.
pub fn push_decimal_bytes(m: u64, out: &mut Vec<u8>)
    ensures
        final(out)@ == old(out)@ + dec_bytes(m as nat),
    decreases m,
{
    if m >= 10 {
        push_decimal_bytes(m / 10, out);
    }
    out.push(48 + (m % 10) as u8);
    proof {
        assert(out@ =~= old(out)@ + dec_bytes(m as nat));
    }
}

/// Renders `n` in decimal.
pub fn decimal_string(n: u64) -> (r: String)
    ensures
        r@ == dec_seq(n as nat),
{
    let mut bytes: Vec<u8> = Vec::new();
    push_decimal_bytes(n, &mut bytes);
    proof {
        lemma_dec_bytes_digits(n as nat);
    }
    ascii_string(bytes)
}

} // verus!
