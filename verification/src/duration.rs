//! Rendering of an upload's length and of its scheduled or actual start
//! time, for the notification text.
//!
//! The content API reports an upload's length as a compact code such as
//! `PT1H2M3S`. The renderer reads the two bytes before the final byte as the
//! seconds, the two bytes before the first `M` as the minutes, and the two
//! bytes before the first `H` (when one occurs) as the hours; a byte window
//! is stripped of letters and anything that then fails to read as a number
//! counts as zero. The result is shown as `` `H:MM:SS` `` or `` `M:SS` ``.

use crate::text::{ascii_string, dec_bytes, dec_seq, lemma_dec_bytes_digits, push_decimal_bytes};
use vstd::prelude::*;
use vstd::seq_lib::*;
use vstd::string::StringExecFns;
use vstd::string::StringSliceAdditionalSpecFns;

verus! {

pub open spec fn is_digit_byte(c: u8) -> bool {
    48 <= c <= 57
}

pub open spec fn is_alpha_byte(c: u8) -> bool {
    (65 <= c <= 90) || (97 <= c <= 122)
}

pub open spec fn digit_val(c: u8) -> nat {
    (c - 48) as nat
}

/// What a two-byte window is worth once letters are stripped from its ends:
/// two digits read as one number, a single digit beside a letter reads as
/// itself, anything else reads as zero.
pub open spec fn pair_val(c1: u8, c2: u8) -> nat {
    if is_digit_byte(c1) && is_digit_byte(c2) {
        10 * digit_val(c1) + digit_val(c2)
    } else if is_alpha_byte(c1) && is_digit_byte(c2) {
        digit_val(c2)
    } else if is_digit_byte(c1) && is_alpha_byte(c2) {
        digit_val(c1)
    } else {
        0
    }
}

/// The value of the window of at most two bytes that ends just before
/// position `end`; a window reaching outside the sequence shrinks to the
/// bytes that exist.
pub open spec fn window_val(b: Seq<u8>, end: int) -> nat {
    if 2 <= end <= b.len() {
        pair_val(b[end - 2], b[end - 1])
    } else if end == 1 && b.len() >= 1 {
        if is_digit_byte(b[0]) {
            digit_val(b[0])
        } else {
            0
        }
    } else {
        0
    }
}

pub open spec fn spec_seconds(b: Seq<u8>) -> nat {
    window_val(b, b.len() - 1)
}

pub open spec fn spec_minutes(b: Seq<u8>) -> nat {
    match b.index_of_first(77u8) {
        Some(m) => window_val(b, m),
        None => 0,
    }
}

pub open spec fn spec_hours(b: Seq<u8>) -> Option<nat> {
    match b.index_of_first(72u8) {
        Some(h) => Some(window_val(b, h)),
        None => None,
    }
}

/// A number padded to at least two digits with a leading zero.
pub open spec fn pad2_bytes(v: nat) -> Seq<u8> {
    if v < 10 {
        seq![48u8] + dec_bytes(v)
    } else {
        dec_bytes(v)
    }
}

/// The rendered length as bytes: `` `H:MM:SS` `` when an `H` marker occurs,
/// `` `M:SS` `` otherwise (96 is the backtick, 58 the colon).
pub open spec fn spec_duration_bytes(b: Seq<u8>) -> Seq<u8> {
    match spec_hours(b) {
        Some(h) => seq![96u8] + dec_bytes(h) + seq![58u8] + pad2_bytes(spec_minutes(b)) + seq![
            58u8,
        ] + pad2_bytes(spec_seconds(b)) + seq![96u8],
        None => seq![96u8] + dec_bytes(spec_minutes(b)) + seq![58u8] + pad2_bytes(spec_seconds(b))
            + seq![96u8],
    }
}

pub open spec fn spec_duration_text(b: Seq<u8>) -> Seq<char> {
    spec_duration_bytes(b).map(|_i: int, c: u8| c as char)
}

/// The position of the first occurrence of `c` in `b`, if any.
fn find_byte(b: &[u8], c: u8) -> (r: Option<usize>)
    ensures
        r is Some <==> b@.index_of_first(c) is Some,
        r is Some ==> r->Some_0 == b@.index_of_first(c)->Some_0 && r->Some_0 < b@.len(),
{
    proof {
        b@.index_of_first_ensures(c);
    }
    let n = b.len();
    for i in 0..n
        invariant
            n == b@.len(),
            forall|j: int| 0 <= j < i ==> b@[j] != c,
    {
        if b[i] == c {
            proof {
                b@.index_of_first_ensures(c);
            }
            return Some(i);
        }
    }
    None
}

/// The value of the at-most-two-byte window ending just before `end`.
fn window_value(b: &[u8], end: usize) -> (v: u64)
    requires
        end <= b@.len(),
    ensures
        v == window_val(b@, end as int),
        v <= 99,
{
    if end >= 2 {
        let c1 = b[end - 2];
        let c2 = b[end - 1];
        let d1 = 48 <= c1 && c1 <= 57;
        let d2 = 48 <= c2 && c2 <= 57;
        let a1 = (65 <= c1 && c1 <= 90) || (97 <= c1 && c1 <= 122);
        let a2 = (65 <= c2 && c2 <= 90) || (97 <= c2 && c2 <= 122);
        if d1 && d2 {
            10 * ((c1 - 48) as u64) + ((c2 - 48) as u64)
        } else if a1 && d2 {
            (c2 - 48) as u64
        } else if d1 && a2 {
            (c1 - 48) as u64
        } else {
            0
        }
    } else if end == 1 && b.len() >= 1 {
        let c = b[0];
        if 48 <= c && c <= 57 {
            (c - 48) as u64
        } else {
            0
        }
    } else {
        0
    }
}

/// Appends `v` as at least two digits, zero-padded.
fn push_pad2(v: u64, out: &mut Vec<u8>)
    ensures
        final(out)@ == old(out)@ + pad2_bytes(v as nat),
{
    if v < 10 {
        out.push(48);
    }
    push_decimal_bytes(v, out);
    proof {
        assert(out@ =~= old(out)@ + pad2_bytes(v as nat));
    }
}

/// Renders the content API's length code for display, as described at the
/// top of this module. Total: a malformed code reads as zeroes rather than
/// failing.
pub fn duration_text(d: &str) -> (r: String)
    ensures
        r@ == spec_duration_text(d.spec_bytes()),
{
    let b = d.as_bytes();
    let n = b.len();
    let seconds = if n >= 1 {
        window_value(b, n - 1)
    } else {
        0
    };
    let minutes = match find_byte(b, 77) {
        Some(mi) => window_value(b, mi),
        None => 0,
    };
    proof {
        b@.index_of_first_ensures(77u8);
        b@.index_of_first_ensures(72u8);
    }
    let mut out: Vec<u8> = Vec::new();
    out.push(96);
    match find_byte(b, 72) {
        Some(hi) => {
            let hours = window_value(b, hi);
            push_decimal_bytes(hours, &mut out);
            out.push(58);
            push_pad2(minutes, &mut out);
            out.push(58);
            push_pad2(seconds, &mut out);
        },
        None => {
            push_decimal_bytes(minutes, &mut out);
            out.push(58);
            push_pad2(seconds, &mut out);
        },
    }
    out.push(96);
    proof {
        assert(out@ =~= spec_duration_bytes(b@));
        lemma_pad_windows_ascii(b@);
        assert forall|i: int| 0 <= i < out@.len() implies out@[i] < 128 by {}
    }
    let r = ascii_string(out);
    proof {
        assert(r@ =~= spec_duration_text(d.spec_bytes()));
    }
    r
}

/// All bytes of a rendered length are ASCII.
proof fn lemma_pad_windows_ascii(b: Seq<u8>)
    ensures
        forall|i: int|
            0 <= i < spec_duration_bytes(b).len() ==> #[trigger] spec_duration_bytes(b)[i] < 128,
{
    lemma_dec_bytes_digits(spec_minutes(b));
    lemma_dec_bytes_digits(spec_seconds(b));
    if spec_hours(b) is Some {
        lemma_dec_bytes_digits(spec_hours(b)->Some_0);
    }
}

/// The start-time markup understood by the delivery channel: `<t:SECS:R>`
/// shows the instant as a relative time.
pub open spec fn spec_relative_markup(t: u64) -> Seq<char> {
    "<t:"@ + dec_seq(t as nat) + ":R>"@
}

/// Renders the relative-time markup for an instant.
pub fn relative_time_markup(t: u64) -> (r: String)
    ensures
        r@ == spec_relative_markup(t),
{
    let mut s = String::new();
    s.append("<t:");
    let digits = crate::text::decimal_string(t);
    s.append(digits.as_str());
    s.append(":R>");
    proof {
        assert(s@ =~= spec_relative_markup(t));
    }
    s
}

} // verus!
