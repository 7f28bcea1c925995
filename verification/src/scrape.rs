//! Extraction of a feed's upload-list identifier from a fetched channel
//! page.
//!
//! The page is scanned byte by byte for the marker `channel_id=`; the bytes
//! after the marker, up to a closing quote, form the channel identifier.
//! Channel identifiers start `UC`, and the corresponding upload list swaps
//! that prefix to `UU`, so the second byte is rewritten from `C` to `U` as
//! it is collected. The result is accepted only as exactly 24 bytes
//! starting `UU`.

use crate::text::ascii_string;
use vstd::prelude::*;

verus! {

/// Resolving a channel page to an upload-list identifier failed.
#[derive(Debug)]
pub enum PlaylistIdError {
    UriParse(String),
    Hyper(String),
    BadStatus(u16),
    BodyParse(String),
}

/// The marker bytes, `channel_id=`.
pub open spec fn marker_bytes() -> Seq<u8> {
    seq![99u8, 104u8, 97u8, 110u8, 110u8, 101u8, 108u8, 95u8, 105u8, 100u8, 61u8]
}

/// The scanner's state: how much of the marker the current run has
/// matched, the identifier bytes collected so far, and whether a closing
/// quote has ended the collection.
#[verifier::ext_equal]
pub struct ScanState {
    pub matched: nat,
    pub buf: Seq<u8>,
    pub done: bool,
}

pub open spec fn scan_init() -> ScanState {
    ScanState { matched: 0, buf: Seq::empty(), done: false }
}

/// One byte of scanning. Before the marker is fully matched, a byte either
/// extends the current match run or resets it. After it, a quote ends the
/// collection once anything was collected (a quote straight after the
/// marker is passed over), and any other byte is collected — with the
/// second byte rewritten from `C` (67) to `U` (85).
pub open spec fn scan_step(s: ScanState, byte: u8) -> ScanState {
    if s.done {
        s
    } else if s.matched >= 11 {
        if byte == 34 {
            if s.buf.len() == 0 {
                s
            } else {
                ScanState { done: true, ..s }
            }
        } else if s.buf.len() == 1 && byte == 67 {
            ScanState { buf: s.buf.push(85), ..s }
        } else {
            ScanState { buf: s.buf.push(byte), ..s }
        }
    } else if byte == marker_bytes()[s.matched as int] {
        ScanState { matched: s.matched + 1, ..s }
    } else {
        ScanState { matched: 0, ..s }
    }
}

/// The scanner run over a whole byte sequence.
pub open spec fn scan_run(bytes: Seq<u8>) -> ScanState
    decreases bytes.len(),
{
    if bytes.len() == 0 {
        scan_init()
    } else {
        scan_step(scan_run(bytes.drop_last()), bytes.last())
    }
}

/// Once the scanner is done, further bytes change nothing.
proof fn lemma_scan_done_stable(bytes: Seq<u8>, i: int)
    requires
        0 <= i <= bytes.len(),
        scan_run(bytes.take(i)).done,
    ensures
        scan_run(bytes) == scan_run(bytes.take(i)),
    decreases bytes.len() - i,
{
    if i < bytes.len() {
        assert(bytes.take(i + 1).drop_last() =~= bytes.take(i));
        assert(bytes.take(i + 1).last() == bytes[i]);
        lemma_scan_done_stable(bytes, i + 1);
    } else {
        assert(bytes.take(i) =~= bytes);
    }
}

/// What the scan of a page yields: the collected identifier when it has
/// exactly 24 bytes, starts `UU` and is ASCII; nothing otherwise.
pub open spec fn spec_playlist_id(bytes: Seq<u8>) -> Option<Seq<u8>> {
    let buf = scan_run(bytes).buf;
    if buf.len() == 24 && buf[0] == 85 && buf[1] == 85 && (forall|i: int|
        0 <= i < buf.len() ==> buf[i] < 128) {
        Some(buf)
    } else {
        None
    }
}

/// The byte of the marker still expected at match position `i`.
fn marker_byte_at(i: usize) -> (r: u8)
    requires
        i < 11,
    ensures
        r == marker_bytes()[i as int],
{
    match i {
        0 => 99,
        1 => 104,
        2 => 97,
        3 => 110,
        4 => 110,
        5 => 101,
        6 => 108,
        7 => 95,
        8 => 105,
        9 => 100,
        _ => 61,
    }
}

/// Scans a fetched channel page for the feed's upload-list identifier, as
/// described at the top of this module. `channel_uri` is the address the
/// page came from; a page that yields no acceptable identifier is reported
/// as unparsable under that address.
pub fn parse_channel_playlist_id(bytes: &[u8], channel_uri: String) -> (r: Result<
    String,
    PlaylistIdError,
>)
    ensures
        spec_playlist_id(bytes@) is Some ==> r is Ok && r->Ok_0@ == spec_playlist_id(
            bytes@,
        )->Some_0.map(|_i: int, b: u8| b as char),
        spec_playlist_id(bytes@) is None ==> r is Err && r->Err_0 == PlaylistIdError::BodyParse(
            channel_uri,
        ),
{
    let n = bytes.len();
    let mut i: usize = 0;
    let mut matched: usize = 0;
    let mut buf: Vec<u8> = Vec::new();
    while i < n
        invariant_except_break
            i <= n,
            n == bytes@.len(),
            bytes@.take(n as int) =~= bytes@,
            matched <= 11,
            scan_run(bytes@.take(i as int)) == (ScanState {
                matched: matched as nat,
                buf: buf@,
                done: false,
            }),
        ensures
            scan_run(bytes@).buf == buf@,
        decreases n - i,
    {
        let byte = bytes[i];
        proof {
            assert(bytes@.take(i + 1).drop_last() =~= bytes@.take(i as int));
            assert(bytes@.take(i + 1).last() == bytes@[i as int]);
        }
        if matched >= 11 {
            if byte == 34 {
                if buf.len() != 0 {
                    proof {
                        lemma_scan_done_stable(bytes@, i + 1);
                    }
                    break ;
                }
            } else if buf.len() == 1 && byte == 67 {
                buf.push(85);
            } else {
                buf.push(byte);
            }
        } else if byte == marker_byte_at(matched) {
            matched = matched + 1;
        } else {
            matched = 0;
        }
        i = i + 1;
    }
    let ok_shape = buf.len() == 24 && {
        let b0 = buf[0];
        let b1 = buf[1];
        b0 == 85 && b1 == 85
    };
    if !ok_shape {
        return Err(PlaylistIdError::BodyParse(channel_uri));
    }
    let mut k: usize = 0;
    while k < buf.len()
        invariant
            k <= buf@.len(),
            scan_run(bytes@).buf == buf@,
            buf@.len() == 24,
            buf@[0] == 85,
            buf@[1] == 85,
            forall|j: int| 0 <= j < k ==> buf@[j] < 128,
        decreases buf@.len() - k,
    {
        if buf[k] >= 128 {
            return Err(PlaylistIdError::BodyParse(channel_uri));
        }
        k = k + 1;
    }
    Ok(ascii_string(buf))
}

} // verus!
