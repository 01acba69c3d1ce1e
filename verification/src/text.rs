//! Text carried by events: NUL-terminated C text and its decoding as UTF-8.

use vstd::prelude::*;
use vstd::utf8::decode_utf8;
use vstd::utf8::valid_utf8;

use crate::raw::RawEvent;
use crate::raw::RAW_EVENT_SIZE;

verus! {

/// The position of the first NUL byte of `s` at or after `from`, or the length of `s` when
/// there is none.
pub open spec fn nul_position(s: Seq<u8>, from: int) -> int
    decreases s.len() - from,
{
    if 0 <= from < s.len() && s[from] != 0 {
        nul_position(s, from + 1)
    } else {
        from
    }
}

/// The bytes of `s` before its first NUL byte (all of `s` when it holds none).
pub open spec fn c_string(s: Seq<u8>) -> Seq<u8> {
    s.take(nul_position(s, 0))
}

/// The characters that `String::from_utf8_lossy` makes of `bytes`.
pub uninterp spec fn utf8_lossy(bytes: Seq<u8>) -> Seq<char>;

/// Calls `String::from_utf8`. Its documentation: the result is an error exactly when the
/// bytes are not valid UTF-8, and otherwise holds the characters they encode. The contract
/// states this over vstd's definition of UTF-8.
#[verifier::external_body]
pub(crate) fn string_from_utf8(bytes: Vec<u8>) -> (r: Option<String>)
    ensures
        r is Some <==> valid_utf8(bytes@),
        r matches Some(s) ==> s@ == decode_utf8(bytes@),
{
    String::from_utf8(bytes).ok()
}

/// Calls `String::from_utf8_lossy` and makes the result an owned `String`. The contract
/// names the result `utf8_lossy(bytes)` and states the one fact that the documentation
/// gives of it: valid UTF-8 is decoded as it stands. How invalid sequences are replaced is
/// left unsaid.
#[verifier::external_body]
pub(crate) fn string_from_utf8_lossy(bytes: &[u8]) -> (r: String)
    ensures
        r@ == utf8_lossy(bytes@),
        valid_utf8(bytes@) ==> r@ == decode_utf8(bytes@),
{
    String::from_utf8_lossy(bytes).to_string()
}

/// The bytes of the raw event from `off` on, up to its first NUL byte, at most `len`.
pub(crate) fn c_string_at(raw: &RawEvent, off: usize, len: usize) -> (r: Vec<u8>)
    requires
        off + len <= RAW_EVENT_SIZE,
    ensures
        r@ == c_string(raw@.bytes.subrange(off as int, off + len)),
{
    raw.reveal_size();
    let ghost s = raw@.bytes.subrange(off as int, off + len);
    let mut out: Vec<u8> = Vec::new();
    let mut i: usize = 0;
    while i < len
        invariant
            off + len <= RAW_EVENT_SIZE,
            raw@.bytes.len() == RAW_EVENT_SIZE,
            s == raw@.bytes.subrange(off as int, off + len),
            i <= len,
            out@ == s.take(i as int),
            nul_position(s, i as int) == nul_position(s, 0),
        ensures
            out@ == c_string(s),
        decreases len - i,
    {
        let b = raw.get_u8(off + i);
        assert(b == s[i as int]);
        if b == 0 {
            break;
        }
        out.push(b);
        i = i + 1;
        assert(out@ =~= s.take(i as int));
    }
    out
}

} // verus!
