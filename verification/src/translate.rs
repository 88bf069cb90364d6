//! Marshaling of simple values across the native boundary: boolean flags
//! that travel as integers, and text that travels as NUL-terminated bytes.

use vstd::prelude::*;
use vstd::utf8::*;

verus! {

/// The native integer that stands for "false".
pub const GFALSE: i32 = 0;

/// The native integer that the host writes for "true".
pub const GTRUE: i32 = 1;

/// The native encoding of a host boolean.
pub open spec fn native_flag(flag: bool) -> int {
    if flag {
        1
    } else {
        0
    }
}

/// The host reading of a native integer flag: everything but zero is true.
pub open spec fn host_flag(native: int) -> bool {
    native != 0
}

/// Encodes a host boolean as the native integer flag.
pub fn into_glib(flag: bool) -> (native: i32)
    ensures
        native == native_flag(flag),
{
    if flag {
        GTRUE
    } else {
        GFALSE
    }
}

/// Decodes a native integer flag into a host boolean.
pub fn from_glib(native: i32) -> (flag: bool)
    ensures
        flag == host_flag(native as int),
{
    native != GFALSE
}

/// A boolean survives the trip to the native side and back.
pub proof fn lemma_flag_round_trip(flag: bool)
    ensures
        host_flag(native_flag(flag)) == flag,
{
}

/// Whatever integer the native side hands over, the host holds exactly one
/// of two states, and writes it back as 0 or 1; the integer itself comes
/// back only if it was 0 or 1 to begin with.
pub proof fn lemma_flag_is_two_state(native: int)
    ensures
        native_flag(host_flag(native)) == 0 || native_flag(host_flag(native)) == 1,
        native_flag(host_flag(native)) == native <==> (native == 0 || native == 1),
{
}

/// What a signal handler returns to say whether the default handler
/// is to be skipped.
#[derive(Clone, Copy, Debug, PartialEq, Eq, Structural)]
pub struct Inhibit(pub bool);

impl Inhibit {
    /// The native flag that the trampoline hands back to the dispatcher.
    pub fn into_glib(self) -> (native: i32)
        ensures
            native == native_flag(self.0),
    {
        into_glib(self.0)
    }
}

/// Whether two byte strings hold the same bytes.
pub fn same_bytes(a: &[u8], b: &[u8]) -> (same: bool)
    ensures
        same == (a@ == b@),
{
    if a.len() != b.len() {
        return false;
    }
    let mut i: usize = 0;
    while i < a.len()
        invariant
            i <= a.len(),
            a.len() == b.len(),
            forall|j: int| 0 <= j < i ==> a@[j] == b@[j],
        decreases a.len() - i,
    {
        if a[i] != b[i] {
            return false;
        }
        i += 1;
    }
    assert(a@ =~= b@);
    true
}

/// Whether two host strings hold the same text.
pub fn same_text(a: &str, b: &str) -> (same: bool)
    ensures
        same == (a@ == b@),
{
    proof {
        encode_utf8_decode_utf8(a@);
        encode_utf8_decode_utf8(b@);
    }
    same_bytes(a.as_bytes(), b.as_bytes())
}

/// The position of the first NUL byte in `buf`, or its length if it
/// holds none: the length that a native reader sees.
pub open spec fn nul_position(buf: Seq<u8>) -> nat
    decreases buf.len(),
{
    if buf.len() == 0 || buf[0] == 0 {
        0
    } else {
        1 + nul_position(buf.drop_first())
    }
}

/// The text that a native reader takes from `buf`: the bytes before the
/// first NUL.
pub open spec fn c_text(buf: Seq<u8>) -> Seq<u8> {
    buf.take(nul_position(buf) as int)
}

/// The native form of `text`: its bytes and a closing NUL.
pub open spec fn c_string(text: Seq<u8>) -> Seq<u8> {
    text.push(0)
}

/// `nul_position` is the least index that holds a NUL, bounded by the length.
pub proof fn lemma_nul_position(buf: Seq<u8>)
    ensures
        nul_position(buf) <= buf.len(),
        forall|i: int| 0 <= i < nul_position(buf) ==> buf[i] != 0,
        nul_position(buf) < buf.len() ==> buf[nul_position(buf) as int] == 0,
        nul_position(buf) == buf.len() <==> !buf.contains(0),
    decreases buf.len(),
{
    if buf.len() == 0 || buf[0] == 0 {
    } else {
        let rest = buf.drop_first();
        lemma_nul_position(rest);
        assert forall|i: int| 0 <= i < nul_position(buf) implies buf[i] != 0 by {
            if i > 0 {
                assert(buf[i] == rest[i - 1]);
            }
        }
        if nul_position(buf) < buf.len() {
            assert(buf[nul_position(buf) as int] == rest[nul_position(rest) as int]);
        }
        if rest.contains(0) {
            let j = choose|j: int| 0 <= j < rest.len() && rest[j] == 0;
            assert(buf[j + 1] == 0);
        }
        if buf.contains(0) {
            let j = choose|j: int| 0 <= j < buf.len() && buf[j] == 0;
            assert(rest[j - 1] == 0);
        }
    }
}

/// An index that holds a NUL and has none before it is the NUL position.
pub proof fn lemma_nul_position_is(buf: Seq<u8>, at: int)
    requires
        0 <= at <= buf.len(),
        forall|i: int| 0 <= i < at ==> buf[i] != 0,
        at < buf.len() ==> buf[at] == 0,
    ensures
        nul_position(buf) == at,
{
    lemma_nul_position(buf);
    let p = nul_position(buf) as int;
    if p < at {
        assert(buf[p] == 0);
    } else if at < p {
        assert(buf[at] == 0);
    }
}

/// Length of the text in a native buffer: the bytes before the first NUL,
/// and never more than the buffer holds.
pub fn c_str_len(buf: &[u8]) -> (len: usize)
    ensures
        len == nul_position(buf@),
{
    let mut i: usize = 0;
    while i < buf.len() && buf[i] != 0
        invariant
            i <= buf.len(),
            forall|j: int| 0 <= j < i ==> buf@[j] != 0,
        decreases buf.len() - i,
    {
        i += 1;
    }
    proof {
        lemma_nul_position_is(buf@, i as int);
    }
    i
}

/// Whether `text` holds a NUL byte, which would cut it short on the
/// native side.
pub fn has_interior_nul(text: &[u8]) -> (found: bool)
    ensures
        found == text@.contains(0),
{
    let len = c_str_len(text);
    proof {
        lemma_nul_position(text@);
    }
    len < text.len()
}

/// Copies `text` into a fresh buffer and closes it with a NUL.
pub fn to_c_string(text: &[u8]) -> (buf: Vec<u8>)
    ensures
        buf@ == c_string(text@),
{
    let mut buf: Vec<u8> = Vec::new();
    let mut i: usize = 0;
    while i < text.len()
        invariant
            i <= text.len(),
            buf@ == text@.take(i as int),
        decreases text.len() - i,
    {
        buf.push(text[i]);
        i += 1;
        assert(buf@ == text@.take(i as int));
    }
    assert(text@.take(text.len() as int) == text@);
    buf.push(0);
    buf
}

/// Copies the text out of a native buffer: the bytes before the first NUL.
pub fn from_c_string(buf: &[u8]) -> (text: Vec<u8>)
    ensures
        text@ == c_text(buf@),
{
    let len = c_str_len(buf);
    proof {
        lemma_nul_position(buf@);
    }
    let mut text: Vec<u8> = Vec::new();
    let mut i: usize = 0;
    while i < len
        invariant
            i <= len <= buf.len(),
            text@ == buf@.take(i as int),
        decreases len - i,
    {
        text.push(buf[i]);
        i += 1;
        assert(text@ == buf@.take(i as int));
    }
    text
}

/// Text sent to the native side reads back as its part before the first
/// NUL: unchanged exactly when it holds no NUL.
pub proof fn lemma_c_string_round_trip(text: Seq<u8>)
    ensures
        c_text(c_string(text)) == c_text(text),
        c_text(c_string(text)) == text <==> !text.contains(0),
{
    lemma_nul_position(text);
    let p = nul_position(text) as int;
    let sent = c_string(text);
    assert forall|i: int| 0 <= i < p implies sent[i] != 0 by {
        assert(sent[i] == text[i]);
    }
    if p < text.len() {
        assert(sent[p] == text[p]);
    }
    lemma_nul_position_is(sent, p);
    assert(sent.take(p) == text.take(p));
    if p == text.len() {
        assert(text.take(p) == text);
    } else {
        assert(c_text(text).len() != text.len());
    }
}

} // verus!
