//! Strings as the runtime exchanges them: bytes that end at the first NUL.

use vstd::prelude::*;
use vstd::utf8::{decode_utf8, valid_utf8};

verus! {

/// Whether no byte of `s` is NUL.
pub open spec fn nul_free(s: Seq<u8>) -> bool {
    forall|i: int| 0 <= i < s.len() ==> s[i] != 0
}

/// Whether the string in `buf` ends at `k`: no byte before `k` is NUL, and `k`
/// is the place of a NUL or, where `buf` holds none, the end of `buf`.
pub open spec fn ends_at(buf: Seq<u8>, k: int) -> bool {
    &&& 0 <= k <= buf.len()
    &&& nul_free(buf.take(k))
    &&& k < buf.len() ==> buf[k] == 0
}

/// Where the string in `buf` ends: see `lemma_nul_index`.
pub open spec fn nul_index(buf: Seq<u8>) -> int
    decreases buf.len(),
{
    if buf.len() == 0 || buf[0] == 0 {
        0
    } else {
        1 + nul_index(buf.drop_first())
    }
}

/// The string that `buf` holds: its bytes before the first NUL, and all of
/// them where it holds none.
pub open spec fn before_nul(buf: Seq<u8>) -> Seq<u8> {
    buf.take(nul_index(buf))
}

/// Whether `data` is a string with its terminator and nothing else: its last
/// byte is its only NUL.
pub open spec fn nul_terminated(data: Seq<u8>) -> bool {
    data.len() > 0 && data.last() == 0 && nul_free(data.drop_last())
}

/// The string in `buf` ends at `nul_index(buf)`.
pub proof fn lemma_nul_index(buf: Seq<u8>)
    ensures
        ends_at(buf, nul_index(buf)),
    decreases buf.len(),
{
    if buf.len() == 0 || buf[0] == 0 {
    } else {
        let rest = buf.drop_first();
        lemma_nul_index(rest);
        let k = nul_index(buf);
        assert forall|i: int| 0 <= i < k implies buf.take(k)[i] != 0 by {
            if i > 0 {
                assert(rest.take(k - 1)[i - 1] != 0);
            }
        }
    }
}

/// The string in `buf` ends at one place only.
pub proof fn lemma_ends_at_unique(buf: Seq<u8>, k: int)
    requires
        ends_at(buf, k),
    ensures
        k == nul_index(buf),
{
    lemma_nul_index(buf);
    let n = nul_index(buf);
    if k < n {
        assert(buf.take(n)[k] != 0);
    } else if n < k {
        assert(buf.take(k)[n] != 0);
    }
}

/// The length of the string that `buf` holds.
fn string_len(buf: &[u8]) -> (k: usize)
    ensures
        k == nul_index(buf@),
        ends_at(buf@, k as int),
{
    let mut k: usize = 0;
    while k < buf.len() && buf[k] != 0
        invariant
            k <= buf@.len(),
            nul_free(buf@.take(k as int)),
        decreases buf@.len() - k,
    {
        k += 1;
        assert forall|i: int| 0 <= i < k implies buf@.take(k as int)[i] != 0 by {
            if i < k - 1 {
                assert(buf@.take(k - 1)[i] != 0);
            }
        }
    }
    proof {
        lemma_ends_at_unique(buf@, k as int);
    }
    k
}

/// Copies the string that `buf` holds, without its terminator.
pub fn read_string(buf: &[u8]) -> (s: Vec<u8>)
    ensures
        s@ == before_nul(buf@),
{
    let k = string_len(buf);
    vstd::slice::slice_to_vec(&buf[0..k])
}

/// Appends the terminator to `bytes`, so that the runtime can read them as a
/// string. It gives `None` where `bytes` holds a NUL: the runtime would
/// read a shorter string.
pub fn with_nul(bytes: &[u8]) -> (r: Option<Vec<u8>>)
    ensures
        r is Some <==> nul_free(bytes@),
        r matches Some(v) ==> v@ == bytes@.push(0),
{
    let k = string_len(bytes);
    if k < bytes.len() {
        None
    } else {
        assert(bytes@.take(k as int) =~= bytes@);
        let mut v = vstd::slice::slice_to_vec(bytes);
        v.push(0);
        Some(v)
    }
}

/// Whether `data` is a string with its terminator and nothing else.
pub fn is_nul_terminated(data: &[u8]) -> (b: bool)
    ensures
        b == nul_terminated(data@),
{
    let k = string_len(data);
    proof {
        if nul_terminated(data@) {
            let last = data@.len() - 1;
            assert(data@.take(last) =~= data@.drop_last());
            lemma_ends_at_unique(data@, last);
        }
        if k + 1 == data@.len() {
            assert(data@.take(k as int) =~= data@.drop_last());
        }
    }
    k < data.len() && k + 1 == data.len()
}

/// `String::from_utf8`: the string that `bytes` encode where they are
/// well-formed UTF-8, and nothing where they are not.
#[verifier::external_body]
pub(crate) fn string_from_utf8(bytes: Vec<u8>) -> (r: Option<String>)
    ensures
        r is Some <==> valid_utf8(bytes@),
        r matches Some(s) ==> s@ == decode_utf8(bytes@),
{
    String::from_utf8(bytes).ok()
}

/// Decodes the string that `buf` holds. It gives `None` where the bytes
/// before the first NUL are not well-formed UTF-8.
pub fn read_utf8(buf: &[u8]) -> (r: Option<String>)
    ensures
        r is Some <==> valid_utf8(before_nul(buf@)),
        r matches Some(s) ==> s@ == decode_utf8(before_nul(buf@)),
{
    string_from_utf8(read_string(buf))
}

} // verus!
