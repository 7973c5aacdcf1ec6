//! Marshalling of text into transient native string buffers.
//!
//! The native middleware takes names — a topic name, each partition name —
//! as NUL-terminated byte buffers that live only for the duration of one
//! call. The byte contents of those buffers are computed and checked here:
//! the UTF-8 bytes of the text followed by one terminating zero, valid only
//! when the text itself contains no zero byte. Handing the buffers to the
//! native call, and freeing them on every exit path, is the caller's side
//! of the bargain.

use vstd::prelude::*;
use vstd::string::*;
use vstd::utf8::encode_utf8;

verus! {

/// The NUL-terminated buffer for one name: the UTF-8 bytes of `s` followed
/// by a single zero byte. `None` exactly when `s` itself contains a zero
/// byte, which no native string can carry.
pub fn marshal_name(s: &str) -> (r: Option<Vec<u8>>)
    ensures
        (match r {
            Some(buf) => buf@ == encode_utf8(s@).push(0u8) && !encode_utf8(s@).contains(0u8),
            None => encode_utf8(s@).contains(0u8),
        }),
{
    let bytes = s.as_bytes_vec();
    let n = bytes.len();
    let mut i: usize = 0;
    while i < n
        invariant
            n == bytes@.len(),
            bytes@ == encode_utf8(s@),
            i <= n,
            forall|j: int| 0 <= j < i ==> bytes@[j] != 0,
        decreases n - i,
    {
        if bytes[i] == 0 {
            proof {
                assert(encode_utf8(s@).contains(0u8));
            }
            return None;
        }
        i = i + 1;
    }
    proof {
        assert(!encode_utf8(s@).contains(0u8));
    }
    let mut buf = bytes;
    buf.push(0);
    Some(buf)
}

/// The NUL-terminated buffers for a whole partition-name list: one buffer
/// per name, in the order given, so the native call observes exactly the
/// input entries. `None` exactly when some name contains a zero byte.
pub fn marshal_names(ps: &[String]) -> (r: Option<Vec<Vec<u8>>>)
    ensures
        (match r {
            Some(bufs) => bufs@.len() == ps@.len() && forall|i: int|
                0 <= i < ps@.len() ==> bufs@[i]@ == encode_utf8(ps@[i]@).push(0u8),
            None => exists|i: int| 0 <= i < ps@.len() && encode_utf8(ps@[i]@).contains(0u8),
        }),
{
    let mut bufs: Vec<Vec<u8>> = Vec::new();
    let n = ps.len();
    let mut i: usize = 0;
    while i < n
        invariant
            n == ps@.len(),
            i <= n,
            bufs@.len() == i,
            forall|j: int| 0 <= j < i ==> bufs@[j]@ == encode_utf8(ps@[j]@).push(0u8),
        decreases n - i,
    {
        match marshal_name(vstd::slice::slice_index_get(ps, i).as_str()) {
            Some(buf) => bufs.push(buf),
            None => {
                return None;
            },
        }
        i = i + 1;
    }
    Some(bufs)
}

} // verus!
