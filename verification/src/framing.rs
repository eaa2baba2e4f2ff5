//! Frame splitting for the chat transport.
//!
//! Messages on a chat connection are arbitrary byte sequences terminated by
//! the two-byte delimiter: a carriage return followed by a line feed. The
//! receiver accumulates bytes in a buffer; each complete frame is split off,
//! its delimiter stripped, and its payload forwarded.

use vstd::prelude::*;

verus! {

/// First byte of the frame delimiter: carriage return.
pub const DELIMITER_FIRST: u8 = 13;

/// Second byte of the frame delimiter: line feed.
pub const DELIMITER_SECOND: u8 = 10;

/// Whether the two-byte frame delimiter stands at position `i`.
pub open spec fn delimiter_at(s: Seq<u8>, i: int) -> bool {
    &&& 0 <= i
    &&& i + 1 < s.len()
    &&& s[i] == DELIMITER_FIRST
    &&& s[i + 1] == DELIMITER_SECOND
}

/// Finds the position of the first frame delimiter, if the buffer holds one.
pub fn find_delimiter(b: &[u8]) -> (r: Option<usize>)
    ensures
        r matches Some(i) ==> (delimiter_at(b@, i as int) && (forall|k: int|
            0 <= k < i ==> !delimiter_at(b@, k))),
        r is None ==> (forall|k: int| !delimiter_at(b@, k)),
{
    if b.len() < 2 {
        return None;
    }
    let mut i: usize = 0;
    while i < b.len() - 1
        invariant
            b@.len() >= 2,
            i <= b@.len() - 1,
            forall|k: int| 0 <= k < i ==> !delimiter_at(b@, k),
        decreases b@.len() - i,
    {
        if b[i] == DELIMITER_FIRST && b[i + 1] == DELIMITER_SECOND {
            return Some(i);
        }
        i = i + 1;
    }
    None
}

/// Splits the first complete frame off the receive buffer: the payload up to
/// the first delimiter is returned with the delimiter stripped, and the
/// buffer keeps what follows it. Without a complete frame the buffer stays
/// as it is.
pub fn take_frame(buf: &mut Vec<u8>) -> (r: Option<Vec<u8>>)
    ensures
        r is None ==> ((forall|k: int| !delimiter_at(old(buf)@, k)) && final(buf)@ == old(buf)@),
        r matches Some(line) ==> (exists|i: int|
            {
                &&& delimiter_at(old(buf)@, i)
                &&& forall|k: int| 0 <= k < i ==> !delimiter_at(old(buf)@, k)
                &&& line@ == old(buf)@.subrange(0, i)
                &&& final(buf)@ == old(buf)@.subrange(i + 2, old(buf)@.len() as int)
            }),
{
    let found = find_delimiter(buf.as_slice());
    match found {
        Some(i) => {
            proof {
                vstd::std_specs::vec::axiom_spec_len(buf);
            }
            let rest = buf.split_off(i + 2);
            buf.truncate(i);
            let mut line = rest;
            core::mem::swap(buf, &mut line);
            proof {
                assert(old(buf)@.subrange(0, i + 2).subrange(0, i as int) =~= old(
                    buf,
                )@.subrange(0, i as int));
            }
            Some(line)
        },
        None => None,
    }
}

} // verus!
