//! Byte encodings of curve points as they appear in session results.

use vstd::prelude::*;

verus! {

/// Length in bytes of an x-only point coordinate and of a scalar.
pub const X_ONLY_LEN: usize = 32;

/// Length in bytes of a compressed point: one prefix byte, then the x coordinate.
pub const COMPRESSED_LEN: usize = 33;

/// The x-only coordinate that a point encoding stands for, where it has one:
/// a 32-byte encoding is taken as it is, a 33-byte encoding loses its prefix
/// byte, and no other length is an encoding.
pub open spec fn spec_x_only(bytes: Seq<u8>) -> Option<Seq<u8>> {
    if bytes.len() == COMPRESSED_LEN {
        Some(bytes.subrange(1, COMPRESSED_LEN as int))
    } else if bytes.len() == X_ONLY_LEN {
        Some(bytes)
    } else {
        None
    }
}

/// A failure to normalize a point encoding: the encoding had a length that is
/// neither 32 nor 33 bytes.
#[derive(Debug, Clone, Copy, PartialEq, Eq)]
pub struct UnexpectedLength {
    /// The offending length in bytes.
    pub len: usize,
}

/// Reduces a point encoding to its 32-byte x-only coordinate.
pub fn x_only(bytes: &[u8]) -> (r: Result<Vec<u8>, UnexpectedLength>)
    ensures
        match r {
            Ok(x) => spec_x_only(bytes@) == Some(x@),
            Err(e) => spec_x_only(bytes@).is_none() && e.len == bytes@.len(),
        },
{
    let n: usize = bytes.len();
    if n == COMPRESSED_LEN {
        Ok(copy_range(bytes, 1, COMPRESSED_LEN))
    } else if n == X_ONLY_LEN {
        let x = copy_range(bytes, 0, X_ONLY_LEN);
        assert(bytes@.subrange(0, X_ONLY_LEN as int) =~= bytes@);
        Ok(x)
    } else {
        Err(UnexpectedLength { len: n })
    }
}

/// A compressed point, of one prefix byte and 32 bytes after it, reduces to
/// those 32 bytes, whatever the prefix; an x-only point of 32 bytes reduces
/// to itself; bytes of any other length reduce to nothing. What a point
/// reduces to has 32 bytes.
pub proof fn lemma_x_only(bytes: Seq<u8>)
    ensures
        bytes.len() == COMPRESSED_LEN ==> spec_x_only(bytes) == Some(bytes.skip(1)),
        bytes.len() == X_ONLY_LEN ==> spec_x_only(bytes) == Some(bytes),
        bytes.len() != COMPRESSED_LEN && bytes.len() != X_ONLY_LEN ==> spec_x_only(bytes).is_none(),
        spec_x_only(bytes) matches Some(x) ==> x.len() == X_ONLY_LEN,
{
    if bytes.len() == COMPRESSED_LEN {
        assert(bytes.subrange(1, COMPRESSED_LEN as int) =~= bytes.skip(1));
    }
}

/// Copies the bytes at positions `from..to` into a vector of their own.
pub fn copy_range(bytes: &[u8], from: usize, to: usize) -> (out: Vec<u8>)
    requires
        from <= to <= bytes@.len(),
    ensures
        out@ == bytes@.subrange(from as int, to as int),
{
    let mut out: Vec<u8> = Vec::with_capacity(to - from);
    let mut i: usize = from;
    while i < to
        invariant
            from <= i <= to <= bytes@.len(),
            out@ == bytes@.subrange(from as int, i as int),
        decreases to - i,
    {
        out.push(bytes[i]);
        i += 1;
    }
    out
}

} // verus!
