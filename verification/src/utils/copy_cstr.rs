use vstd::prelude::*;

verus! {

/// How many bytes of a `src_len`-byte string fit, with a terminator, in a
/// buffer of `dst_len` bytes.
pub open spec fn copied_len(dst_len: nat, src_len: nat) -> nat {
    if src_len < dst_len - 1 {
        src_len
    } else {
        (dst_len - 1) as nat
    }
}

/// Copy a UTF-8 byte slice into a null-terminated C string buffer (of C `char`s).
///
/// Writes at most `dst.len() - 1` bytes from `src`, then a null terminator.
/// Always null-terminates `dst`, even if `src` is longer than the buffer; the
/// bytes after the terminator are left as they were.
pub fn copy_cstr(dst: &mut [i8], src: &[u8])
    requires
        old(dst)@.len() >= 1,
    ensures
        final(dst)@.len() == old(dst)@.len(),
        ({
            let n = copied_len(old(dst)@.len(), src@.len()) as int;
            &&& forall|i: int| 0 <= i < n ==> final(dst)@[i] == src@[i] as i8
            &&& final(dst)@[n] == 0
            &&& forall|i: int| n < i < old(dst)@.len() ==> final(dst)@[i] == old(dst)@[i]
        }),
{
    let len = if src.len() < dst.len() - 1 {
        src.len()
    } else {
        dst.len() - 1
    };
    let mut i: usize = 0;
    while i < len
        invariant
            len == copied_len(old(dst)@.len(), src@.len()),
            len < dst@.len(),
            len <= src@.len(),
            dst@.len() == old(dst)@.len(),
            0 <= i <= len,
            forall|j: int| 0 <= j < i ==> dst@[j] == src@[j] as i8,
            forall|j: int| i <= j < old(dst)@.len() ==> dst@[j] == old(dst)@[j],
        decreases len - i,
    {
        dst[i] = src[i] as i8;
        i = i + 1;
    }
    dst[len] = 0;
}

} // verus!
