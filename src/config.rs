use vstd::prelude::*;

use crate::types::{Error, CONFIG_DATA_LEN};

verus! {

/// Whether a config response of `size` bytes fits both the data block and `out_len`.
pub open spec fn response_fits(size: u8, out_len: nat) -> bool {
    size as nat <= CONFIG_DATA_LEN && size as nat <= out_len
}

/// What copying a config response of `size` bytes from `data` does to an
/// output buffer that held `before` and then holds `after`, with result `r`.
pub open spec fn copied(size: u8, data: Seq<u8>, before: Seq<u8>, after: Seq<u8>, r: Result<u8, Error>) -> bool {
    &&& size as nat > CONFIG_DATA_LEN ==> r == Err::<u8, Error>(Error::InvalidParam)
    &&& size as nat <= CONFIG_DATA_LEN && size as nat > before.len() ==> r == Err::<u8, Error>(
        Error::BufferTooSmall,
    )
    &&& response_fits(size, before.len()) ==> r == Ok::<u8, Error>(size)
    &&& r.is_err() ==> after == before
    &&& r.is_ok() ==> after == data.subrange(0, size as int) + before.subrange(
        size as int,
        before.len() as int,
    )
}

/// Copies the first `size` bytes of a config response's data block into `out`.
///
/// A size beyond the data block is refused with `InvalidParam`, a size beyond
/// `out` with `BufferTooSmall`; in both cases `out` is left as it was. On
/// success the first `size` bytes of `out` equal those of `data`, the rest of
/// `out` is untouched, and `size` is returned.
pub fn copy_config_response(size: u8, data: &[u8; CONFIG_DATA_LEN], out: &mut [u8]) -> (r: Result<u8, Error>)
    ensures
        copied(size, data@, old(out)@, final(out)@, r),
{
    if size as usize > CONFIG_DATA_LEN {
        return Err(Error::InvalidParam);
    }
    if size as usize > out.len() {
        return Err(Error::BufferTooSmall);
    }
    let n: usize = size as usize;
    let mut i: usize = 0;
    while i < n
        invariant
            n == size as usize,
            n <= CONFIG_DATA_LEN,
            n <= out@.len(),
            0 <= i <= n,
            out@.len() == old(out)@.len(),
            forall|k: int| 0 <= k < i ==> out@[k] == data@[k],
            forall|k: int| i <= k < out@.len() ==> out@[k] == old(out)@[k],
        decreases n - i,
    {
        out[i] = data[i];
        i = i + 1;
    }
    assert(out@ =~= data@.subrange(0, size as int) + old(out)@.subrange(size as int, old(out)@.len() as int));
    Ok(size)
}

} // verus!
