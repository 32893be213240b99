//! The savestate container: the machine's encoded state behind a 32-bit
//! little-endian length prefix, so that a buffer larger than the state can
//! be read back.

use vstd::prelude::*;
use vstd::bytes::{
    lemma_auto_spec_u32_to_from_le_bytes, spec_u32_from_le_bytes, spec_u32_to_le_bytes,
    u32_from_le_bytes, u32_to_le_bytes,
};

use crate::error::Error;

verus! {

/// Bytes taken by the length prefix.
pub const PREFIX_LEN: usize = 4;

/// Headroom added to the probed size, since the encoded state may vary a
/// little in size from one state to the next.
pub const SAVESTATE_MARGIN: usize = 1024;

/// Largest encoded state the prefix can describe.
pub const MAX_STATE_LEN: usize = 0xffff_ffff;

/// The container of an encoded state.
pub open spec fn framed(state: Seq<u8>) -> Seq<u8> {
    spec_u32_to_le_bytes(state.len() as u32) + state
}

/// The size advertised for savestates of an encoded state of `state_len`
/// bytes: the container's length plus the headroom; `None` when the state is
/// too long to be framed or the size does not fit in memory.
pub open spec fn max_length_of(state_len: int) -> Option<int> {
    if state_len <= MAX_STATE_LEN && PREFIX_LEN + state_len + SAVESTATE_MARGIN <= usize::MAX {
        Some(PREFIX_LEN + state_len + SAVESTATE_MARGIN)
    } else {
        None
    }
}

/// What a buffer decodes to: the state that its prefix delimits, or `None`
/// when the buffer is shorter than the prefix says.
pub open spec fn unframed(buf: Seq<u8>) -> Option<Seq<u8>> {
    if buf.len() < PREFIX_LEN {
        None
    } else {
        let n = spec_u32_from_le_bytes(buf.take(PREFIX_LEN as int)) as int;
        if n <= buf.len() - PREFIX_LEN {
            Some(buf.subrange(PREFIX_LEN as int, PREFIX_LEN + n))
        } else {
            None
        }
    }
}

/// The size to advertise for savestates, from the length of the state as
/// encoded once at session start. Fails with `EncodeError` when no container
/// can hold a state of that length.
pub fn savestate_max_length(state_len: usize) -> (r: Result<usize, Error>)
    ensures
        r is Ok <==> max_length_of(state_len as int) is Some,
        r matches Ok(n) ==> Some(n as int) == max_length_of(state_len as int),
        r matches Err(e) ==> e == Error::EncodeError,
{
    if state_len > MAX_STATE_LEN || state_len > usize::MAX - PREFIX_LEN - SAVESTATE_MARGIN {
        return Err(Error::EncodeError);
    }
    Ok(PREFIX_LEN + state_len + SAVESTATE_MARGIN)
}

/// Writes the container of `state` at the start of `buf`; the bytes after it
/// are left as they were. Fails with `EncodeError`, leaving `buf` untouched,
/// when the state is too long to be framed or the container does not fit.
pub fn write_frame(state: &Vec<u8>, buf: &mut Vec<u8>) -> (r: Result<(), Error>)
    ensures
        r is Ok <==> (state@.len() <= MAX_STATE_LEN && PREFIX_LEN + state@.len() <= old(
            buf,
        )@.len()),
        r is Ok ==> final(buf)@ == framed(state@) + old(buf)@.skip(PREFIX_LEN + state@.len()),
        r is Err ==> final(buf)@ == old(buf)@,
        r matches Err(e) ==> e == Error::EncodeError,
{
    if state.len() > MAX_STATE_LEN || state.len() > buf.len() || buf.len() - state.len()
        < PREFIX_LEN {
        return Err(Error::EncodeError);
    }
    let prefix = u32_to_le_bytes(state.len() as u32);
    let ghost old_buf = buf@;
    let mut i: usize = 0;
    while i < PREFIX_LEN
        invariant
            prefix@ == spec_u32_to_le_bytes(state@.len() as u32),
            prefix@.len() == PREFIX_LEN,
            i <= PREFIX_LEN,
            buf@.len() == old_buf.len(),
            old_buf.len() <= usize::MAX,
            state@.len() <= MAX_STATE_LEN,
            PREFIX_LEN + state@.len() <= old_buf.len(),
            forall|j: int| 0 <= j < i ==> #[trigger] buf@[j] == prefix@[j],
            forall|j: int| i <= j < old_buf.len() ==> #[trigger] buf@[j] == old_buf[j],
        decreases PREFIX_LEN - i,
    {
        buf.set(i, prefix[i]);
        i += 1;
    }
    let mut k: usize = 0;
    while k < state.len()
        invariant
            prefix@ == spec_u32_to_le_bytes(state@.len() as u32),
            prefix@.len() == PREFIX_LEN,
            k <= state@.len(),
            buf@.len() == old_buf.len(),
            old_buf.len() <= usize::MAX,
            state@.len() <= MAX_STATE_LEN,
            PREFIX_LEN + state@.len() <= old_buf.len(),
            forall|j: int| 0 <= j < PREFIX_LEN ==> #[trigger] buf@[j] == prefix@[j],
            forall|j: int| 0 <= j < k ==> #[trigger] buf@[PREFIX_LEN + j] == state@[j],
            forall|j: int| PREFIX_LEN + k <= j < old_buf.len() ==> #[trigger] buf@[j] == old_buf[j],
        decreases state.len() - k,
    {
        buf.set(PREFIX_LEN + k, state[k]);
        k += 1;
    }
    assert(buf@ =~= framed(state@) + old_buf.skip(PREFIX_LEN + state@.len())) by {
        assert forall|j: int| 0 <= j < buf@.len() implies #[trigger] buf@[j] == (framed(state@)
            + old_buf.skip(PREFIX_LEN + state@.len()))[j] by {
            if PREFIX_LEN <= j < PREFIX_LEN + state@.len() {
                assert(buf@[PREFIX_LEN + (j - PREFIX_LEN)] == state@[j - PREFIX_LEN]);
            }
        }
    }
    Ok(())
}

/// Reads back the state held in a savestate buffer. Fails with
/// `DecodeError` when the buffer is shorter than its prefix says.
pub fn read_frame(buf: &Vec<u8>) -> (r: Result<Vec<u8>, Error>)
    ensures
        r is Ok <==> unframed(buf@) is Some,
        r matches Ok(s) ==> Some(s@) == unframed(buf@),
        r matches Err(e) ==> e == Error::DecodeError,
{
    if buf.len() < PREFIX_LEN {
        return Err(Error::DecodeError);
    }
    let mut prefix: Vec<u8> = Vec::new();
    let mut i: usize = 0;
    while i < PREFIX_LEN
        invariant
            i <= PREFIX_LEN,
            PREFIX_LEN <= buf@.len(),
            prefix@ == buf@.take(i as int),
        decreases PREFIX_LEN - i,
    {
        prefix.push(buf[i]);
        i += 1;
        assert(prefix@ =~= buf@.take(i as int));
    }
    let n = u32_from_le_bytes(prefix.as_slice()) as usize;
    if n > buf.len() - PREFIX_LEN {
        return Err(Error::DecodeError);
    }
    let mut state: Vec<u8> = Vec::new();
    let mut k: usize = 0;
    while k < n
        invariant
            k <= n,
            PREFIX_LEN + n <= buf@.len(),
            buf@.len() <= usize::MAX,
            state@ == buf@.subrange(PREFIX_LEN as int, PREFIX_LEN + k),
        decreases n - k,
    {
        state.push(buf[PREFIX_LEN + k]);
        k += 1;
        assert(state@ =~= buf@.subrange(PREFIX_LEN as int, PREFIX_LEN + k));
    }
    Ok(state)
}

/// A container written for a state reads back as that very state, whatever
/// bytes follow it in the buffer.
pub proof fn lemma_frame_round_trip(state: Seq<u8>, rest: Seq<u8>)
    requires
        state.len() <= MAX_STATE_LEN,
    ensures
        unframed(framed(state) + rest) == Some(state),
{
    lemma_auto_spec_u32_to_from_le_bytes();
    let buf = framed(state) + rest;
    let prefix = spec_u32_to_le_bytes(state.len() as u32);
    assert(buf.take(PREFIX_LEN as int) =~= prefix);
    assert(buf.subrange(PREFIX_LEN as int, PREFIX_LEN + state.len()) =~= state);
}

/// A buffer of the advertised size always has room for the container.
pub proof fn lemma_max_length_fits(state_len: int, buf_len: int)
    requires
        0 <= state_len,
        max_length_of(state_len) matches Some(n) && n <= buf_len,
    ensures
        state_len <= MAX_STATE_LEN,
        PREFIX_LEN + state_len <= buf_len,
{
}

} // verus!
