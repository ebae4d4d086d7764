//! The compute half of output capture and drain: how one read lands in the
//! shared output buffer and becomes a chunk, and how a read call empties the
//! buffer. The capture thread itself — the blocking reads — belongs to the
//! host; it hands the bytes of each read here.

use vstd::prelude::*;

use crate::io::IoChunk;
use crate::io::IoDirection;

verus! {

/// Appends one read's bytes to the output buffer: the new contents are
/// exactly the old contents followed by `data`, in order.
pub fn append_output(buffer: &mut Vec<u8>, data: &[u8])
    ensures
        final(buffer)@ == old(buffer)@ + data@,
{
    let mut i: usize = 0;
    while i < data.len()
        invariant
            i <= data@.len(),
            buffer@ == old(buffer)@ + data@.take(i as int),
        decreases data@.len() - i,
    {
        let byte = data[i];
        proof {
            assert((old(buffer)@ + data@.take(i as int)).push(data@[i as int]) =~= old(
                buffer,
            )@ + data@.take(i as int + 1));
        }
        buffer.push(byte);
        i = i + 1;
    }
    proof {
        assert(data@.take(data@.len() as int) =~= data@);
    }
}

/// Drains the output buffer: returns everything captured so far and leaves
/// the buffer empty, so a second immediate drain returns an empty payload
/// unless more output has arrived in between.
pub fn take_output(buffer: &mut Vec<u8>) -> (r: Vec<u8>)
    ensures
        r@ == old(buffer)@,
        final(buffer)@ == Seq::<u8>::empty(),
{
    let mut taken: Vec<u8> = Vec::new();
    core::mem::swap(buffer, &mut taken);
    taken
}

/// One capture step for a non-empty read: appends the exact bytes read to
/// the output buffer, then builds the Stdout chunk to dispatch, its payload
/// byte-identical to what was appended. Zero-length reads mean end of
/// stream and never reach this step.
pub fn capture_read(buffer: &mut Vec<u8>, data: Vec<u8>) -> (r: IoChunk)
    ensures
        final(buffer)@ == old(buffer)@ + data@,
        r.direction == IoDirection::Stdout,
        r.data@ == data@,
{
    append_output(buffer, data.as_slice());
    IoChunk::new(IoDirection::Stdout, data)
}

} // verus!
