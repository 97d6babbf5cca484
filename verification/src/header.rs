//! The eight byte marker that opens every clip file.

use vstd::prelude::*;
use crate::error::Error;
use crate::source::ByteSource;

verus! {

/// The marker itself: the ASCII text `SMF2CLIP`.
pub const CLIP_FILE_HEADER: [u8; 8] = [0x53, 0x4D, 0x46, 0x32, 0x43, 0x4C, 0x49, 0x50];

/// Whether `bytes` begins with the clip marker.
pub open spec fn starts_with_header(bytes: Seq<u8>) -> bool {
    bytes.len() >= 8 && bytes.subrange(0, 8) == CLIP_FILE_HEADER@
}

/// Reads the marker from `stream`. Fewer than eight bytes, or eight bytes
/// that differ from the marker in any place, are an incorrect header; no
/// other outcome than these two exists.
pub fn read_clip_header(stream: &mut ByteSource) -> (r: Result<(), Error>)
    ensures
        r is Ok <==> starts_with_header(old(stream).remaining()),
        r is Err ==> r matches Err(Error::IncorrectHeader),
        old(stream).remaining().len() < 8 ==> r matches Err(Error::IncorrectHeader),
        old(stream).remaining().len() == 8 && old(stream).remaining() != CLIP_FILE_HEADER@
            ==> r matches Err(Error::IncorrectHeader),
        old(stream).remaining() == CLIP_FILE_HEADER@ ==> r is Ok,
        old(stream).remaining().len() < 8 ==> final(stream).remaining() == Seq::<u8>::empty(),
        old(stream).remaining().len() >= 8 ==> final(stream).remaining() == old(
            stream,
        ).remaining().skip(8),
{
    let ghost before = stream.remaining();
    assert(before.len() == 8 ==> before.subrange(0, 8) =~= before);
    match stream.read_exact(8) {
        Err(_) => Err(Error::IncorrectHeader),
        Ok(buffer) => {
            let mut i: usize = 0;
            while i < 8
                invariant
                    i <= 8,
                    before == old(stream).remaining(),
                    before.len() >= 8,
                    buffer@ == before.subrange(0, 8),
                    stream.remaining() == before.skip(8),
                    forall|j: int| 0 <= j < i ==> buffer@[j] == CLIP_FILE_HEADER@[j],
                decreases 8 - i,
            {
                if buffer[i] != CLIP_FILE_HEADER[i] {
                    return Err(Error::IncorrectHeader);
                }
                i += 1;
            }
            assert(buffer@ =~= CLIP_FILE_HEADER@);
            Ok(())
        },
    }
}

/// Appends the marker to `output`. Writing to memory cannot fail.
pub fn write_clip_header(output: &mut Vec<u8>) -> (r: Result<(), Error>)
    ensures
        r is Ok,
        final(output)@ == old(output)@ + CLIP_FILE_HEADER@,
{
    let mut i: usize = 0;
    while i < 8
        invariant
            i <= 8,
            output@ == old(output)@ + CLIP_FILE_HEADER@.subrange(0, i as int),
        decreases 8 - i,
    {
        output.push(CLIP_FILE_HEADER[i]);
        i += 1;
        assert(output@ =~= old(output)@ + CLIP_FILE_HEADER@.subrange(0, i as int));
    }
    assert(CLIP_FILE_HEADER@.subrange(0, 8) =~= CLIP_FILE_HEADER@);
    Ok(())
}

} // verus!
