//! The clip itself, and the reader and writer of clip files.

use vstd::prelude::*;
use crate::error::{Error, IoFailure};
use crate::header::{read_clip_header, starts_with_header, write_clip_header, CLIP_FILE_HEADER};
use crate::source::ByteSource;
use crate::ump::{
    check_initial_clockstamp, check_ticks_per_quarter, is_delta_clockstamp,
    is_delta_clockstamp_tpq, is_initial_clockstamp, time_data, NONZERO_INITIAL_CLOCKSTAMP,
};
use crate::word::{be_word, read_u32};

verus! {

/// The words of one clip, in the order in which the file holds them.
#[derive(Debug, Eq, PartialEq, Clone)]
pub struct Clip(Vec<u32>);

/// What a reader finds in the bytes of a clip file. The checks are made in
/// the order of the variants, and the first that fails decides.
pub enum Verdict {
    /// The marker is missing or wrong.
    IncorrectHeader,
    /// The bytes end before the first configuration word is whole.
    MissingClockstamp,
    /// The first configuration word is not a delta clockstamp.
    InvalidClockstamp,
    /// The first configuration word is a delta clockstamp other than zero.
    NonzeroClockstamp,
    /// The bytes end before the second configuration word is whole.
    MissingTicks,
    /// The second configuration word declares no ticks per quarter note.
    InvalidTicks,
    /// Marker and configuration header are as the format asks.
    Accepted,
}

/// The big-endian word that starts at byte `at` of `bytes`.
pub open spec fn word_at(bytes: Seq<u8>, at: int) -> u32 {
    be_word(bytes[at], bytes[at + 1], bytes[at + 2], bytes[at + 3])
}

/// The verdict on a configuration header: `bytes` is what follows the marker.
pub open spec fn configuration_verdict(bytes: Seq<u8>) -> Verdict {
    if bytes.len() < 4 {
        Verdict::MissingClockstamp
    } else if !is_delta_clockstamp(word_at(bytes, 0)) {
        Verdict::InvalidClockstamp
    } else if time_data(word_at(bytes, 0)) != 0 {
        Verdict::NonzeroClockstamp
    } else if bytes.len() < 8 {
        Verdict::MissingTicks
    } else if !is_delta_clockstamp_tpq(word_at(bytes, 4)) {
        Verdict::InvalidTicks
    } else {
        Verdict::Accepted
    }
}

/// The verdict on a whole clip file.
pub open spec fn clip_verdict(bytes: Seq<u8>) -> Verdict {
    if !starts_with_header(bytes) {
        Verdict::IncorrectHeader
    } else {
        configuration_verdict(bytes.skip(8))
    }
}

/// Whether `error` is the one that reports `verdict`.
pub open spec fn reports(error: Error, verdict: Verdict) -> bool {
    match verdict {
        Verdict::IncorrectHeader => error is IncorrectHeader,
        Verdict::MissingClockstamp | Verdict::MissingTicks => error == Error::Io(
            IoFailure::UnexpectedEof,
        ),
        Verdict::InvalidClockstamp | Verdict::InvalidTicks => error is Ump,
        Verdict::NonzeroClockstamp => error matches Error::Parse(reason) && reason@
            == NONZERO_INITIAL_CLOCKSTAMP@,
        Verdict::Accepted => false,
    }
}

/// The words that reading a configuration header adds to a clip: each word
/// is stored as soon as it has passed its check.
pub open spec fn configuration_words(bytes: Seq<u8>) -> Seq<u32> {
    match configuration_verdict(bytes) {
        Verdict::Accepted => seq![word_at(bytes, 0), word_at(bytes, 4)],
        Verdict::MissingTicks | Verdict::InvalidTicks => seq![word_at(bytes, 0)],
        _ => Seq::empty(),
    }
}

/// The bytes left unread once a configuration header was read, or was given
/// up: a word that fails its check has been consumed, and a stream that
/// ended early is exhausted.
pub open spec fn after_configuration(bytes: Seq<u8>) -> Seq<u8> {
    match configuration_verdict(bytes) {
        Verdict::MissingClockstamp | Verdict::MissingTicks => Seq::empty(),
        Verdict::InvalidClockstamp | Verdict::NonzeroClockstamp => bytes.skip(4),
        _ => bytes.skip(8),
    }
}

/// The bytes left unread once a clip file was read, or was given up.
pub open spec fn after_clip(bytes: Seq<u8>) -> Seq<u8> {
    if bytes.len() < 8 {
        Seq::empty()
    } else if !starts_with_header(bytes) {
        bytes.skip(8)
    } else {
        after_configuration(bytes.skip(8))
    }
}

/// The bytes that writing a clip emits: the marker, and for now nothing of
/// the clip's words.
pub open spec fn encoded_clip(words: Seq<u32>) -> Seq<u8> {
    CLIP_FILE_HEADER@
}

impl View for Clip {
    type V = Seq<u32>;

    closed spec fn view(&self) -> Seq<u32> {
        self.0@
    }
}

impl Default for Clip {
    /// The empty clip.
    fn default() -> (clip: Self)
        ensures
            clip@ == Seq::<u32>::empty(),
    {
        Clip(Vec::new())
    }
}

impl Clip {
    /// What holds of every clip that was read from a file: its first word
    /// is a delta clockstamp of zero, its second declares the ticks per
    /// quarter note.
    pub open spec fn is_well_formed(&self) -> bool {
        &&& self@.len() >= 1 ==> is_initial_clockstamp(self@[0])
        &&& self@.len() >= 2 ==> is_delta_clockstamp_tpq(self@[1])
    }

    /// A clip of the given words, which are taken as they are.
    pub fn from_words(words: Vec<u32>) -> (clip: Self)
        ensures
            clip@ == words@,
    {
        Clip(words)
    }

    /// The clip's words, in order.
    pub fn words(&self) -> (words: &Vec<u32>)
        ensures
            words@ == self@,
    {
        &self.0
    }

    /// Reads a clip file from `stream`: the marker, then the configuration
    /// header. The result is the clip of the two configuration words, or the
    /// error that reports the first check that failed.
    pub fn read_clip_file(stream: &mut ByteSource) -> (r: Result<Self, Error>)
        ensures
            r is Ok <==> clip_verdict(old(stream).remaining()) == Verdict::Accepted,
            r matches Err(error) ==> reports(error, clip_verdict(old(stream).remaining())),
            r matches Ok(clip) ==> clip@ == configuration_words(old(stream).remaining().skip(8))
                && clip@ == seq![
                word_at(old(stream).remaining(), 8),
                word_at(old(stream).remaining(), 12),
            ] && clip.is_well_formed(),
            final(stream).remaining() == after_clip(old(stream).remaining()),
            starts_with_header(old(stream).remaining()) && old(stream).remaining().len() >= 12
                && is_delta_clockstamp(word_at(old(stream).remaining(), 8)) && time_data(
                word_at(old(stream).remaining(), 8),
            ) != 0 ==> r matches Err(Error::Parse(_)),
            starts_with_header(old(stream).remaining()) && old(stream).remaining().len() >= 16
                && is_initial_clockstamp(word_at(old(stream).remaining(), 8))
                && !is_delta_clockstamp_tpq(word_at(old(stream).remaining(), 12))
                ==> r matches Err(Error::Ump(_)),
    {
        match read_clip_header(stream) {
            Err(error) => { return Err(error); },
            Ok(()) => {},
        }
        let mut clip = Clip(Vec::new());
        match read_clip_configuration_header(stream, &mut clip) {
            Err(error) => { return Err(error); },
            Ok(()) => {},
        }
        Ok(clip)
    }

    /// Writes the clip to `output` as a clip file. Only the marker is
    /// written; the words of the clip are not.
    pub fn write_clip_file(&self, output: &mut Vec<u8>) -> (r: Result<(), Error>)
        ensures
            r is Ok,
            final(output)@ == old(output)@ + encoded_clip(self@),
    {
        write_clip_header(output)
    }
}

/// Reads the configuration header from `stream` into `clip`: one word that
/// must be a delta clockstamp of zero, then one that must declare the ticks
/// per quarter note. Each word is appended to `clip`, as it was read, once it
/// has passed its check. The format reserves room for profile declarations
/// ahead of the clockstamp; none are read, so a file that holds any is
/// judged by its first word like every other.
pub fn read_clip_configuration_header(stream: &mut ByteSource, clip: &mut Clip) -> (r: Result<
    (),
    Error,
>)
    ensures
        r is Ok <==> configuration_verdict(old(stream).remaining()) == Verdict::Accepted,
        r matches Err(error) ==> reports(error, configuration_verdict(old(stream).remaining())),
        final(clip)@ == old(clip)@ + configuration_words(old(stream).remaining()),
        final(stream).remaining() == after_configuration(old(stream).remaining()),
{
    let ghost bytes = stream.remaining();
    let mut buffer: [u32; 1] = [0];

    match read_u32(stream, &mut buffer) {
        Err(error) => {
            return Err(error);
        },
        Ok(()) => {},
    }
    let clockstamp: u32 = buffer[0];
    match check_initial_clockstamp(clockstamp) {
        Err(error) => {
            return Err(error);
        },
        Ok(()) => {},
    }
    clip.0.push(clockstamp);

    match read_u32(stream, &mut buffer) {
        Err(error) => {
            return Err(error);
        },
        Ok(()) => {},
    }
    let ticks: u32 = buffer[0];
    match check_ticks_per_quarter(ticks) {
        Err(error) => {
            return Err(error);
        },
        Ok(()) => {},
    }
    clip.0.push(ticks);
    assert(clip@ =~= old(clip)@ + configuration_words(bytes));
    Ok(())
}

/// Writing is not yet the inverse of reading. Whatever the clip, what
/// `write_clip_file` emits carries the marker and no configuration header: a
/// reader accepts the marker, finds the stream at its end, and reports the
/// missing clockstamp word as a failure of the source.
pub proof fn lemma_written_clip_lacks_configuration(words: Seq<u32>)
    ensures
        starts_with_header(encoded_clip(words)),
        encoded_clip(words).len() == 8,
        clip_verdict(encoded_clip(words)) == Verdict::MissingClockstamp,
{
    assert(CLIP_FILE_HEADER@.subrange(0, 8) =~= CLIP_FILE_HEADER@);
}

} // verus!
