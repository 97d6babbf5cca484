//! Words of 32 bits, stored most significant byte first.

use vstd::prelude::*;
use crate::error::{Error, IoFailure};
use crate::source::ByteSource;

verus! {

/// The word that four bytes spell, the first byte being the most significant.
pub open spec fn be_word(b0: u8, b1: u8, b2: u8, b3: u8) -> u32 {
    (b0 as int * 0x100_0000 + b1 as int * 0x1_0000 + b2 as int * 0x100 + b3 as int) as u32
}

/// The words that a byte sequence spells, four bytes to a word, in stream
/// order. Bytes after the last whole group of four are not part of any word.
pub open spec fn be_words(bytes: Seq<u8>) -> Seq<u32> {
    Seq::new(
        (bytes.len() / 4) as nat,
        |i: int| be_word(bytes[4 * i], bytes[4 * i + 1], bytes[4 * i + 2], bytes[4 * i + 3]),
    )
}

/// Decodes one big-endian word.
pub fn word_from_be_bytes(b0: u8, b1: u8, b2: u8, b3: u8) -> (w: u32)
    ensures
        w == be_word(b0, b1, b2, b3),
{
    let hi: u32 = (b0 as u32) * 0x100_0000 + (b1 as u32) * 0x1_0000;
    let lo: u32 = (b2 as u32) * 0x100 + (b3 as u32);
    hi + lo
}

/// The four bytes that spell `word`, most significant first.
pub open spec fn be_bytes(word: u32) -> Seq<u8> {
    seq![
        (word / 0x100_0000) as u8,
        (word / 0x1_0000 % 0x100) as u8,
        (word / 0x100 % 0x100) as u8,
        (word % 0x100) as u8,
    ]
}

/// The bytes that spell a sequence of words, four to a word, in order.
pub open spec fn words_as_bytes(words: Seq<u32>) -> Seq<u8> {
    Seq::new(4 * words.len(), |i: int| be_bytes(words[i / 4])[i % 4])
}

/// What a buffer of words holds after it was filled from `bytes`: word `i` is
/// decoded from the `i`-th group of four bytes where that group is whole, and
/// is left as it was where the bytes end before it.
pub open spec fn words_filled(bytes: Seq<u8>, before: Seq<u32>) -> Seq<u32> {
    Seq::new(
        before.len(),
        |i: int|
            if 4 * i + 4 <= bytes.len() {
                be_words(bytes)[i]
            } else {
                before[i]
            },
    )
}

/// Fills `dst` with words read from `stream`, four bytes to a word, most
/// significant byte first. The read succeeds when the stream holds four
/// bytes for every word of `dst`, and then consumes exactly those bytes. When
/// the stream ends early this is a failure of the source: the words that
/// were whole have been stored, and the stream is exhausted.
pub fn read_u32(stream: &mut ByteSource, dst: &mut [u32]) -> (r: Result<(), Error>)
    ensures
        r is Ok <==> 4 * old(dst)@.len() <= old(stream).remaining().len(),
        r is Err ==> r matches Err(Error::Io(IoFailure::UnexpectedEof)),
        final(dst)@ == words_filled(old(stream).remaining(), old(dst)@),
        r is Ok ==> final(dst)@ == be_words(old(stream).remaining()).take(old(dst)@.len() as int),
        r is Ok ==> final(stream).remaining() == old(stream).remaining().skip(
            4 * (old(dst)@.len() as int),
        ),
        r is Err ==> final(stream).remaining() == Seq::<u8>::empty(),
{
    let ghost bytes = stream.remaining();
    let n: usize = dst.len();
    let mut i: usize = 0;
    while i < n
        invariant
            i <= n,
            n == dst@.len() == old(dst)@.len(),
            bytes == old(stream).remaining(),
            4 * i <= bytes.len(),
            stream.remaining() == bytes.skip(4 * i),
            forall|j: int| 0 <= j < i ==> dst@[j] == be_words(bytes)[j],
            forall|j: int| i <= j < n ==> dst@[j] == old(dst)@[j],
        decreases n - i,
    {
        match stream.read_exact(4) {
            Err(failure) => {
                return Err(Error::from(failure));
            },
            Ok(group) => {
                dst[i] = word_from_be_bytes(group[0], group[1], group[2], group[3]);
                assert(bytes.skip(4 * i).skip(4) =~= bytes.skip(4 * (i + 1)));
            },
        }
        i += 1;
    }
    assert(dst@ =~= words_filled(bytes, old(dst)@));
    Ok(())
}

/// Appends `words` to `output`, each as four bytes, most significant byte
/// first. Writing to memory cannot fail.
pub fn write_u32(output: &mut Vec<u8>, words: &[u32]) -> (r: Result<(), Error>)
    ensures
        r is Ok,
        final(output)@ == old(output)@ + words_as_bytes(words@),
{
    let n: usize = words.len();
    let mut i: usize = 0;
    while i < n
        invariant
            i <= n,
            n == words@.len(),
            output@ == old(output)@ + words_as_bytes(words@.take(i as int)),
        decreases n - i,
    {
        let word: u32 = words[i];
        output.push((word / 0x100_0000) as u8);
        output.push((word / 0x1_0000 % 0x100) as u8);
        output.push((word / 0x100 % 0x100) as u8);
        output.push((word % 0x100) as u8);
        i += 1;
        assert(output@ =~= old(output)@ + words_as_bytes(words@.take(i as int)));
    }
    assert(words@.take(n as int) =~= words@);
    Ok(())
}

/// Decoding undoes encoding: the bytes that spell a sequence of words decode
/// to those words, in the same order.
pub proof fn lemma_decode_inverts_encode(words: Seq<u32>)
    ensures
        be_words(words_as_bytes(words)) == words,
{
    assert(be_words(words_as_bytes(words)) =~= words);
}

/// Encoding undoes decoding: bytes that come in whole groups of four are the
/// bytes that spell the words they decode to.
pub proof fn lemma_encode_inverts_decode(bytes: Seq<u8>)
    requires
        bytes.len() % 4 == 0,
    ensures
        words_as_bytes(be_words(bytes)) == bytes,
{
    let back = words_as_bytes(be_words(bytes));
    assert(back.len() == bytes.len());
    assert forall|i: int| 0 <= i < bytes.len() implies back[i] == bytes[i] by {
        let k = i / 4;
        lemma_bytes_of_word(bytes[4 * k], bytes[4 * k + 1], bytes[4 * k + 2], bytes[4 * k + 3]);
        assert(be_words(bytes)[k] == be_word(
            bytes[4 * k],
            bytes[4 * k + 1],
            bytes[4 * k + 2],
            bytes[4 * k + 3],
        ));
        assert(i == 4 * k + i % 4);
    }
    assert(back =~= bytes);
}

/// The word that four bytes spell is spelled by those four bytes.
pub proof fn lemma_bytes_of_word(b0: u8, b1: u8, b2: u8, b3: u8)
    ensures
        be_bytes(be_word(b0, b1, b2, b3)) == seq![b0, b1, b2, b3],
{
    assert(be_bytes(be_word(b0, b1, b2, b3)) =~= seq![b0, b1, b2, b3]);
}

/// A word is the one that its own four bytes spell.
pub proof fn lemma_word_of_bytes(word: u32)
    ensures
        be_word(be_bytes(word)[0], be_bytes(word)[1], be_bytes(word)[2], be_bytes(word)[3])
            == word,
{
}

} // verus!
