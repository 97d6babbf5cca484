//! The two utility messages of a clip's configuration header, each one word
//! of the Universal MIDI Packet format. Classifying a word is delegated to
//! the `midi2` crate; what it answers is stated here over the word's bits.

use vstd::prelude::*;
use crate::error::Error;

verus! {

/// The message type that every utility message carries.
pub const UTILITY_MESSAGE_TYPE: u32 = 0;

/// The status under which `midi2` 0.6.2 recognises a delta clockstamp.
pub const DELTA_CLOCKSTAMP_STATUS: u32 = 2;

/// The status of a delta clockstamp ticks-per-quarter-note message.
pub const DELTA_CLOCKSTAMP_TPQ_STATUS: u32 = 3;

/// The reason given when a clip does not begin at time zero.
pub const NONZERO_INITIAL_CLOCKSTAMP: &'static str =
    "Initial delta clockstamp message should be set to 0";

/// The message type of a word: its four most significant bits.
pub open spec fn message_type(word: u32) -> u32 {
    word >> 28
}

/// The status of a utility word: bits 20 to 23.
pub open spec fn utility_status(word: u32) -> u32 {
    (word >> 20) & 0xF
}

/// The time data of a utility word: its sixteen least significant bits.
pub open spec fn time_data(word: u32) -> u16 {
    (word & 0xFFFF) as u16
}

/// Whether `word` is a utility message with the given status. The group
/// bits, 24 to 27, are not looked at.
pub open spec fn is_utility(word: u32, status: u32) -> bool {
    message_type(word) == UTILITY_MESSAGE_TYPE && utility_status(word) == status
}

/// Whether `word` classifies as a delta clockstamp.
pub open spec fn is_delta_clockstamp(word: u32) -> bool {
    is_utility(word, DELTA_CLOCKSTAMP_STATUS)
}

/// Whether `word` classifies as a ticks-per-quarter-note declaration.
pub open spec fn is_delta_clockstamp_tpq(word: u32) -> bool {
    is_utility(word, DELTA_CLOCKSTAMP_TPQ_STATUS)
}

/// Whether `word` may open a clip: a delta clockstamp of zero ticks.
pub open spec fn is_initial_clockstamp(word: u32) -> bool {
    is_delta_clockstamp(word) && time_data(word) == 0
}

/// Trusted: `midi2::utility::DeltaClockstamp::try_from` on a buffer of the one
/// word, and `time_data` of the message it gives. The conversion checks, in
/// this order, that the four top bits are zero and that bits 20 to 23 hold
/// the delta clockstamp status; it accepts exactly the words that pass both.
/// `time_data` reads the low sixteen bits.
#[verifier::external_body]
fn delta_clockstamp_time_data(word: u32) -> (r: Result<u16, midi2::error::InvalidData>)
    ensures
        r is Ok <==> is_delta_clockstamp(word),
        r is Ok ==> r->Ok_0 == time_data(word),
{
    let buffer = [word];
    let message = midi2::utility::DeltaClockstamp::try_from(&buffer[..])?;
    Ok(message.time_data())
}

/// Trusted: `midi2::utility::DeltaClockstampTpq::try_from` on a buffer of the
/// one word. The conversion accepts exactly the words whose four top bits
/// are zero and whose bits 20 to 23 hold the ticks-per-quarter-note status.
#[verifier::external_body]
fn delta_clockstamp_tpq_validate(word: u32) -> (r: Result<(), midi2::error::InvalidData>)
    ensures
        r is Ok <==> is_delta_clockstamp_tpq(word),
{
    let buffer = [word];
    midi2::utility::DeltaClockstampTpq::try_from(&buffer[..])?;
    Ok(())
}

/// Checks the word that opens a clip's configuration header. It must
/// classify as a delta clockstamp, else the classifier's error is returned;
/// and its time data must be zero, else the word is a parse error.
pub fn check_initial_clockstamp(word: u32) -> (r: Result<(), Error>)
    ensures
        r is Ok <==> is_initial_clockstamp(word),
        r matches Err(Error::Ump(_)) <==> !is_delta_clockstamp(word),
        r matches Err(Error::Parse(reason)) <==> is_delta_clockstamp(word) && time_data(word) != 0,
        r matches Err(Error::Parse(reason)) ==> reason@ == NONZERO_INITIAL_CLOCKSTAMP@,
{
    match delta_clockstamp_time_data(word) {
        Err(invalid) => Err(Error::from(invalid)),
        Ok(ticks) => {
            if ticks != 0 {
                Err(Error::Parse(NONZERO_INITIAL_CLOCKSTAMP))
            } else {
                Ok(())
            }
        },
    }
}

/// Checks the second word of a clip's configuration header. It must
/// classify as a ticks-per-quarter-note declaration; its value is free.
pub fn check_ticks_per_quarter(word: u32) -> (r: Result<(), Error>)
    ensures
        r is Ok <==> is_delta_clockstamp_tpq(word),
        r is Err ==> r matches Err(Error::Ump(_)),
{
    match delta_clockstamp_tpq_validate(word) {
        Err(invalid) => Err(Error::from(invalid)),
        Ok(()) => Ok(()),
    }
}

} // verus!
