//! Note events as three-byte channel-voice messages.

use vstd::prelude::*;
use crate::event::{event_of_key, NoteEvent, RawReport, translate};

verus! {

/// Status byte of a note-on message on channel one.
pub const NOTE_ON: u8 = 0x90;

/// Status byte of a note-off message on channel one.
pub const NOTE_OFF: u8 = 0x80;

/// Velocity byte of every note-off message.
pub const RELEASE_VELOCITY: u8 = 0;

/// The bytes of a channel-voice message.
pub type MidiMessage = [u8; 3];

/// The bytes that an event is sent as: status, note, velocity.
pub open spec fn message_of(event: NoteEvent) -> Seq<u8> {
    match event {
        NoteEvent::On { note, velocity } => seq![0x90u8, note, velocity],
        NoteEvent::Off { note } => seq![0x80u8, note, 0u8],
    }
}

/// Whether three bytes are framed as a channel-voice message: a status byte
/// with the top bit set, then two data bytes without it.
pub open spec fn is_channel_voice(bytes: Seq<u8>) -> bool {
    &&& bytes.len() == 3
    &&& bytes[0] >= 0x80
    &&& bytes[1] < 0x80
    &&& bytes[2] < 0x80
}

/// What goes out for a key code: nothing for code zero, else the message of
/// its event.
pub open spec fn message_of_key(key: u8) -> Option<Seq<u8>> {
    match event_of_key(key) {
        Some(event) => Some(message_of(event)),
        None => None,
    }
}

/// Whatever a key code gives rise to is a well-framed message.
pub proof fn lemma_key_message_well_framed(key: u8)
    requires
        key != 0,
    ensures
        message_of_key(key) is Some,
        is_channel_voice(message_of_key(key)->0),
{
}

/// Builds the note-on message for a note and a velocity.
pub fn note_on_message(note: u8, velocity: u8) -> (message: MidiMessage)
    ensures
        message@ == seq![0x90u8, note, velocity],
        message@ == message_of(NoteEvent::On { note, velocity }),
{
    [NOTE_ON, note, velocity]
}

/// Builds the note-off message for a note.
pub fn note_off_message(note: u8) -> (message: MidiMessage)
    ensures
        message@ == seq![0x80u8, note, 0u8],
        message@ == message_of(NoteEvent::Off { note }),
{
    [NOTE_OFF, note, RELEASE_VELOCITY]
}

/// Serialises an event.
pub fn encode(event: NoteEvent) -> (message: MidiMessage)
    ensures
        message@ == message_of(event),
{
    match event {
        NoteEvent::On { note, velocity } => note_on_message(note, velocity),
        NoteEvent::Off { note } => note_off_message(note),
    }
}

/// The whole way from a device report to the bytes to transmit, if any.
pub fn message_for_report(report: &RawReport) -> (message: Option<MidiMessage>)
    ensures
        message is None <==> report@[1] == 0,
        message is Some ==> Some(message->0@) == message_of_key(report@[1]),
        message is Some ==> is_channel_voice(message->0@),
{
    match translate(report) {
        Some(event) => Some(encode(event)),
        None => None,
    }
}

} // verus!
