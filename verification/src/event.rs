//! From a raw device report to a note event.

use vstd::prelude::*;
use crate::layout::{remap, subtract_eleven_on_multiple_of_sixteen};

verus! {

/// Number of bytes in one device report.
pub const REPORT_LEN: usize = 64;

/// Position of the key code inside a report. Every other byte is ignored.
pub const KEY_OFFSET: usize = 1;

/// Key codes are reduced by this modulus before they are laid out.
pub const KEY_MODULUS: u8 = 127;

/// Raw key codes above this value are presses; the others are releases.
pub const PRESS_THRESHOLD: u8 = 127;

/// Note number of layout position zero.
pub const BASE_NOTE: u8 = 36;

/// Velocity of every note-on event.
pub const PRESS_VELOCITY: u8 = 64;

/// One report as the device delivers it.
pub type RawReport = [u8; 64];

/// A key going down or coming up, with the note it stands for.
#[derive(Clone, Copy, Debug, PartialEq, Eq, Structural)]
pub enum NoteEvent {
    On { note: u8, velocity: u8 },
    Off { note: u8 },
}

impl NoteEvent {
    /// The note number that the event carries.
    pub open spec fn note_number(self) -> u8 {
        match self {
            NoteEvent::On { note, .. } => note,
            NoteEvent::Off { note } => note,
        }
    }

    /// The note number that the event carries.
    pub fn note(&self) -> (n: u8)
        ensures
            n == self.note_number(),
    {
        match self {
            NoteEvent::On { note, .. } => *note,
            NoteEvent::Off { note } => *note,
        }
    }

    /// Whether the event is a key going down.
    pub fn is_on(&self) -> (b: bool)
        ensures
            b == (*self is On),
    {
        match self {
            NoteEvent::On { .. } => true,
            NoteEvent::Off { .. } => false,
        }
    }
}

/// The part of a key code that says which key it is.
pub open spec fn key_identity(key: u8) -> int {
    key as int % 127
}

/// The note that a key code stands for: its identity, laid out in fourths,
/// above the base note.
pub open spec fn note_of_key(key: u8) -> int {
    remap(key_identity(key)) + 36
}

/// Whether a raw key code reports a press. The raw code decides, not its
/// identity.
pub open spec fn is_press(key: u8) -> bool {
    key > 127
}

/// The event that a key code gives rise to. Code zero is the idle signal and
/// gives none.
pub open spec fn event_of_key(key: u8) -> Option<NoteEvent> {
    if key == 0 {
        None
    } else if is_press(key) {
        Some(NoteEvent::On { note: note_of_key(key) as u8, velocity: 64 })
    } else {
        Some(NoteEvent::Off { note: note_of_key(key) as u8 })
    }
}

/// Every key code stands for a note between 36 and 85, which is inside the
/// range of MIDI note numbers.
pub proof fn lemma_note_in_range(key: u8)
    ensures
        36 <= note_of_key(key) <= 85,
{
}

/// A press and a release of the same key carry the same note.
pub proof fn lemma_press_release_same_note(press: u8, release: u8)
    requires
        is_press(press),
        release != 0,
        !is_press(release),
        key_identity(press) == key_identity(release),
    ensures
        event_of_key(press) == Some(
            NoteEvent::On { note: note_of_key(release) as u8, velocity: 64 },
        ),
        event_of_key(release) == Some(NoteEvent::Off { note: note_of_key(release) as u8 }),
        event_of_key(press)->0.note_number() == event_of_key(release)->0.note_number(),
{
}

/// A run of presses followed by the releases of the same keys, in the same
/// order, carries the same notes going down and coming up.
pub proof fn lemma_presses_then_releases(presses: Seq<u8>, releases: Seq<u8>)
    requires
        presses.len() == releases.len(),
        forall|i: int|
            0 <= i < presses.len() ==> {
                &&& is_press(#[trigger] presses[i])
                &&& releases[i] != 0
                &&& !is_press(releases[i])
                &&& key_identity(presses[i]) == key_identity(releases[i])
            },
    ensures
        forall|i: int|
            0 <= i < presses.len() ==> {
                &&& event_of_key(#[trigger] presses[i]) is Some
                &&& event_of_key(presses[i])->0 is On
                &&& event_of_key(releases[i]) is Some
                &&& event_of_key(releases[i])->0 is Off
                &&& event_of_key(presses[i])->0.note_number() == event_of_key(
                    releases[i],
                )->0.note_number()
            },
{
    assert forall|i: int| 0 <= i < presses.len() implies {
        &&& event_of_key(#[trigger] presses[i]) is Some
        &&& event_of_key(presses[i])->0 is On
        &&& event_of_key(releases[i]) is Some
        &&& event_of_key(releases[i])->0 is Off
        &&& event_of_key(presses[i])->0.note_number() == event_of_key(
            releases[i],
        )->0.note_number()
    } by {
        lemma_press_release_same_note(presses[i], releases[i]);
    }
}

/// Computes the note that a key code stands for.
pub fn note_for_key(key: u8) -> (note: u8)
    ensures
        note == note_of_key(key),
        36 <= note <= 85,
{
    let reduced: u8 = key % KEY_MODULUS;
    subtract_eleven_on_multiple_of_sixteen(reduced) + BASE_NOTE
}

/// Turns a key code into its event: none for code zero, a press for a raw code
/// above 127, a release otherwise.
pub fn translate_key(key: u8) -> (event: Option<NoteEvent>)
    ensures
        event == event_of_key(key),
        event is None <==> key == 0,
        event is Some ==> (event->0 is On <==> key > 127),
        event is Some ==> event->0.note_number() == note_of_key(key),
        event is Some && event->0 is On ==> event->0->velocity == 64,
{
    if key == 0 {
        None
    } else {
        let note: u8 = note_for_key(key);
        if key > PRESS_THRESHOLD {
            Some(NoteEvent::On { note, velocity: PRESS_VELOCITY })
        } else {
            Some(NoteEvent::Off { note })
        }
    }
}

/// Reads the key code out of a report.
pub fn key_code(report: &RawReport) -> (key: u8)
    ensures
        key == report@[1],
{
    report[KEY_OFFSET]
}

/// Turns a device report into its event. Only the byte at `KEY_OFFSET` is
/// looked at.
pub fn translate(report: &RawReport) -> (event: Option<NoteEvent>)
    ensures
        event == event_of_key(report@[1]),
{
    translate_key(key_code(report))
}

} // verus!
