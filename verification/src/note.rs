//! A MIDI note number and its pitch name.

use crate::common::note::{
    digit_value, spec_class, spec_class_name, spec_decimal, spec_digit_char, spec_digit_value,
    spec_digits, spec_pitch_text,
};
use musical_scales::{Pitch, PitchClass};
use vstd::prelude::*;

verus! {

/// The highest MIDI note number.
pub const MAX_MIDI: u8 = 127;

/// Why a note could not be made.
#[derive(Clone, Copy, Debug, PartialEq, Eq, Structural)]
pub enum NoteError {
    /// The pitch class is not one of the twelve, `0..=11`.
    InvalidPitchClass,
    /// The pitch lies below note 0 or above note 127.
    OutOfRange,
    /// The text names no pitch.
    Unreadable,
}

/// The note number that a pitch class and an octave stand for, in or out of
/// the MIDI range: octave -1 starts at 0, and each octave holds twelve notes.
pub open spec fn spec_number(pitch_class: int, octave: int) -> int {
    12 * (octave + 1) + pitch_class
}

/// The pitch class of a note number: its place within the octave.
pub open spec fn spec_pitch_class(midi: int) -> int {
    midi % 12
}

/// The octave of a note number.
pub open spec fn spec_octave(midi: int) -> int {
    midi / 12 - 1
}

/// What `Note::new` answers for a pitch class and an octave.
pub open spec fn spec_new(pitch_class: int, octave: int) -> Result<int, NoteError> {
    if !(0 <= pitch_class <= 11) {
        Err(NoteError::InvalidPitchClass)
    } else if !(0 <= spec_number(pitch_class, octave) <= MAX_MIDI) {
        Err(NoteError::OutOfRange)
    } else {
        Ok(spec_number(pitch_class, octave))
    }
}

/// The written form of a note number: the name of its pitch class, then its
/// octave, as in `C4` for note 60.
pub open spec fn spec_name(midi: int) -> Seq<char> {
    spec_pitch_text(spec_class(spec_pitch_class(midi)), spec_octave(midi))
}

/// `musical_scales::PitchClass::from_midi_note`, read back with
/// `semitone_offset`: the pitch class of a note number is the number's
/// remainder of twelve, whatever the number.
#[verifier::external_body]
fn class_offset(midi: u8) -> (offset: i8)
    ensures
        offset == spec_pitch_class(midi as int),
{
    PitchClass::from_midi_note(midi).semitone_offset()
}

/// `musical_scales::Pitch::to_midi`, on the pitch that `Pitch::new` makes of a
/// pitch class and an octave: twelve for each octave above -1, and the class's
/// offset. The crate computes in `i8`, so the contract is claimed where the
/// number is a MIDI note and asks for that.
#[verifier::external_body]
fn pitch_number(pitch_class: u8, octave: i8) -> (midi: u8)
    requires
        pitch_class <= 11,
        0 <= spec_number(pitch_class as int, octave as int) <= MAX_MIDI,
    ensures
        midi == spec_number(pitch_class as int, octave as int),
{
    Pitch::new(PitchClass::from_midi_note(pitch_class), octave).to_midi()
}

/// `musical_scales::Pitch::from_midi_note`, written out by the crate's
/// `Display`: the class's name with `#` for a sharp, then the octave in
/// decimal.
#[verifier::external_body]
fn pitch_name(midi: u8) -> (name: String)
    ensures
        name@ == spec_name(midi as int),
{
    Pitch::from_midi_note(midi).to_string()
}

/// What `musical_scales::Pitch::try_from` makes of a text, in the written
/// form that the crate's `Display` gives the pitch; `None` where it reports an
/// error.
pub uninterp spec fn musical_scales_pitch(text: Seq<char>) -> Option<Seq<char>>;

/// `musical_scales::Pitch::try_from`, with the pitch written out by the
/// crate's `Display`, its only reading that cannot overflow. The result is a
/// function of the text alone and is named, not described.
#[verifier::external_body]
fn parsed_pitch_name(text: &str) -> (name: Option<String>)
    ensures
        match musical_scales_pitch(text@) {
            Some(written) => name matches Some(made) && made@ == written,
            None => name is None,
        },
{
    match Pitch::try_from(text) {
        Ok(pitch) => Some(pitch.to_string()),
        Err(()) => None,
    }
}

/// The pitch class that a written pitch starts with, and how many characters
/// name it: a capital letter from A to G, with `#` behind it where the class
/// is a sharp.
pub open spec fn spec_read_class(text: Seq<char>) -> Option<(int, int)> {
    if text.len() == 0 {
        None
    } else {
        let sharp = text.len() >= 2 && text[1] == '#';
        let natural: Option<(int, bool)> = if text[0] == 'C' {
            Some((0, true))
        } else if text[0] == 'D' {
            Some((2, true))
        } else if text[0] == 'E' {
            Some((4, false))
        } else if text[0] == 'F' {
            Some((5, true))
        } else if text[0] == 'G' {
            Some((7, true))
        } else if text[0] == 'A' {
            Some((9, true))
        } else if text[0] == 'B' {
            Some((11, false))
        } else {
            None
        };
        match natural {
            Some((class, has_sharp)) => if !sharp {
                Some((class, 1))
            } else if has_sharp {
                Some((class + 1, 2))
            } else {
                None
            },
            None => None,
        }
    }
}

/// The number that one to three decimal digits write.
pub open spec fn spec_read_digits(digits: Seq<char>) -> Option<int> {
    if digits.len() == 1 {
        spec_digit_value(digits[0])
    } else if digits.len() == 2 {
        match (spec_digit_value(digits[0]), spec_digit_value(digits[1])) {
            (Some(tens), Some(ones)) => Some(10 * tens + ones),
            _ => None,
        }
    } else if digits.len() == 3 {
        match (
            spec_digit_value(digits[0]),
            spec_digit_value(digits[1]),
            spec_digit_value(digits[2]),
        ) {
            (Some(hundreds), Some(tens), Some(ones)) => Some(100 * hundreds + 10 * tens + ones),
            _ => None,
        }
    } else {
        None
    }
}

/// The octave that a text writes: one to three decimal digits, with `-`
/// before them for a negative octave.
pub open spec fn spec_read_octave(text: Seq<char>) -> Option<int> {
    if text.len() >= 1 && text[0] == '-' {
        match spec_read_digits(text.skip(1)) {
            Some(value) => Some(-value),
            None => None,
        }
    } else {
        spec_read_digits(text)
    }
}

/// The note that a written pitch names: its class, then its octave, and
/// nothing else.
pub open spec fn spec_from_name(text: Seq<char>) -> Result<int, NoteError> {
    match spec_read_class(text) {
        None => Err(NoteError::Unreadable),
        Some((class, used)) => match spec_read_octave(text.skip(used)) {
            None => Err(NoteError::Unreadable),
            Some(octave) => if -128 <= octave <= 127 {
                spec_new(class, octave)
            } else {
                Err(NoteError::OutOfRange)
            },
        },
    }
}

/// The number that the characters of a text from `start` on write, as one to
/// three decimal digits.
fn read_digits(text: &str, start: usize) -> (value: Option<i16>)
    requires
        start <= text@.len(),
    ensures
        match spec_read_digits(text@.skip(start as int)) {
            Some(expected) => value == Some(expected as i16) && 0 <= expected <= 999,
            None => value is None,
        },
{
    let len = text.unicode_len();
    let count = len - start;
    let ghost digits = text@.skip(start as int);
    assert(digits.len() == count);
    if count < 1 || count > 3 {
        return None;
    }
    let mut value: i16 = 0;
    let mut i: usize = 0;
    while i < count
        invariant
            i <= count,
            1 <= count <= 3,
            len == text@.len(),
            count == len - start,
            digits == text@.skip(start as int),
            forall|k: int| 0 <= k < i ==> spec_digit_value(digits[k]) is Some,
            i == 0 ==> value == 0,
            i == 1 ==> value == spec_digit_value(digits[0])->Some_0,
            i == 2 ==> value == 10 * spec_digit_value(digits[0])->Some_0 + spec_digit_value(
                digits[1],
            )->Some_0,
            i == 3 ==> value == 100 * spec_digit_value(digits[0])->Some_0 + 10 * spec_digit_value(
                digits[1],
            )->Some_0 + spec_digit_value(digits[2])->Some_0,
        decreases count - i,
    {
        assert(digits[i as int] == text@[start + i]);
        match digit_value(text.get_char(start + i)) {
            Some(digit) => {
                value = value * 10 + digit as i16;
            },
            None => {
                return None;
            },
        }
        i += 1;
    }
    Some(value)
}

/// A MIDI note number, always within `0..=127`.
#[derive(Clone, Copy, Debug, PartialEq, Eq, Structural)]
pub struct Note {
    midi: u8,
}

impl View for Note {
    type V = int;

    closed spec fn view(&self) -> int {
        self.midi as int
    }
}

impl Note {
    #[verifier::type_invariant]
    spec fn in_range(self) -> bool {
        self.midi <= MAX_MIDI
    }

    /// The note with the given number.
    pub fn from_midi(midi: u8) -> (note: Self)
        requires
            midi <= MAX_MIDI,
        ensures
            note@ == midi,
    {
        Self { midi }
    }

    /// The note's number.
    pub fn midi(&self) -> (midi: u8)
        ensures
            midi == self@,
            midi <= MAX_MIDI,
    {
        proof {
            use_type_invariant(self);
        }
        self.midi
    }

    /// The note of a pitch class, counted in semitones above C, and an octave.
    /// A pitch class beyond 11 is refused, and so is a pitch outside the MIDI
    /// range.
    pub fn new(pitch_class: u8, octave: i8) -> (made: Result<Self, NoteError>)
        ensures
            match spec_new(pitch_class as int, octave as int) {
                Ok(number) => made matches Ok(note) && note@ == number,
                Err(e) => made == Err::<Note, NoteError>(e),
            },
    {
        if pitch_class > 11 {
            return Err(NoteError::InvalidPitchClass);
        }
        let number: i16 = 12 * (octave as i16 + 1) + pitch_class as i16;
        if number < 0 || number > MAX_MIDI as i16 {
            return Err(NoteError::OutOfRange);
        }
        Ok(Self { midi: pitch_number(pitch_class, octave) })
    }

    /// The note that a written pitch names, such as `C4` or `F#-1`: the name of
    /// a pitch class, then the octave in decimal.
    pub fn from_name(name: &str) -> (made: Result<Self, NoteError>)
        ensures
            match spec_from_name(name@) {
                Ok(number) => made matches Ok(note) && note@ == number,
                Err(e) => made == Err::<Note, NoteError>(e),
            },
    {
        let len = name.unicode_len();
        if len == 0 {
            return Err(NoteError::Unreadable);
        }
        let letter = name.get_char(0);
        let sharp = len >= 2 && name.get_char(1) == '#';
        let natural: Option<(u8, bool)> = if letter == 'C' {
            Some((0, true))
        } else if letter == 'D' {
            Some((2, true))
        } else if letter == 'E' {
            Some((4, false))
        } else if letter == 'F' {
            Some((5, true))
        } else if letter == 'G' {
            Some((7, true))
        } else if letter == 'A' {
            Some((9, true))
        } else if letter == 'B' {
            Some((11, false))
        } else {
            None
        };
        let (class, used): (u8, usize) = match natural {
            Some((class, has_sharp)) => if !sharp {
                (class, 1)
            } else if has_sharp {
                (class + 1, 2)
            } else {
                return Err(NoteError::Unreadable);
            },
            None => {
                return Err(NoteError::Unreadable);
            },
        };
        let ghost rest = name@.skip(used as int);
        let negative = used < len && name.get_char(used) == '-';
        assert(negative == (rest.len() >= 1 && rest[0] == '-'));
        let start: usize = if negative {
            used + 1
        } else {
            used
        };
        assert(name@.skip(start as int) =~= if negative {
            rest.skip(1)
        } else {
            rest
        });
        match read_digits(name, start) {
            None => Err(NoteError::Unreadable),
            Some(value) => {
                let octave: i16 = if negative {
                    -value
                } else {
                    value
                };
                if octave < -128 || octave > 127 {
                    Err(NoteError::OutOfRange)
                } else {
                    Note::new(class, octave as i8)
                }
            },
        }
    }

    /// The note that a text names. The text is read by `musical_scales`, which
    /// takes small and capital letters, flats and sharps; what it made of the
    /// text is then read as a note.
    pub fn try_from(value: &str) -> (made: Result<Self, NoteError>)
        ensures
            match musical_scales_pitch(value@) {
                None => made == Err::<Note, NoteError>(NoteError::Unreadable),
                Some(written) => match spec_from_name(written) {
                    Ok(number) => made matches Ok(note) && note@ == number,
                    Err(e) => made == Err::<Note, NoteError>(e),
                },
            },
    {
        match parsed_pitch_name(value) {
            None => Err(NoteError::Unreadable),
            Some(written) => Note::from_name(written.as_str()),
        }
    }

    /// The note's pitch class, in semitones above C.
    pub fn get_pitch_class_offset(&self) -> (offset: i8)
        ensures
            offset == spec_pitch_class(self@),
            0 <= offset <= 11,
    {
        class_offset(self.midi)
    }

    /// The note's written form, such as `C4` for note 60.
    pub fn to_string(&self) -> (text: String)
        ensures
            text@ == spec_name(self@),
    {
        pitch_name(self.midi)
    }

    /// The octave that the note lies in, from -1 for the lowest notes to 9.
    pub fn get_octave(&self) -> (octave: i8)
        ensures
            octave == spec_octave(self@),
            -1 <= octave <= 9,
    {
        proof {
            use_type_invariant(self);
        }
        let below: u8 = self.midi / 12;
        below as i8 - 1
    }
}

impl Default for Note {
    /// Middle C, note 60.
    fn default() -> (note: Self)
        ensures
            note@ == 60,
    {
        Self { midi: 60 }
    }
}

/// A note's pitch class and octave lead back to the note: for every MIDI note
/// number, building a note from the class and the octave of that number gives
/// the number again.
pub proof fn lemma_note_round_trip(midi: int)
    requires
        0 <= midi <= MAX_MIDI,
    ensures
        spec_new(spec_pitch_class(midi), spec_octave(midi)) == Ok::<int, NoteError>(midi),
{
}

/// A note's written form names the note: for every MIDI note number, reading
/// the name of that number gives the number again.
pub proof fn lemma_name_round_trip(midi: int)
    requires
        0 <= midi <= MAX_MIDI,
    ensures
        spec_from_name(spec_name(midi)) == Ok::<int, NoteError>(midi),
{
    let class = spec_pitch_class(midi);
    let octave = spec_octave(midi);
    let name = spec_class_name(spec_class(class));
    let digits = spec_decimal(octave);
    let text = spec_name(midi);
    reveal_with_fuel(spec_digits, 2);
    assert(-1 <= octave <= 9);
    assert(digits =~= if octave < 0 {
        seq!['-', '1']
    } else {
        seq![spec_digit_char(octave)]
    });
    assert(text.len() == name.len() + digits.len());
    assert(text[0] == name[0]);
    assert(name.len() == 2 ==> text[1] == '#');
    assert(name.len() == 1 ==> text[1] == digits[0]);
    assert(spec_read_class(text) == Some((class, name.len() as int)));
    assert(text.skip(name.len() as int) =~= digits);
    if octave < 0 {
        assert(digits.skip(1) =~= seq!['1']);
    }
    assert(spec_read_octave(digits) == Some(octave));
}

/// Pitch class and octave name a note only once: where a pitch class and an
/// octave make a note, that note has this pitch class and this octave.
pub proof fn lemma_note_parts(pitch_class: int, octave: int)
    requires
        spec_new(pitch_class, octave) is Ok,
    ensures
        spec_pitch_class(spec_new(pitch_class, octave)->Ok_0) == pitch_class,
        spec_octave(spec_new(pitch_class, octave)->Ok_0) == octave,
{
}

} // verus!
