//! A pitch as a pitch class and an octave, read from and written as text such
//! as `C4` or `F#3`.

use vstd::prelude::*;

verus! {

/// One of the twelve pitch classes, in the order of the keys from C up to B.
#[derive(Clone, Copy, Debug, PartialEq, Eq, Hash, Structural)]
pub enum Note {
    C,
    Cs,
    D,
    Ds,
    E,
    F,
    Fs,
    G,
    Gs,
    A,
    As,
    B,
}

/// A pitch class together with its octave.
#[derive(Clone, Copy, Debug, PartialEq, Eq, Hash, Structural)]
pub struct Pitch {
    /// The pitch class.
    pub note: Note,
    /// The octave; the MIDI notes lie in octaves -1 to 9.
    pub octave: i8,
}

/// The pitch class that lies `index` semitones above C, for `0..=11`.
pub open spec fn spec_class(index: int) -> Note {
    if index == 0 {
        Note::C
    } else if index == 1 {
        Note::Cs
    } else if index == 2 {
        Note::D
    } else if index == 3 {
        Note::Ds
    } else if index == 4 {
        Note::E
    } else if index == 5 {
        Note::F
    } else if index == 6 {
        Note::Fs
    } else if index == 7 {
        Note::G
    } else if index == 8 {
        Note::Gs
    } else if index == 9 {
        Note::A
    } else if index == 10 {
        Note::As
    } else {
        Note::B
    }
}

/// The written form of a pitch class: its letter, and `#` where it is a
/// sharp.
pub open spec fn spec_class_name(note: Note) -> Seq<char> {
    match note {
        Note::C => seq!['C'],
        Note::Cs => seq!['C', '#'],
        Note::D => seq!['D'],
        Note::Ds => seq!['D', '#'],
        Note::E => seq!['E'],
        Note::F => seq!['F'],
        Note::Fs => seq!['F', '#'],
        Note::G => seq!['G'],
        Note::Gs => seq!['G', '#'],
        Note::A => seq!['A'],
        Note::As => seq!['A', '#'],
        Note::B => seq!['B'],
    }
}

/// The character of a decimal digit, for `0..=9`.
pub open spec fn spec_digit_char(digit: int) -> char {
    if digit == 0 {
        '0'
    } else if digit == 1 {
        '1'
    } else if digit == 2 {
        '2'
    } else if digit == 3 {
        '3'
    } else if digit == 4 {
        '4'
    } else if digit == 5 {
        '5'
    } else if digit == 6 {
        '6'
    } else if digit == 7 {
        '7'
    } else if digit == 8 {
        '8'
    } else {
        '9'
    }
}

/// The decimal digits of a natural number, without leading zeros.
pub open spec fn spec_digits(n: nat) -> Seq<char>
    decreases n,
{
    if n < 10 {
        seq![spec_digit_char(n as int)]
    } else {
        spec_digits(n / 10).push(spec_digit_char((n % 10) as int))
    }
}

/// An integer in decimal, with `-` before a negative one.
pub open spec fn spec_decimal(n: int) -> Seq<char> {
    if n < 0 {
        seq!['-'] + spec_digits((-n) as nat)
    } else {
        spec_digits(n as nat)
    }
}

/// The written form of a pitch: the name of its class, then its octave.
pub open spec fn spec_pitch_text(note: Note, octave: int) -> Seq<char> {
    spec_class_name(note) + spec_decimal(octave)
}

/// The natural pitch class that a capital letter names.
pub open spec fn spec_letter(c: char) -> Option<Note> {
    if c == 'A' {
        Some(Note::A)
    } else if c == 'B' {
        Some(Note::B)
    } else if c == 'C' {
        Some(Note::C)
    } else if c == 'D' {
        Some(Note::D)
    } else if c == 'E' {
        Some(Note::E)
    } else if c == 'F' {
        Some(Note::F)
    } else if c == 'G' {
        Some(Note::G)
    } else {
        None
    }
}

/// The value of a decimal digit character.
pub open spec fn spec_digit_value(c: char) -> Option<int> {
    if c == '0' {
        Some(0)
    } else if c == '1' {
        Some(1)
    } else if c == '2' {
        Some(2)
    } else if c == '3' {
        Some(3)
    } else if c == '4' {
        Some(4)
    } else if c == '5' {
        Some(5)
    } else if c == '6' {
        Some(6)
    } else if c == '7' {
        Some(7)
    } else if c == '8' {
        Some(8)
    } else if c == '9' {
        Some(9)
    } else {
        None
    }
}

/// The pitch that a text names, if it names one.
///
/// A pitch is written as a capital letter from A to G, then at most one
/// accidental (`#` for a sharp, `b` for a flat), then one digit for the octave,
/// and nothing else. The accidental moves the letter's class by one semitone;
/// `B#` is the C of the octave above and `Cb` the B of the octave below.
pub open spec fn spec_parse(text: Seq<char>) -> Option<Pitch> {
    if text.len() == 2 {
        match (spec_letter(text[0]), spec_digit_value(text[1])) {
            (Some(note), Some(octave)) => Some(Pitch { note, octave: octave as i8 }),
            _ => None,
        }
    } else if text.len() == 3 {
        match (spec_letter(text[0]), spec_digit_value(text[2])) {
            (Some(note), Some(octave)) => {
                if text[1] == '#' {
                    Some(
                        Pitch {
                            note: note.spec_sharpen(),
                            octave: (if note == Note::B {
                                octave + 1
                            } else {
                                octave
                            }) as i8,
                        },
                    )
                } else if text[1] == 'b' {
                    Some(
                        Pitch {
                            note: note.spec_flatten(),
                            octave: (if note == Note::C {
                                octave - 1
                            } else {
                                octave
                            }) as i8,
                        },
                    )
                } else {
                    None
                }
            },
            _ => None,
        }
    } else {
        None
    }
}

impl Note {
    /// How many semitones the class lies above C.
    pub open spec fn spec_index(self) -> int {
        match self {
            Note::C => 0,
            Note::Cs => 1,
            Note::D => 2,
            Note::Ds => 3,
            Note::E => 4,
            Note::F => 5,
            Note::Fs => 6,
            Note::G => 7,
            Note::Gs => 8,
            Note::A => 9,
            Note::As => 10,
            Note::B => 11,
        }
    }

    /// The class one semitone up, B leading back to C.
    pub open spec fn spec_sharpen(self) -> Note {
        spec_class((self.spec_index() + 1) % 12)
    }

    /// The class one semitone down, C leading back to B.
    pub open spec fn spec_flatten(self) -> Note {
        spec_class((self.spec_index() + 11) % 12)
    }

    /// The class one semitone above `v`.
    pub fn sharpen(v: Self) -> (up: Self)
        ensures
            up == v.spec_sharpen(),
    {
        match v {
            Note::C => Note::Cs,
            Note::Cs => Note::D,
            Note::D => Note::Ds,
            Note::Ds => Note::E,
            Note::E => Note::F,
            Note::F => Note::Fs,
            Note::Fs => Note::G,
            Note::G => Note::Gs,
            Note::Gs => Note::A,
            Note::A => Note::As,
            Note::As => Note::B,
            Note::B => Note::C,
        }
    }

    /// The class one semitone below `v`.
    pub fn flatten(v: Self) -> (down: Self)
        ensures
            down == v.spec_flatten(),
    {
        match v {
            Note::C => Note::B,
            Note::Cs => Note::C,
            Note::D => Note::Cs,
            Note::Ds => Note::D,
            Note::E => Note::Ds,
            Note::F => Note::E,
            Note::Fs => Note::F,
            Note::G => Note::Fs,
            Note::Gs => Note::G,
            Note::A => Note::Gs,
            Note::As => Note::A,
            Note::B => Note::As,
        }
    }

    /// The class's written form.
    pub fn name(&self) -> (text: String)
        ensures
            text@ == spec_class_name(*self),
    {
        let text = match self {
            Note::C => {
                proof {
                    reveal_strlit("C");
                }
                "C"
            },
            Note::Cs => {
                proof {
                    reveal_strlit("C#");
                }
                "C#"
            },
            Note::D => {
                proof {
                    reveal_strlit("D");
                }
                "D"
            },
            Note::Ds => {
                proof {
                    reveal_strlit("D#");
                }
                "D#"
            },
            Note::E => {
                proof {
                    reveal_strlit("E");
                }
                "E"
            },
            Note::F => {
                proof {
                    reveal_strlit("F");
                }
                "F"
            },
            Note::Fs => {
                proof {
                    reveal_strlit("F#");
                }
                "F#"
            },
            Note::G => {
                proof {
                    reveal_strlit("G");
                }
                "G"
            },
            Note::Gs => {
                proof {
                    reveal_strlit("G#");
                }
                "G#"
            },
            Note::A => {
                proof {
                    reveal_strlit("A");
                }
                "A"
            },
            Note::As => {
                proof {
                    reveal_strlit("A#");
                }
                "A#"
            },
            Note::B => {
                proof {
                    reveal_strlit("B");
                }
                "B"
            },
        };
        assert(text@ =~= spec_class_name(*self));
        String::from_str(text)
    }
}

/// The natural pitch class that a capital letter names.
fn letter(c: char) -> (note: Option<Note>)
    ensures
        note == spec_letter(c),
{
    if c == 'A' {
        Some(Note::A)
    } else if c == 'B' {
        Some(Note::B)
    } else if c == 'C' {
        Some(Note::C)
    } else if c == 'D' {
        Some(Note::D)
    } else if c == 'E' {
        Some(Note::E)
    } else if c == 'F' {
        Some(Note::F)
    } else if c == 'G' {
        Some(Note::G)
    } else {
        None
    }
}

/// The value of a decimal digit character.
pub fn digit_value(c: char) -> (value: Option<i8>)
    ensures
        match spec_digit_value(c) {
            Some(v) => value == Some(v as i8) && 0 <= v <= 9,
            None => value is None,
        },
{
    if c == '0' {
        Some(0)
    } else if c == '1' {
        Some(1)
    } else if c == '2' {
        Some(2)
    } else if c == '3' {
        Some(3)
    } else if c == '4' {
        Some(4)
    } else if c == '5' {
        Some(5)
    } else if c == '6' {
        Some(6)
    } else if c == '7' {
        Some(7)
    } else if c == '8' {
        Some(8)
    } else if c == '9' {
        Some(9)
    } else {
        None
    }
}

/// The one-character text of a decimal digit.
fn digit_text(digit: u8) -> (text: &'static str)
    requires
        digit <= 9,
    ensures
        text@ == seq![spec_digit_char(digit as int)],
{
    let text = if digit == 0 {
        proof {
            reveal_strlit("0");
        }
        "0"
    } else if digit == 1 {
        proof {
            reveal_strlit("1");
        }
        "1"
    } else if digit == 2 {
        proof {
            reveal_strlit("2");
        }
        "2"
    } else if digit == 3 {
        proof {
            reveal_strlit("3");
        }
        "3"
    } else if digit == 4 {
        proof {
            reveal_strlit("4");
        }
        "4"
    } else if digit == 5 {
        proof {
            reveal_strlit("5");
        }
        "5"
    } else if digit == 6 {
        proof {
            reveal_strlit("6");
        }
        "6"
    } else if digit == 7 {
        proof {
            reveal_strlit("7");
        }
        "7"
    } else if digit == 8 {
        proof {
            reveal_strlit("8");
        }
        "8"
    } else {
        proof {
            reveal_strlit("9");
        }
        "9"
    };
    assert(text@ =~= seq![spec_digit_char(digit as int)]);
    text
}

/// Writes an integer in decimal.
pub fn decimal_text(n: i8) -> (text: String)
    ensures
        text@ == spec_decimal(n as int),
{
    let mut text = String::new();
    let magnitude: u8 = if n < 0 {
        proof {
            reveal_strlit("-");
        }
        text.append("-");
        (-(n as i16)) as u8
    } else {
        n as u8
    };
    let ghost sign = text@;
    assert(sign =~= if n < 0 {
        seq!['-']
    } else {
        Seq::<char>::empty()
    });
    if magnitude >= 100 {
        text.append(digit_text(magnitude / 100));
    }
    if magnitude >= 10 {
        text.append(digit_text((magnitude / 10) % 10));
    }
    text.append(digit_text(magnitude % 10));
    proof {
        let m = magnitude as nat;
        reveal_with_fuel(spec_digits, 3);
        assert(m / 10 / 10 == m / 100);
        assert(text@ =~= sign + spec_digits(m));
    }
    text
}

impl Pitch {
    /// The pitch of a MIDI note number: its class by the remainder of twelve,
    /// its octave one less than the quotient.
    pub fn from_midi(x: u8) -> (pitch: Self)
        ensures
            pitch.note == spec_class(x as int % 12),
            pitch.octave == x as int / 12 - 1,
    {
        let octave: i8 = (x / 12) as i8 - 1;
        let class: u8 = x % 12;
        let note = if class == 0 {
            Note::C
        } else if class == 1 {
            Note::Cs
        } else if class == 2 {
            Note::D
        } else if class == 3 {
            Note::Ds
        } else if class == 4 {
            Note::E
        } else if class == 5 {
            Note::F
        } else if class == 6 {
            Note::Fs
        } else if class == 7 {
            Note::G
        } else if class == 8 {
            Note::Gs
        } else if class == 9 {
            Note::A
        } else if class == 10 {
            Note::As
        } else {
            Note::B
        };
        Pitch { note, octave }
    }

    /// The pitch's written form, such as `C4` or `F#-1`.
    pub fn to_string(&self) -> (text: String)
        ensures
            text@ == spec_pitch_text(self.note, self.octave as int),
    {
        let mut text = self.note.name();
        let octave = decimal_text(self.octave);
        text.append(octave.as_str());
        text
    }

    /// Reads a pitch from its written form. Anything that is not exactly a
    /// letter, an optional accidental and one digit is refused with the
    /// message `couldn't parse`.
    pub fn try_from(value: String) -> (pitch: Result<Self, String>)
        ensures
            match spec_parse(value@) {
                Some(p) => pitch == Ok::<Pitch, String>(p),
                None => pitch matches Err(e) && e@ == "couldn't parse"@,
            },
    {
        let text = value.as_str();
        let len = text.unicode_len();
        if len == 2 {
            match (letter(text.get_char(0)), digit_value(text.get_char(1))) {
                (Some(note), Some(octave)) => {
                    return Ok(Pitch { note, octave });
                },
                _ => {},
            }
        } else if len == 3 {
            match (letter(text.get_char(0)), digit_value(text.get_char(2))) {
                (Some(note), Some(digit)) => {
                    let accidental = text.get_char(1);
                    if accidental == '#' {
                        let octave = if note == Note::B {
                            digit + 1
                        } else {
                            digit
                        };
                        return Ok(Pitch { note: Note::sharpen(note), octave });
                    } else if accidental == 'b' {
                        let octave = if note == Note::C {
                            digit - 1
                        } else {
                            digit
                        };
                        return Ok(Pitch { note: Note::flatten(note), octave });
                    }
                },
                _ => {},
            }
        }
        Err(String::from_str("couldn't parse"))
    }

    /// Reads a pitch from its written form, as `try_from` does.
    pub fn from_str(s: &str) -> (pitch: Result<Self, String>)
        ensures
            match spec_parse(s@) {
                Some(p) => pitch == Ok::<Pitch, String>(p),
                None => pitch matches Err(e) && e@ == "couldn't parse"@,
            },
    {
        Pitch::try_from(String::from_str(s))
    }
}

impl Default for Pitch {
    fn default() -> (pitch: Self)
        ensures
            pitch == (Pitch { note: Note::C, octave: 4 }),
    {
        Pitch { note: Note::C, octave: 4 }
    }
}

impl Default for Note {
    fn default() -> (note: Self)
        ensures
            note == Note::C,
    {
        Note::C
    }
}

} // verus!
