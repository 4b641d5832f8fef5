use bindmidi::common::note::{Note, Pitch};

#[test]
fn pitch_from_midi() {
    let midi_note: u8 = 60;
    let pitch = Pitch::from_midi(midi_note);

    assert_eq!(pitch.to_string(), "C4");
}

#[test]
fn pitch_from_midi_covers_the_lowest_octave() {
    assert_eq!(Pitch::from_midi(0).to_string(), "C-1");
    assert_eq!(Pitch::from_midi(11).to_string(), "B-1");
    assert_eq!(Pitch::from_midi(12).to_string(), "C0");
    assert_eq!(Pitch::from_midi(127).to_string(), "G9");
    assert_eq!(Pitch::from_midi(255).to_string(), "D#20");
}

#[test]
fn pitch_parses_plain_sharp_and_flat() {
    assert_eq!(Pitch::try_from("C4".to_string()), Ok(Pitch { note: Note::C, octave: 4 }));
    assert_eq!(Pitch::try_from("F#3".to_string()), Ok(Pitch { note: Note::Fs, octave: 3 }));
    assert_eq!(Pitch::try_from("Eb2".to_string()), Ok(Pitch { note: Note::Ds, octave: 2 }));
    assert_eq!(Pitch::from_str("A0"), Ok(Pitch { note: Note::A, octave: 0 }));
}

#[test]
fn pitch_accidentals_cross_the_octave() {
    assert_eq!(Pitch::from_str("B#4"), Ok(Pitch { note: Note::C, octave: 5 }));
    assert_eq!(Pitch::from_str("Cb4"), Ok(Pitch { note: Note::B, octave: 3 }));
    assert_eq!(Pitch::from_str("Cb0"), Ok(Pitch { note: Note::B, octave: -1 }));
    assert_eq!(Pitch::from_str("B#9"), Ok(Pitch { note: Note::C, octave: 10 }));
}

#[test]
fn pitch_refuses_other_text() {
    for text in ["", "C", "c4", "H4", "C10", "C#", "C##4", "C4 ", " C4", "Cx4", "4C", "C-1", "C♯4"] {
        assert_eq!(Pitch::from_str(text), Err("couldn't parse".to_string()), "{text:?}");
    }
}

#[test]
fn pitch_default_is_middle_c() {
    assert_eq!(Pitch::default(), Pitch { note: Note::C, octave: 4 });
    assert_eq!(Note::default(), Note::C);
}

#[test]
fn sharpen_and_flatten_walk_the_twelve_classes() {
    let classes = [
        Note::C, Note::Cs, Note::D, Note::Ds, Note::E, Note::F,
        Note::Fs, Note::G, Note::Gs, Note::A, Note::As, Note::B,
    ];
    for i in 0..12 {
        assert_eq!(Note::sharpen(classes[i]), classes[(i + 1) % 12]);
        assert_eq!(Note::flatten(classes[i]), classes[(i + 11) % 12]);
        assert_eq!(Note::flatten(Note::sharpen(classes[i])), classes[i]);
    }
}

#[test]
fn class_names_use_sharps() {
    assert_eq!(Note::C.name(), "C");
    assert_eq!(Note::Cs.name(), "C#");
    assert_eq!(Note::As.name(), "A#");
    assert_eq!(Note::B.name(), "B");
}
