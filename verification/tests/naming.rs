use midimon::notes::note_name;
use midimon::tables::{cc_name, program_name};

#[test]
fn middle_c_and_neighbours() {
    assert_eq!(note_name(60), "C5");
    assert_eq!(note_name(61), "C#5");
    assert_eq!(note_name(0), "C0");
}

#[test]
fn every_pitch_class() {
    let names = ["C", "C#", "D", "D#", "E", "F", "F#", "G", "G#", "A", "A#", "B"];
    for (pc, base) in names.iter().enumerate() {
        assert_eq!(note_name(24 + pc as u8), format!("{}2", base));
    }
}

#[test]
fn highest_note() {
    assert_eq!(note_name(127), "G10");
}

#[test]
fn controller_names() {
    assert_eq!(cc_name(0), "Bank Select");
    assert_eq!(cc_name(7), "Volume");
    assert_eq!(cc_name(3), "Undefined");
    assert_eq!(cc_name(64), "Damper Pedal / Sustain Pedal");
    assert_eq!(cc_name(127), "Poly Mode");
    assert_eq!(cc_name(14), "Unknown");
    assert_eq!(cc_name(200), "Unknown");
}

#[test]
fn program_names() {
    assert_eq!(program_name(1), "Acoustic Grand Piano");
    assert_eq!(program_name(41), "Violin");
    assert_eq!(program_name(128), "Gunshot");
    assert_eq!(program_name(0), "Unknown");
    assert_eq!(program_name(129), "Unknown");
    assert_eq!(program_name(-5), "Unknown");
}
