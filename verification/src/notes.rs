//! Note naming: a MIDI note number becomes a pitch class and an octave,
//! `60` is `"C5"` and `0` is `"C0"`.

use vstd::prelude::*;
use vstd::string::StringExecFns;
use crate::fmt::dec_str;
use crate::fmt::u64_to_string;

verus! {

/// The pitch-class name for `note mod 12` (meaningful for `0 <= pc < 12`).
pub open spec fn pitch_class_view(pc: int) -> Seq<char> {
    if pc == 0 {
        "C"@
    } else if pc == 1 {
        "C#"@
    } else if pc == 2 {
        "D"@
    } else if pc == 3 {
        "D#"@
    } else if pc == 4 {
        "E"@
    } else if pc == 5 {
        "F"@
    } else if pc == 6 {
        "F#"@
    } else if pc == 7 {
        "G"@
    } else if pc == 8 {
        "G#"@
    } else if pc == 9 {
        "A"@
    } else if pc == 10 {
        "A#"@
    } else {
        "B"@
    }
}

/// The display name of a note number: its pitch class followed by its octave,
/// where the octave is the note number divided by twelve.
pub open spec fn note_name_view(note: int) -> Seq<char> {
    pitch_class_view(note % 12) + dec_str(note / 12)
}

fn pitch_class_str(pc: u8) -> (r: &'static str)
    requires
        pc < 12,
    ensures
        r@ == pitch_class_view(pc as int),
{
    match pc {
        0 => "C",
        1 => "C#",
        2 => "D",
        3 => "D#",
        4 => "E",
        5 => "F",
        6 => "F#",
        7 => "G",
        8 => "G#",
        9 => "A",
        10 => "A#",
        _ => "B",
    }
}

/// Renders the display name of a note number.
pub fn note_name(note: u8) -> (r: String)
    ensures
        r@ == note_name_view(note as int),
{
    let mut s = String::new();
    s.append(pitch_class_str(note % 12));
    let octave = u64_to_string((note / 12) as u64);
    s.append(octave.as_str());
    proof {
        assert(s@ =~= note_name_view(note as int));
    }
    s
}

} // verus!
