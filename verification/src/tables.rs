//! Static name tables: the display names of MIDI controller numbers and of
//! General MIDI program numbers. Both are fixed data, queried by number, with
//! `"Unknown"` for any number the table does not cover.

use vstd::prelude::*;

verus! {

/// The display name of a MIDI controller number.
pub open spec fn cc_name_view(param: u32) -> Seq<char> {
    if param == 0 {
        "Bank Select"@
    } else if param == 1 {
        "Modulation"@
    } else if param == 2 {
        "Breath Controller"@
    } else if param == 3 {
        "Undefined"@
    } else if param == 4 {
        "Foot Controller"@
    } else if param == 5 {
        "Portamento Time"@
    } else if param == 6 {
        "Data Entry Most Significant Bit(MSB)"@
    } else if param == 7 {
        "Volume"@
    } else if param == 8 {
        "Balance"@
    } else if param == 9 {
        "Undefined"@
    } else if param == 10 {
        "Pan"@
    } else if param == 11 {
        "Expression"@
    } else if param == 12 {
        "Effect Controller 1"@
    } else if param == 13 {
        "Effect Controller 2"@
    } else if param == 64 {
        "Damper Pedal / Sustain Pedal"@
    } else if param == 65 {
        "Portamento On/Off Switch"@
    } else if param == 66 {
        "Sostenuto On/Off Switch"@
    } else if param == 67 {
        "Soft Pedal On/Off Switch"@
    } else if param == 68 {
        "Legato FootSwitch"@
    } else if param == 69 {
        "Hold 2"@
    } else if param == 70 {
        "Sound Controller 1"@
    } else if param == 71 {
        "Sound Controller 2"@
    } else if param == 72 {
        "Sound Controller 3"@
    } else if param == 73 {
        "Sound Controller 4"@
    } else if param == 74 {
        "Sound Controller 5"@
    } else if param == 75 {
        "Sound Controller 6"@
    } else if param == 76 {
        "Sound Controller 7"@
    } else if param == 77 {
        "Sound Controller 8"@
    } else if param == 78 {
        "Sound Controller 9"@
    } else if param == 79 {
        "Sound Controller 10"@
    } else if param == 80 {
        "General Purpose MIDI CC Controller"@
    } else if param == 81 {
        "General Purpose MIDI CC Controller"@
    } else if param == 82 {
        "General Purpose MIDI CC Controller"@
    } else if param == 83 {
        "General Purpose MIDI CC Controller"@
    } else if param == 84 {
        "Portamento CC Control"@
    } else if param == 91 {
        "Effect 1 Depth"@
    } else if param == 92 {
        "Effect 2 Depth"@
    } else if param == 93 {
        "Effect 3 Depth"@
    } else if param == 94 {
        "Effect 4 Depth"@
    } else if param == 95 {
        "Effect 5 Depth"@
    } else if param == 96 {
        "(+1) Data Increment"@
    } else if param == 97 {
        "(-1) Data Decrement"@
    } else if param == 98 {
        "Non-Registered Parameter Number LSB (NRPN)"@
    } else if param == 99 {
        "Non-Registered Parameter Number MSB (NRPN)"@
    } else if param == 100 {
        "Registered Parameter Number LSB (RPN)"@
    } else if param == 101 {
        "Registered Parameter Number MSB (RPN)"@
    } else if param == 120 {
        "All Sound Off"@
    } else if param == 121 {
        "Reset All Controllers"@
    } else if param == 122 {
        "Local On/Off Switch"@
    } else if param == 123 {
        "All Notes Off"@
    } else if param == 124 {
        "Omni Mode Off"@
    } else if param == 125 {
        "Omni Mode On"@
    } else if param == 126 {
        "Mono Mode"@
    } else if param == 127 {
        "Poly Mode"@
    } else {
        "Unknown"@
    }
}

/// Looks up the display name of a MIDI controller number.
pub fn cc_name(param: u32) -> (r: String)
    ensures
        r@ == cc_name_view(param),
{
    let s: &str = match param {
        0 => "Bank Select",
        1 => "Modulation",
        2 => "Breath Controller",
        3 => "Undefined",
        4 => "Foot Controller",
        5 => "Portamento Time",
        6 => "Data Entry Most Significant Bit(MSB)",
        7 => "Volume",
        8 => "Balance",
        9 => "Undefined",
        10 => "Pan",
        11 => "Expression",
        12 => "Effect Controller 1",
        13 => "Effect Controller 2",
        64 => "Damper Pedal / Sustain Pedal",
        65 => "Portamento On/Off Switch",
        66 => "Sostenuto On/Off Switch",
        67 => "Soft Pedal On/Off Switch",
        68 => "Legato FootSwitch",
        69 => "Hold 2",
        70 => "Sound Controller 1",
        71 => "Sound Controller 2",
        72 => "Sound Controller 3",
        73 => "Sound Controller 4",
        74 => "Sound Controller 5",
        75 => "Sound Controller 6",
        76 => "Sound Controller 7",
        77 => "Sound Controller 8",
        78 => "Sound Controller 9",
        79 => "Sound Controller 10",
        80 => "General Purpose MIDI CC Controller",
        81 => "General Purpose MIDI CC Controller",
        82 => "General Purpose MIDI CC Controller",
        83 => "General Purpose MIDI CC Controller",
        84 => "Portamento CC Control",
        91 => "Effect 1 Depth",
        92 => "Effect 2 Depth",
        93 => "Effect 3 Depth",
        94 => "Effect 4 Depth",
        95 => "Effect 5 Depth",
        96 => "(+1) Data Increment",
        97 => "(-1) Data Decrement",
        98 => "Non-Registered Parameter Number LSB (NRPN)",
        99 => "Non-Registered Parameter Number MSB (NRPN)",
        100 => "Registered Parameter Number LSB (RPN)",
        101 => "Registered Parameter Number MSB (RPN)",
        120 => "All Sound Off",
        121 => "Reset All Controllers",
        122 => "Local On/Off Switch",
        123 => "All Notes Off",
        124 => "Omni Mode Off",
        125 => "Omni Mode On",
        126 => "Mono Mode",
        127 => "Poly Mode",
        _ => "Unknown",
    };
    s.to_owned()
}

/// The display name of a General MIDI program number (one-based, as carried
/// in the event payload).
pub open spec fn program_name_view(program: i32) -> Seq<char> {
    if program == 1 {
        "Acoustic Grand Piano"@
    } else if program == 2 {
        "Bright Acoustic Piano"@
    } else if program == 3 {
        "Electric Grand Piano"@
    } else if program == 4 {
        "Honky-tonk Piano"@
    } else if program == 5 {
        "Electric Piano 1"@
    } else if program == 6 {
        "Electric Piano 2"@
    } else if program == 7 {
        "Harpsichord"@
    } else if program == 8 {
        "Clavi"@
    } else if program == 9 {
        "Celesta"@
    } else if program == 10 {
        "Glockenspiel"@
    } else if program == 11 {
        "Music Box"@
    } else if program == 12 {
        "Vibraphone"@
    } else if program == 13 {
        "Marimba"@
    } else if program == 14 {
        "Xylophone"@
    } else if program == 15 {
        "Tubular Bells"@
    } else if program == 16 {
        "Dulcimer"@
    } else if program == 17 {
        "Drawbar Organ"@
    } else if program == 18 {
        "Percussive Organ"@
    } else if program == 19 {
        "Rock Organ"@
    } else if program == 20 {
        "Church Organ"@
    } else if program == 21 {
        "Reed Organ"@
    } else if program == 22 {
        "Accordion"@
    } else if program == 23 {
        "Harmonica"@
    } else if program == 24 {
        "Tango Accordion"@
    } else if program == 25 {
        "Acoustic Guitar (nylon)"@
    } else if program == 26 {
        "Acoustic Guitar (steel)"@
    } else if program == 27 {
        "Electric Guitar (jazz)"@
    } else if program == 28 {
        "Electric Guitar (clean)"@
    } else if program == 29 {
        "Electric Guitar (muted)"@
    } else if program == 30 {
        "Overdriven Guitar"@
    } else if program == 31 {
        "Distortion Guitar"@
    } else if program == 32 {
        "Guitar harmonics"@
    } else if program == 33 {
        "Acoustic Bass"@
    } else if program == 34 {
        "Electric Bass (finger)"@
    } else if program == 35 {
        "Electric Bass (pick)"@
    } else if program == 36 {
        "Fretless Bass"@
    } else if program == 37 {
        "Slap Bass 1"@
    } else if program == 38 {
        "Slap Bass 2"@
    } else if program == 39 {
        "Synth Bass 1"@
    } else if program == 40 {
        "Synth Bass 2"@
    } else if program == 41 {
        "Violin"@
    } else if program == 42 {
        "Viola"@
    } else if program == 43 {
        "Cello"@
    } else if program == 44 {
        "Contrabass"@
    } else if program == 45 {
        "Tremolo Strings"@
    } else if program == 46 {
        "Pizzicato Strings"@
    } else if program == 47 {
        "Orchestral Harp"@
    } else if program == 48 {
        "Timpani"@
    } else if program == 49 {
        "String Ensemble 1"@
    } else if program == 50 {
        "String Ensemble 2"@
    } else if program == 51 {
        "SynthStrings 1"@
    } else if program == 52 {
        "SynthStrings 2"@
    } else if program == 53 {
        "Choir Aahs"@
    } else if program == 54 {
        "Voice Oohs"@
    } else if program == 55 {
        "Synth Voice"@
    } else if program == 56 {
        "Orchestra Hit"@
    } else if program == 57 {
        "Trumpet"@
    } else if program == 58 {
        "Trombone"@
    } else if program == 59 {
        "Tuba"@
    } else if program == 60 {
        "Muted Trumpet"@
    } else if program == 61 {
        "French Horn"@
    } else if program == 62 {
        "Brass Section"@
    } else if program == 63 {
        "SynthBrass 1"@
    } else if program == 64 {
        "SynthBrass 2"@
    } else if program == 65 {
        "Soprano Sax"@
    } else if program == 66 {
        "Alto Sax"@
    } else if program == 67 {
        "Tenor Sax"@
    } else if program == 68 {
        "Baritone Sax"@
    } else if program == 69 {
        "Oboe"@
    } else if program == 70 {
        "English Horn"@
    } else if program == 71 {
        "Bassoon"@
    } else if program == 72 {
        "Clarinet"@
    } else if program == 73 {
        "Piccolo"@
    } else if program == 74 {
        "Flute"@
    } else if program == 75 {
        "Recorder"@
    } else if program == 76 {
        "Pan Flute"@
    } else if program == 77 {
        "Blown Bottle"@
    } else if program == 78 {
        "Shakuhachi"@
    } else if program == 79 {
        "Whistle"@
    } else if program == 80 {
        "Ocarina"@
    } else if program == 81 {
        "Lead 1 (square)"@
    } else if program == 82 {
        "Lead 2 (sawtooth)"@
    } else if program == 83 {
        "Lead 3 (calliope)"@
    } else if program == 84 {
        "Lead 4 (chiff)"@
    } else if program == 85 {
        "Lead 5 (charang)"@
    } else if program == 86 {
        "Lead 6 (voice)"@
    } else if program == 87 {
        "Lead 7 (fifths)"@
    } else if program == 88 {
        "Lead 8 (bass + lead)"@
    } else if program == 89 {
        "Pad 1 (new age)"@
    } else if program == 90 {
        "Pad 2 (warm)"@
    } else if program == 91 {
        "Pad 3 (polysynth)"@
    } else if program == 92 {
        "Pad 4 (choir)"@
    } else if program == 93 {
        "Pad 5 (bowed)"@
    } else if program == 94 {
        "Pad 6 (metallic)"@
    } else if program == 95 {
        "Pad 7 (halo)"@
    } else if program == 96 {
        "Pad 8 (sweep)"@
    } else if program == 97 {
        "FX 1 (rain)"@
    } else if program == 98 {
        "FX 2 (soundtrack)"@
    } else if program == 99 {
        "FX 3 (crystal)"@
    } else if program == 100 {
        "FX 4 (atmosphere)"@
    } else if program == 101 {
        "FX 5 (brightness)"@
    } else if program == 102 {
        "FX 6 (goblins)"@
    } else if program == 103 {
        "FX 7 (echoes)"@
    } else if program == 104 {
        "FX 8 (sci-fi)"@
    } else if program == 105 {
        "Sitar"@
    } else if program == 106 {
        "Banjo"@
    } else if program == 107 {
        "Shamisen"@
    } else if program == 108 {
        "Koto"@
    } else if program == 109 {
        "Kalimba"@
    } else if program == 110 {
        "Bag pipe"@
    } else if program == 111 {
        "Fiddle"@
    } else if program == 112 {
        "Shanai"@
    } else if program == 113 {
        "Tinkle Bell"@
    } else if program == 114 {
        "Agogo"@
    } else if program == 115 {
        "Steel Drums"@
    } else if program == 116 {
        "Woodblock"@
    } else if program == 117 {
        "Taiko Drum"@
    } else if program == 118 {
        "Melodic Tom"@
    } else if program == 119 {
        "Synth Drum"@
    } else if program == 120 {
        "Reverse Cymbal"@
    } else if program == 121 {
        "Guitar Fret Noise"@
    } else if program == 122 {
        "Breath Noise"@
    } else if program == 123 {
        "Seashore"@
    } else if program == 124 {
        "Bird Tweet"@
    } else if program == 125 {
        "Telephone Ring"@
    } else if program == 126 {
        "Helicopter"@
    } else if program == 127 {
        "Applause"@
    } else if program == 128 {
        "Gunshot"@
    } else {
        "Unknown"@
    }
}

/// Looks up the display name of a General MIDI program number.
pub fn program_name(program: i32) -> (r: String)
    ensures
        r@ == program_name_view(program),
{
    let s: &str = match program {
        1 => "Acoustic Grand Piano",
        2 => "Bright Acoustic Piano",
        3 => "Electric Grand Piano",
        4 => "Honky-tonk Piano",
        5 => "Electric Piano 1",
        6 => "Electric Piano 2",
        7 => "Harpsichord",
        8 => "Clavi",
        9 => "Celesta",
        10 => "Glockenspiel",
        11 => "Music Box",
        12 => "Vibraphone",
        13 => "Marimba",
        14 => "Xylophone",
        15 => "Tubular Bells",
        16 => "Dulcimer",
        17 => "Drawbar Organ",
        18 => "Percussive Organ",
        19 => "Rock Organ",
        20 => "Church Organ",
        21 => "Reed Organ",
        22 => "Accordion",
        23 => "Harmonica",
        24 => "Tango Accordion",
        25 => "Acoustic Guitar (nylon)",
        26 => "Acoustic Guitar (steel)",
        27 => "Electric Guitar (jazz)",
        28 => "Electric Guitar (clean)",
        29 => "Electric Guitar (muted)",
        30 => "Overdriven Guitar",
        31 => "Distortion Guitar",
        32 => "Guitar harmonics",
        33 => "Acoustic Bass",
        34 => "Electric Bass (finger)",
        35 => "Electric Bass (pick)",
        36 => "Fretless Bass",
        37 => "Slap Bass 1",
        38 => "Slap Bass 2",
        39 => "Synth Bass 1",
        40 => "Synth Bass 2",
        41 => "Violin",
        42 => "Viola",
        43 => "Cello",
        44 => "Contrabass",
        45 => "Tremolo Strings",
        46 => "Pizzicato Strings",
        47 => "Orchestral Harp",
        48 => "Timpani",
        49 => "String Ensemble 1",
        50 => "String Ensemble 2",
        51 => "SynthStrings 1",
        52 => "SynthStrings 2",
        53 => "Choir Aahs",
        54 => "Voice Oohs",
        55 => "Synth Voice",
        56 => "Orchestra Hit",
        57 => "Trumpet",
        58 => "Trombone",
        59 => "Tuba",
        60 => "Muted Trumpet",
        61 => "French Horn",
        62 => "Brass Section",
        63 => "SynthBrass 1",
        64 => "SynthBrass 2",
        65 => "Soprano Sax",
        66 => "Alto Sax",
        67 => "Tenor Sax",
        68 => "Baritone Sax",
        69 => "Oboe",
        70 => "English Horn",
        71 => "Bassoon",
        72 => "Clarinet",
        73 => "Piccolo",
        74 => "Flute",
        75 => "Recorder",
        76 => "Pan Flute",
        77 => "Blown Bottle",
        78 => "Shakuhachi",
        79 => "Whistle",
        80 => "Ocarina",
        81 => "Lead 1 (square)",
        82 => "Lead 2 (sawtooth)",
        83 => "Lead 3 (calliope)",
        84 => "Lead 4 (chiff)",
        85 => "Lead 5 (charang)",
        86 => "Lead 6 (voice)",
        87 => "Lead 7 (fifths)",
        88 => "Lead 8 (bass + lead)",
        89 => "Pad 1 (new age)",
        90 => "Pad 2 (warm)",
        91 => "Pad 3 (polysynth)",
        92 => "Pad 4 (choir)",
        93 => "Pad 5 (bowed)",
        94 => "Pad 6 (metallic)",
        95 => "Pad 7 (halo)",
        96 => "Pad 8 (sweep)",
        97 => "FX 1 (rain)",
        98 => "FX 2 (soundtrack)",
        99 => "FX 3 (crystal)",
        100 => "FX 4 (atmosphere)",
        101 => "FX 5 (brightness)",
        102 => "FX 6 (goblins)",
        103 => "FX 7 (echoes)",
        104 => "FX 8 (sci-fi)",
        105 => "Sitar",
        106 => "Banjo",
        107 => "Shamisen",
        108 => "Koto",
        109 => "Kalimba",
        110 => "Bag pipe",
        111 => "Fiddle",
        112 => "Shanai",
        113 => "Tinkle Bell",
        114 => "Agogo",
        115 => "Steel Drums",
        116 => "Woodblock",
        117 => "Taiko Drum",
        118 => "Melodic Tom",
        119 => "Synth Drum",
        120 => "Reverse Cymbal",
        121 => "Guitar Fret Noise",
        122 => "Breath Noise",
        123 => "Seashore",
        124 => "Bird Tweet",
        125 => "Telephone Ring",
        126 => "Helicopter",
        127 => "Applause",
        128 => "Gunshot",
        _ => "Unknown",
    };
    s.to_owned()
}

} // verus!
