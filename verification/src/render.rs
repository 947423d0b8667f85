//! The renderable line: what one non-suppressed event becomes on the
//! terminal. A line carries the elapsed time, the source endpoint's display
//! name, an event label with its display style, and an event-specific detail
//! column; the detail text of each event kind is specified here exactly.

use vstd::prelude::*;
use vstd::string::StringExecFns;
use crate::addr::Addr;
use crate::fmt::bpm_view;
use crate::fmt::dec_str;
use crate::fmt::format_bpm;
use crate::fmt::pad_left_view;
use crate::fmt::pad_right;
use crate::fmt::pad_right_view;
use crate::fmt::pad_u64;
use crate::fmt::pad_i32;
use crate::fmt::i32_to_string;
use crate::fmt::u64_to_string;
use crate::notes::note_name;
use crate::notes::note_name_view;
use crate::tables::cc_name;
use crate::tables::cc_name_view;
use crate::tables::program_name;
use crate::tables::program_name_view;

verus! {

/// The display style of an event label.
#[derive(Clone, Copy, PartialEq, Eq, Structural, Debug)]
pub enum Style {
    /// Emphasis for notes going down and endpoints appearing.
    Green,
    /// Notes going up (or down with zero velocity) and endpoints departing.
    Red,
    /// Controller changes.
    Blue,
    /// Transport and channel messages.
    Purple,
    /// Unclassified events.
    Cyan,
}

/// The mathematical content of a renderable line.
pub struct LineView {
    /// A bare newline must be printed first, to end a redrawable line still
    /// standing on the terminal.
    pub newline_before: bool,
    /// The line is printed without a trailing newline and may be overwritten
    /// in place by the next redrawable line.
    pub redrawable: bool,
    /// Elapsed time since startup, in microseconds.
    pub elapsed_us: u64,
    /// The source endpoint's display name.
    pub origin: Seq<char>,
    /// The event label.
    pub label: Seq<char>,
    /// The label's display style.
    pub style: Style,
    /// The event-specific detail column.
    pub detail: Seq<char>,
}

/// One renderable line of the trace.
pub struct Line {
    /// A bare newline must be printed first, to end a redrawable line still
    /// standing on the terminal.
    pub newline_before: bool,
    /// The line is printed without a trailing newline and may be overwritten
    /// in place by the next redrawable line.
    pub redrawable: bool,
    /// Elapsed time since startup, in microseconds.
    pub elapsed_us: u64,
    /// The source endpoint's display name.
    pub origin: String,
    /// The event label.
    pub label: String,
    /// The label's display style.
    pub style: Style,
    /// The event-specific detail column.
    pub detail: String,
}

impl View for Line {
    type V = LineView;

    open spec fn view(&self) -> LineView {
        LineView {
            newline_before: self.newline_before,
            redrawable: self.redrawable,
            elapsed_us: self.elapsed_us,
            origin: self.origin@,
            label: self.label@,
            style: self.style,
            detail: self.detail@,
        }
    }
}

/// The outcome of handling one event: at most one renderable line, and at
/// most one endpoint to subscribe to the monitor's input.
pub struct Step {
    /// The line to print, or nothing for a suppressed intra-beat clock tick.
    pub line: Option<Line>,
    /// An endpoint the autoconnect policy asks to subscribe.
    pub subscribe: Option<Addr>,
}

/// The mathematical content of a `Step`.
pub struct StepView {
    /// The line to print, or nothing for a suppressed intra-beat clock tick.
    pub line: Option<LineView>,
    /// An endpoint the autoconnect policy asks to subscribe.
    pub subscribe: Option<Addr>,
}

impl View for Step {
    type V = StepView;

    open spec fn view(&self) -> StepView {
        StepView {
            line: match self.line {
                Some(l) => Some(l@),
                None => None,
            },
            subscribe: self.subscribe,
        }
    }
}

/// The detail column of a note event: channel, note name, note number and
/// velocity.
pub open spec fn note_detail_view(channel: u8, note: u8, velocity: u8) -> Seq<char> {
    "Channel "@ + pad_left_view(dec_str(channel as int), 2) + " | "@ + pad_right_view(
        note_name_view(note as int),
        3,
    ) + " ("@ + dec_str(note as int) + ") | "@ + dec_str(velocity as int)
}

/// Renders the detail column of a note event.
pub fn note_detail(channel: u8, note: u8, velocity: u8) -> (r: String)
    ensures
        r@ == note_detail_view(channel, note, velocity),
{
    let mut s = String::new();
    s.append("Channel ");
    let c = pad_u64(channel as u64, 2);
    s.append(c.as_str());
    s.append(" | ");
    let name = note_name(note);
    let padded = pad_right(name.as_str(), 3);
    s.append(padded.as_str());
    s.append(" (");
    let num = u64_to_string(note as u64);
    s.append(num.as_str());
    s.append(") | ");
    let vel = u64_to_string(velocity as u64);
    s.append(vel.as_str());
    proof {
        assert(s@ =~= note_detail_view(channel, note, velocity));
    }
    s
}

/// The detail column of a controller change: channel, controller number,
/// value and the controller's display name.
pub open spec fn cc_detail_view(channel: u8, param: u32, value: i32) -> Seq<char> {
    "Channel "@ + pad_left_view(dec_str(channel as int), 2) + " | CC "@ + pad_left_view(
        dec_str(param as int),
        3,
    ) + " | "@ + pad_left_view(dec_str(value as int), 3) + " | "@ + cc_name_view(param) + " "@
}

/// Renders the detail column of a controller change.
pub fn cc_detail(channel: u8, param: u32, value: i32) -> (r: String)
    ensures
        r@ == cc_detail_view(channel, param, value),
{
    let mut s = String::new();
    s.append("Channel ");
    let c = pad_u64(channel as u64, 2);
    s.append(c.as_str());
    s.append(" | CC ");
    let p = pad_u64(param as u64, 3);
    s.append(p.as_str());
    s.append(" | ");
    let v = pad_i32(value, 3);
    s.append(v.as_str());
    s.append(" | ");
    let name = cc_name(param);
    s.append(name.as_str());
    s.append(" ");
    proof {
        assert(s@ =~= cc_detail_view(channel, param, value));
    }
    s
}

/// The detail column of a pitch-bend event: channel and raw value.
pub open spec fn pitch_bend_detail_view(channel: u8, value: i32) -> Seq<char> {
    "Channel "@ + pad_left_view(dec_str(channel as int), 2) + " | "@ + dec_str(value as int)
        + " "@
}

/// Renders the detail column of a pitch-bend event.
pub fn pitch_bend_detail(channel: u8, value: i32) -> (r: String)
    ensures
        r@ == pitch_bend_detail_view(channel, value),
{
    let mut s = String::new();
    s.append("Channel ");
    let c = pad_u64(channel as u64, 2);
    s.append(c.as_str());
    s.append(" | ");
    let v = i32_to_string(value);
    s.append(v.as_str());
    s.append(" ");
    proof {
        assert(s@ =~= pitch_bend_detail_view(channel, value));
    }
    s
}

/// The detail column of a program change: program number and its display
/// name.
pub open spec fn program_detail_view(value: i32) -> Seq<char> {
    pad_left_view(dec_str(value as int), 3) + " | "@ + program_name_view(value)
}

/// Renders the detail column of a program change.
pub fn program_detail(value: i32) -> (r: String)
    ensures
        r@ == program_detail_view(value),
{
    let mut s = pad_i32(value, 3);
    s.append(" | ");
    let name = program_name(value);
    s.append(name.as_str());
    proof {
        assert(s@ =~= program_detail_view(value));
    }
    s
}

/// The detail column of a channel-pressure event: channel and value.
pub open spec fn channel_pressure_detail_view(channel: u8, value: i32) -> Seq<char> {
    "Channel "@ + pad_left_view(dec_str(channel as int), 2) + " | "@ + dec_str(value as int)
}

/// Renders the detail column of a channel-pressure event.
pub fn channel_pressure_detail(channel: u8, value: i32) -> (r: String)
    ensures
        r@ == channel_pressure_detail_view(channel, value),
{
    let mut s = String::new();
    s.append("Channel ");
    let c = pad_u64(channel as u64, 2);
    s.append(c.as_str());
    s.append(" | ");
    let v = i32_to_string(value);
    s.append(v.as_str());
    proof {
        assert(s@ =~= channel_pressure_detail_view(channel, value));
    }
    s
}

/// The detail column of the once-per-beat tempo line: the estimated tempo
/// and the running tick count.
pub open spec fn clock_detail_view(bpm_tenths: int, ticks: int) -> Seq<char> {
    bpm_view(bpm_tenths) + " BPM | Clock Position "@ + dec_str(ticks)
}

/// Renders the detail column of the tempo line.
pub fn clock_detail(bpm_tenths: u64, ticks: u64) -> (r: String)
    ensures
        r@ == clock_detail_view(bpm_tenths as int, ticks as int),
{
    let mut s = format_bpm(bpm_tenths);
    s.append(" BPM | Clock Position ");
    let t = u64_to_string(ticks);
    s.append(t.as_str());
    proof {
        assert(s@ =~= clock_detail_view(bpm_tenths as int, ticks as int));
    }
    s
}

/// The detail column of a subscription notification: the two endpoints'
/// display names side by side.
pub open spec fn subscription_detail_view(sender: Seq<char>, dest: Seq<char>) -> Seq<char> {
    pad_right_view(sender, 20) + " | "@ + pad_right_view(dest, 20)
}

/// Renders the detail column of a subscription notification.
pub fn subscription_detail(sender: &str, dest: &str) -> (r: String)
    ensures
        r@ == subscription_detail_view(sender@, dest@),
{
    let mut s = pad_right(sender, 20);
    s.append(" | ");
    let d = pad_right(dest, 20);
    s.append(d.as_str());
    proof {
        assert(s@ =~= subscription_detail_view(sender@, dest@));
    }
    s
}

} // verus!
