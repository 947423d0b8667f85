//! The event classifier and renderer: one inbound event plus the session
//! state becomes a new session state, at most one renderable line, and at
//! most one subscription request. The whole transition is specified by the
//! `step` function; `Monitor::handle_event` is proved to implement it.
//!
//! The redrawable-line discipline lives here: the once-per-beat tempo line is
//! printed without a trailing newline and overwritten in place, so the next
//! line of any other kind must first emit a bare newline to end it.

use vstd::prelude::*;
use vstd::string::StringExecFns;
use crate::addr::Addr;
use crate::event::Event;
use crate::names::NameCache;
use crate::names::composed_name;
use crate::names::resolved_name;
use crate::render::Line;
use crate::render::LineView;
use crate::render::Step;
use crate::render::StepView;
use crate::render::Style;
use crate::render::cc_detail;
use crate::render::cc_detail_view;
use crate::render::channel_pressure_detail;
use crate::render::channel_pressure_detail_view;
use crate::render::clock_detail;
use crate::render::clock_detail_view;
use crate::render::note_detail;
use crate::render::note_detail_view;
use crate::render::pitch_bend_detail;
use crate::render::pitch_bend_detail_view;
use crate::render::program_detail;
use crate::render::program_detail_view;
use crate::render::subscription_detail;
use crate::render::subscription_detail_view;
use crate::tempo::Tempo;
use crate::tempo::bpm_tenths_of;
use crate::tempo::ema_next;
use crate::tempo::emits_at;
use crate::tempo::tick_interval;

verus! {

/// The mathematical state of the monitor session.
pub struct MonitorView {
    /// Whether arriving ports are subscribed automatically.
    pub autoconnect: bool,
    /// The tempo estimator's state.
    pub tempo: Tempo,
    /// The endpoint name cache's contents.
    pub names: Map<Addr, Seq<char>>,
    /// Whether the last printed line was a redrawable tempo line that still
    /// stands unterminated on the terminal.
    pub redrawable: bool,
}

/// The state change and output of an ordinary (non-suppressed, not
/// redrawable) line: the pending redrawable line, if any, is terminated by a
/// bare newline first, and the flag is cleared.
pub open spec fn rendered(
    v: MonitorView,
    now_us: u64,
    origin: Seq<char>,
    label: Seq<char>,
    style: Style,
    detail: Seq<char>,
    subscribe: Option<Addr>,
) -> (MonitorView, StepView) {
    (
        MonitorView { redrawable: false, ..v },
        StepView {
            line: Some(
                LineView {
                    newline_before: v.redrawable,
                    redrawable: false,
                    elapsed_us: now_us,
                    origin,
                    label,
                    style,
                    detail,
                },
            ),
            subscribe,
        },
    )
}

/// The monitor's transition function: what one inbound event from `source`
/// at elapsed time `now_us` does to the session state, which line it prints,
/// and which endpoint it asks to subscribe.
pub open spec fn step(v: MonitorView, source: Addr, ev: Event, now_us: u64) -> (
    MonitorView,
    StepView,
) {
    let origin = resolved_name(v.names, source);
    match ev {
        Event::NoteOn { channel, note, velocity } => rendered(
            v,
            now_us,
            origin,
            "Note ON "@,
            if velocity > 0 {
                Style::Green
            } else {
                Style::Red
            },
            note_detail_view(channel, note, velocity),
            None,
        ),
        Event::NoteOff { channel, note, velocity } => rendered(
            v,
            now_us,
            origin,
            "Note OFF"@,
            Style::Red,
            note_detail_view(channel, note, velocity),
            None,
        ),
        Event::ControlChange { channel, param, value } => rendered(
            v,
            now_us,
            origin,
            "Controller Change"@,
            Style::Blue,
            cc_detail_view(channel, param, value),
            None,
        ),
        Event::PitchBend { channel, value } => rendered(
            v,
            now_us,
            origin,
            "Pitch Bend"@,
            Style::Purple,
            pitch_bend_detail_view(channel, value),
            None,
        ),
        Event::ProgramChange { channel: _, value } => rendered(
            v,
            now_us,
            origin,
            "Program Change"@,
            Style::Purple,
            program_detail_view(value),
            None,
        ),
        Event::ChannelPressure { channel, value } => rendered(
            v,
            now_us,
            origin,
            "Channel Pressure"@,
            Style::Purple,
            channel_pressure_detail_view(channel, value),
            None,
        ),
        Event::TimingClock => {
            let t2 = Tempo {
                ticks: (v.tempo.ticks + 1) as u64,
                last_tick_us: now_us,
                smoothed_us_per_tick: ema_next(
                    v.tempo.smoothed_us_per_tick as int,
                    tick_interval(v.tempo.last_tick_us as int, now_us as int),
                ) as u64,
            };
            if emits_at(t2.ticks as int) {
                (
                    MonitorView { tempo: t2, redrawable: true, ..v },
                    StepView {
                        line: Some(
                            LineView {
                                newline_before: false,
                                redrawable: true,
                                elapsed_us: now_us,
                                origin,
                                label: "Clock"@,
                                style: Style::Purple,
                                detail: clock_detail_view(
                                    bpm_tenths_of(t2.smoothed_us_per_tick as int),
                                    t2.ticks as int,
                                ),
                            },
                        ),
                        subscribe: None,
                    },
                )
            } else {
                (MonitorView { tempo: t2, ..v }, StepView { line: None, subscribe: None })
            }
        },
        Event::Start => rendered(
            MonitorView { tempo: Tempo { ticks: 0, ..v.tempo }, ..v },
            now_us,
            origin,
            "Start"@,
            Style::Purple,
            Seq::empty(),
            None,
        ),
        Event::Stop => rendered(v, now_us, origin, "Stop"@, Style::Purple, Seq::empty(), None),
        Event::Continue => rendered(
            v,
            now_us,
            origin,
            "Continue"@,
            Style::Purple,
            Seq::empty(),
            None,
        ),
        Event::ClientArrived { addr } => rendered(
            v,
            now_us,
            origin,
            "ClientStart"@,
            Style::Green,
            resolved_name(v.names, addr),
            None,
        ),
        Event::PortArrived { addr } => rendered(
            v,
            now_us,
            origin,
            "PortStart"@,
            Style::Green,
            resolved_name(v.names, addr),
            if v.autoconnect {
                Some(addr)
            } else {
                None
            },
        ),
        Event::ClientDeparted { addr } => rendered(
            v,
            now_us,
            origin,
            "ClientExit"@,
            Style::Red,
            resolved_name(v.names, addr),
            None,
        ),
        Event::PortDeparted { addr } => {
            let (v2, out) = rendered(
                v,
                now_us,
                origin,
                "PortExit"@,
                Style::Red,
                resolved_name(v.names, addr),
                None,
            );
            (MonitorView { names: v.names.remove(addr), ..v2 }, out)
        },
        Event::PortSubscribed { sender, dest } => rendered(
            v,
            now_us,
            origin,
            "PortSubscribed"@,
            Style::Green,
            subscription_detail_view(resolved_name(v.names, sender), resolved_name(v.names, dest)),
            None,
        ),
        Event::PortUnsubscribed { sender, dest } => rendered(
            v,
            now_us,
            origin,
            "PortUnsubscribed"@,
            Style::Red,
            subscription_detail_view(resolved_name(v.names, sender), resolved_name(v.names, dest)),
            None,
        ),
        Event::Other { description } => rendered(
            v,
            now_us,
            origin,
            description@,
            Style::Cyan,
            Seq::empty(),
            None,
        ),
    }
}

/// The monitor session: the autoconnect setting, the tempo estimator, the
/// endpoint name cache, and the redrawable-line flag.
pub struct Monitor {
    autoconnect: bool,
    tempo: Tempo,
    names: NameCache,
    redrawable: bool,
}

impl View for Monitor {
    type V = MonitorView;

    closed spec fn view(&self) -> MonitorView {
        MonitorView {
            autoconnect: self.autoconnect,
            tempo: self.tempo,
            names: self.names@,
            redrawable: self.redrawable,
        }
    }
}

impl Monitor {
    /// The session invariant: the tempo estimator's smoothed interval stays
    /// strictly positive.
    pub open spec fn wf(self) -> bool {
        self@.tempo.wf()
    }

    /// A fresh session: no ticks seen, the tempo seeded at 120 BPM, an empty
    /// name cache, and a clean terminal line.
    pub fn new(autoconnect: bool) -> (r: Monitor)
        ensures
            r.wf(),
            r@ == (MonitorView {
                autoconnect,
                tempo: Tempo {
                    ticks: 0,
                    last_tick_us: 0,
                    smoothed_us_per_tick: crate::tempo::SEED_US_PER_TICK,
                },
                names: Map::<Addr, Seq<char>>::empty(),
                redrawable: false,
            }),
    {
        Monitor { autoconnect, tempo: Tempo::new(), names: NameCache::new(), redrawable: false }
    }

    /// Whether another timing-clock tick can still be counted: false only
    /// once the tick counter has reached its maximum.
    pub fn can_tick(&self) -> (r: bool)
        ensures
            r == (self@.tempo.ticks < u64::MAX),
    {
        self.tempo.ticks < u64::MAX
    }

    /// Whether resolving `a` would need a transport query: true exactly when
    /// the name cache holds no entry for it.
    pub fn needs_query(&self, a: Addr) -> (r: bool)
        ensures
            r == !self@.names.contains_key(a),
    {
        self.names.needs_query(a)
    }

    /// Records the transport's answer to a name query for `a`; nothing else
    /// of the session changes.
    pub fn record_name(&mut self, a: Addr, client_name: &str, port_name: &str) -> (r: String)
        ensures
            final(self)@ == (MonitorView {
                names: old(self)@.names.insert(a, composed_name(client_name@, port_name@)),
                ..old(self)@
            }),
            r@ == composed_name(client_name@, port_name@),
    {
        self.names.record(a, client_name, port_name)
    }

    /// The display name the monitor uses for `a`: the cached name, or the
    /// synthetic `"client:port"` label when none is cached.
    pub fn resolve_name(&self, a: Addr) -> (r: String)
        ensures
            r@ == resolved_name(self@.names, a),
    {
        self.names.resolve(a)
    }

    fn normal_line(
        &mut self,
        now_us: u64,
        origin: String,
        label: &str,
        style: Style,
        detail: String,
        subscribe: Option<Addr>,
    ) -> (r: Step)
        ensures
            (final(self)@, r@) == rendered(
                old(self)@,
                now_us,
                origin@,
                label@,
                style,
                detail@,
                subscribe,
            ),
    {
        let newline_before = self.redrawable;
        self.redrawable = false;
        Step {
            line: Some(
                Line {
                    newline_before,
                    redrawable: false,
                    elapsed_us: now_us,
                    origin,
                    label: label.to_owned(),
                    style,
                    detail,
                },
            ),
            subscribe,
        }
    }

    /// Classifies and renders one inbound event: the session state advances
    /// and the result carries the line to print (if any) and the endpoint to
    /// subscribe (if any), exactly as the `step` function says.
    pub fn handle_event(&mut self, source: Addr, ev: &Event, now_us: u64) -> (r: Step)
        requires
            old(self).wf(),
            old(self)@.tempo.ticks < u64::MAX,
        ensures
            final(self).wf(),
            ({
                let (v2, out) = step(old(self)@, source, *ev, now_us);
                final(self)@ == v2 && r@ == out
            }),
    {
        let origin = self.names.resolve(source);
        match ev {
            Event::NoteOn { channel, note, velocity } => {
                let style = if *velocity > 0 {
                    Style::Green
                } else {
                    Style::Red
                };
                let detail = note_detail(*channel, *note, *velocity);
                self.normal_line(now_us, origin, "Note ON ", style, detail, None)
            },
            Event::NoteOff { channel, note, velocity } => {
                let detail = note_detail(*channel, *note, *velocity);
                self.normal_line(now_us, origin, "Note OFF", Style::Red, detail, None)
            },
            Event::ControlChange { channel, param, value } => {
                let detail = cc_detail(*channel, *param, *value);
                self.normal_line(now_us, origin, "Controller Change", Style::Blue, detail, None)
            },
            Event::PitchBend { channel, value } => {
                let detail = pitch_bend_detail(*channel, *value);
                self.normal_line(now_us, origin, "Pitch Bend", Style::Purple, detail, None)
            },
            Event::ProgramChange { channel: _, value } => {
                let detail = program_detail(*value);
                self.normal_line(now_us, origin, "Program Change", Style::Purple, detail, None)
            },
            Event::ChannelPressure { channel, value } => {
                let detail = channel_pressure_detail(*channel, *value);
                self.normal_line(now_us, origin, "Channel Pressure", Style::Purple, detail, None)
            },
            Event::TimingClock => {
                let emit = self.tempo.on_tick(now_us);
                if emit {
                    let bpm = self.tempo.bpm_tenths();
                    let detail = clock_detail(bpm, self.tempo.ticks);
                    self.redrawable = true;
                    Step {
                        line: Some(
                            Line {
                                newline_before: false,
                                redrawable: true,
                                elapsed_us: now_us,
                                origin,
                                label: "Clock".to_owned(),
                                style: Style::Purple,
                                detail,
                            },
                        ),
                        subscribe: None,
                    }
                } else {
                    Step { line: None, subscribe: None }
                }
            },
            Event::Start => {
                self.tempo.on_start();
                self.normal_line(now_us, origin, "Start", Style::Purple, String::new(), None)
            },
            Event::Stop => {
                self.normal_line(now_us, origin, "Stop", Style::Purple, String::new(), None)
            },
            Event::Continue => {
                self.normal_line(now_us, origin, "Continue", Style::Purple, String::new(), None)
            },
            Event::ClientArrived { addr } => {
                let detail = self.names.resolve(*addr);
                self.normal_line(now_us, origin, "ClientStart", Style::Green, detail, None)
            },
            Event::PortArrived { addr } => {
                let detail = self.names.resolve(*addr);
                let subscribe = if self.autoconnect {
                    Some(*addr)
                } else {
                    None
                };
                self.normal_line(now_us, origin, "PortStart", Style::Green, detail, subscribe)
            },
            Event::ClientDeparted { addr } => {
                let detail = self.names.resolve(*addr);
                self.normal_line(now_us, origin, "ClientExit", Style::Red, detail, None)
            },
            Event::PortDeparted { addr } => {
                let detail = self.names.resolve(*addr);
                let r = self.normal_line(now_us, origin, "PortExit", Style::Red, detail, None);
                self.names.forget(*addr);
                r
            },
            Event::PortSubscribed { sender, dest } => {
                let n1 = self.names.resolve(*sender);
                let n2 = self.names.resolve(*dest);
                let detail = subscription_detail(n1.as_str(), n2.as_str());
                self.normal_line(now_us, origin, "PortSubscribed", Style::Green, detail, None)
            },
            Event::PortUnsubscribed { sender, dest } => {
                let n1 = self.names.resolve(*sender);
                let n2 = self.names.resolve(*dest);
                let detail = subscription_detail(n1.as_str(), n2.as_str());
                self.normal_line(now_us, origin, "PortUnsubscribed", Style::Red, detail, None)
            },
            Event::Other { description } => {
                let label = description.clone();
                self.normal_line(now_us, origin, label.as_str(), Style::Cyan, String::new(), None)
            },
        }
    }
}

/// Redraw discipline. A timing-clock tick prints either nothing or a
/// redrawable line; it never inserts the bare newline and never clears the
/// redrawable flag, so consecutive tempo lines overwrite each other with no
/// newline between them. Every other event prints exactly one ordinary line,
/// preceded by a bare newline exactly when a redrawable line still stands,
/// and leaves the flag cleared — so exactly one newline separates a tempo
/// line from the next ordinary line.
pub proof fn lemma_redraw_discipline(v: MonitorView, source: Addr, ev: Event, now_us: u64)
    ensures
        ev is TimingClock ==> {
            let (v2, out) = step(v, source, ev, now_us);
            &&& match out.line {
                Some(l) => l.redrawable && !l.newline_before,
                None => true,
            }
            &&& out.line is Some <==> emits_at(((v.tempo.ticks + 1) as u64) as int)
            &&& out.line is Some ==> v2.redrawable
            &&& out.line is None ==> v2.redrawable == v.redrawable
        },
        !(ev is TimingClock) ==> {
            let (v2, out) = step(v, source, ev, now_us);
            &&& out.line is Some
            &&& out.line->Some_0.newline_before == v.redrawable
            &&& !out.line->Some_0.redrawable
            &&& !v2.redrawable
        },
{
}

} // verus!
