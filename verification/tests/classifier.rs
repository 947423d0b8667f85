use midimon::addr::Addr;
use midimon::event::{addrs_to_resolve, Event};
use midimon::monitor::Monitor;
use midimon::render::{Line, Step, Style};

const SRC: Addr = Addr { client: 20, port: 0 };

fn line_of(step: Step) -> Line {
    step.line.expect("expected a rendered line")
}

#[test]
fn note_on_line() {
    let mut m = Monitor::new(false);
    let ev = Event::NoteOn { channel: 2, note: 61, velocity: 100 };
    let step = m.handle_event(SRC, &ev, 1_500_000);
    let line = line_of(step);
    assert_eq!(line.label, "Note ON ");
    assert_eq!(line.style, Style::Green);
    assert_eq!(line.detail, "Channel  2 | C#5 (61) | 100");
    assert_eq!(line.elapsed_us, 1_500_000);
    assert_eq!(line.origin, "20:0");
    assert!(!line.newline_before);
    assert!(!line.redrawable);
}

#[test]
fn zero_velocity_note_on_is_shown_like_a_note_off() {
    let mut m = Monitor::new(false);
    let ev = Event::NoteOn { channel: 0, note: 60, velocity: 0 };
    let line = line_of(m.handle_event(SRC, &ev, 0));
    // the label still says Note ON: only the styling follows the note-off
    assert_eq!(line.label, "Note ON ");
    assert_eq!(line.style, Style::Red);
}

#[test]
fn note_off_line() {
    let mut m = Monitor::new(false);
    let ev = Event::NoteOff { channel: 0, note: 0, velocity: 0 };
    let line = line_of(m.handle_event(SRC, &ev, 0));
    assert_eq!(line.label, "Note OFF");
    assert_eq!(line.style, Style::Red);
    assert_eq!(line.detail, "Channel  0 | C0  (0) | 0");
}

#[test]
fn controller_change_line() {
    let mut m = Monitor::new(false);
    let ev = Event::ControlChange { channel: 1, param: 7, value: 99 };
    let line = line_of(m.handle_event(SRC, &ev, 0));
    assert_eq!(line.label, "Controller Change");
    assert_eq!(line.style, Style::Blue);
    assert_eq!(line.detail, "Channel  1 | CC   7 |  99 | Volume ");
}

#[test]
fn unknown_controller_line() {
    let mut m = Monitor::new(false);
    let ev = Event::ControlChange { channel: 10, param: 14, value: 3 };
    let line = line_of(m.handle_event(SRC, &ev, 0));
    assert_eq!(line.detail, "Channel 10 | CC  14 |   3 | Unknown ");
}

#[test]
fn pitch_bend_line() {
    let mut m = Monitor::new(false);
    let ev = Event::PitchBend { channel: 3, value: -512 };
    let line = line_of(m.handle_event(SRC, &ev, 0));
    assert_eq!(line.label, "Pitch Bend");
    assert_eq!(line.style, Style::Purple);
    assert_eq!(line.detail, "Channel  3 | -512 ");
}

#[test]
fn program_change_line() {
    let mut m = Monitor::new(false);
    let ev = Event::ProgramChange { channel: 0, value: 1 };
    let line = line_of(m.handle_event(SRC, &ev, 0));
    assert_eq!(line.label, "Program Change");
    assert_eq!(line.detail, "  1 | Acoustic Grand Piano");
    let ev2 = Event::ProgramChange { channel: 0, value: 130 };
    let line2 = line_of(m.handle_event(SRC, &ev2, 0));
    assert_eq!(line2.detail, "130 | Unknown");
}

#[test]
fn channel_pressure_line() {
    let mut m = Monitor::new(false);
    let ev = Event::ChannelPressure { channel: 4, value: 77 };
    let line = line_of(m.handle_event(SRC, &ev, 0));
    assert_eq!(line.label, "Channel Pressure");
    assert_eq!(line.detail, "Channel  4 | 77");
}

#[test]
fn transport_lines() {
    let mut m = Monitor::new(false);
    for (ev, label) in [
        (Event::Start, "Start"),
        (Event::Stop, "Stop"),
        (Event::Continue, "Continue"),
    ] {
        let line = line_of(m.handle_event(SRC, &ev, 0));
        assert_eq!(line.label, label);
        assert_eq!(line.style, Style::Purple);
        assert_eq!(line.detail, "");
    }
}

#[test]
fn other_event_uses_its_description() {
    let mut m = Monitor::new(false);
    let ev = Event::Other { description: "Sysex { len: 7 }".to_string() };
    let line = line_of(m.handle_event(SRC, &ev, 0));
    assert_eq!(line.label, "Sysex { len: 7 }");
    assert_eq!(line.style, Style::Cyan);
    assert_eq!(line.detail, "");
}

#[test]
fn origin_uses_the_cached_name() {
    let mut m = Monitor::new(false);
    m.record_name(SRC, "Keystation", "MIDI out");
    let line = line_of(m.handle_event(SRC, &Event::Stop, 0));
    assert_eq!(line.origin, "Keystation:MIDI out");
}

#[test]
fn intra_beat_ticks_are_silent() {
    let mut m = Monitor::new(false);
    for i in 1..24u64 {
        let step = m.handle_event(SRC, &Event::TimingClock, i * 20833);
        assert!(step.line.is_none());
        assert!(step.subscribe.is_none());
    }
}

#[test]
fn beat_tick_emits_a_redrawable_clock_line() {
    let mut m = Monitor::new(false);
    let mut last = None;
    for i in 1..=24u64 {
        last = m.handle_event(SRC, &Event::TimingClock, i * 20833).line;
        if i < 24 {
            assert!(last.is_none());
        }
    }
    let line = last.expect("the 24th tick must emit");
    assert_eq!(line.label, "Clock");
    assert_eq!(line.style, Style::Purple);
    assert!(line.redrawable);
    assert!(!line.newline_before);
    assert_eq!(line.detail, "120.0 BPM | Clock Position 24");
}

#[test]
fn redraw_inserts_one_newline_before_the_next_ordinary_line() {
    let mut m = Monitor::new(false);
    for i in 1..=24u64 {
        m.handle_event(SRC, &Event::TimingClock, i * 20833);
    }
    // the clock line stands unterminated; a note must first end it
    let ev = Event::NoteOn { channel: 0, note: 64, velocity: 80 };
    let line = line_of(m.handle_event(SRC, &ev, 600_000));
    assert!(line.newline_before);
    // and the flag is cleared afterwards
    let line2 = line_of(m.handle_event(SRC, &ev, 700_000));
    assert!(!line2.newline_before);
}

#[test]
fn consecutive_clock_lines_insert_no_newline() {
    let mut m = Monitor::new(false);
    let mut clock_lines = Vec::new();
    for i in 1..=48u64 {
        if let Some(line) = m.handle_event(SRC, &Event::TimingClock, i * 20833).line {
            clock_lines.push(line);
        }
    }
    // two beats: two redrawable lines, no newline inserted between them
    assert_eq!(clock_lines.len(), 2);
    for line in &clock_lines {
        assert!(line.redrawable);
        assert!(!line.newline_before);
    }
}

#[test]
fn port_arrival_subscribes_only_with_autoconnect() {
    let addr = Addr { client: 36, port: 0 };
    let ev = Event::PortArrived { addr };
    let mut plain = Monitor::new(false);
    let step = plain.handle_event(SRC, &ev, 0);
    assert_eq!(step.subscribe, None);
    assert_eq!(line_of(step).label, "PortStart");
    let mut auto = Monitor::new(true);
    let step2 = auto.handle_event(SRC, &ev, 0);
    assert_eq!(step2.subscribe, Some(addr));
    let line2 = line_of(step2);
    assert_eq!(line2.style, Style::Green);
    assert_eq!(line2.detail, "36:0");
}

#[test]
fn port_departure_shows_the_name_once_then_forgets_it() {
    let mut m = Monitor::new(false);
    let addr = Addr { client: 36, port: 0 };
    m.record_name(addr, "Synth", "out");
    let ev = Event::PortDeparted { addr };
    let line = line_of(m.handle_event(SRC, &ev, 0));
    assert_eq!(line.label, "PortExit");
    assert_eq!(line.style, Style::Red);
    // the departing name is still shown on the departure line itself
    assert_eq!(line.detail, "Synth:out");
    // but the cache entry is gone afterwards
    assert!(m.needs_query(addr));
    assert_eq!(m.resolve_name(addr), "36:0");
}

#[test]
fn client_arrival_and_departure_lines() {
    let mut m = Monitor::new(false);
    let addr = Addr { client: 36, port: 0 };
    let line = line_of(m.handle_event(SRC, &Event::ClientArrived { addr }, 0));
    assert_eq!(line.label, "ClientStart");
    assert_eq!(line.style, Style::Green);
    let line2 = line_of(m.handle_event(SRC, &Event::ClientDeparted { addr }, 0));
    assert_eq!(line2.label, "ClientExit");
    assert_eq!(line2.style, Style::Red);
}

#[test]
fn subscription_lines_show_both_names_padded() {
    let mut m = Monitor::new(false);
    let sender = Addr { client: 20, port: 0 };
    let dest = Addr { client: 128, port: 0 };
    m.record_name(sender, "Keys", "out");
    m.record_name(dest, "Monitor", "Input");
    let ev = Event::PortSubscribed { sender, dest };
    let line = line_of(m.handle_event(SRC, &ev, 0));
    assert_eq!(line.label, "PortSubscribed");
    assert_eq!(line.style, Style::Green);
    assert_eq!(line.detail, "Keys:out             | Monitor:Input       ");
    let ev2 = Event::PortUnsubscribed { sender, dest };
    let line2 = line_of(m.handle_event(SRC, &ev2, 0));
    assert_eq!(line2.label, "PortUnsubscribed");
    assert_eq!(line2.style, Style::Red);
}

#[test]
fn start_resets_the_beat_phase() {
    let mut m = Monitor::new(false);
    // ten ticks in, then a Start: the next emission needs a full beat again
    for i in 1..=10u64 {
        m.handle_event(SRC, &Event::TimingClock, i * 20833);
    }
    m.handle_event(SRC, &Event::Start, 250_000);
    let mut emitted = Vec::new();
    for i in 11..=60u64 {
        if let Some(line) = m.handle_event(SRC, &Event::TimingClock, i * 20833).line {
            emitted.push(line.detail);
        }
    }
    assert_eq!(emitted.len(), 2);
    assert!(emitted[0].ends_with("Clock Position 24"));
    assert!(emitted[1].ends_with("Clock Position 48"));
}

#[test]
fn addresses_to_resolve_per_event() {
    let a = Addr { client: 1, port: 2 };
    let b = Addr { client: 3, port: 4 };
    assert_eq!(addrs_to_resolve(SRC, &Event::TimingClock), vec![SRC]);
    assert_eq!(addrs_to_resolve(SRC, &Event::PortArrived { addr: a }), vec![SRC, a]);
    assert_eq!(
        addrs_to_resolve(SRC, &Event::PortSubscribed { sender: a, dest: b }),
        vec![SRC, a, b]
    );
}

#[test]
fn steady_stream_reproduces_its_own_tempo() {
    // A Start, then a 120 BPM clock: ticks every 20833 us. The seed already
    // sits at 120 BPM, and after two full beats of steady ticks the shown
    // tempo must still read 120.0 exactly.
    let mut m = Monitor::new(false);
    m.handle_event(SRC, &Event::Start, 0);
    let mut shown = Vec::new();
    for i in 1..=50u64 {
        if let Some(line) = m.handle_event(SRC, &Event::TimingClock, i * 20833).line {
            shown.push((line.elapsed_us, line.detail));
        }
    }
    assert_eq!(shown.len(), 2);
    assert_eq!(shown[0].0, 24 * 20833);
    assert_eq!(shown[0].1, "120.0 BPM | Clock Position 24");
    assert_eq!(shown[1].1, "120.0 BPM | Clock Position 48");
}
