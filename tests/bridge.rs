use mimi::config::{parse_decimal, setting, tuning_from_settings};
use mimi::event::{classify, step, translate, NoteEvent, RawEvent, Status, MAX_VELOCITY};
use mimi::tuning::{midi_pitch, Pitch, Ratio, Tuning};
use mimi::wire::{encode_note_off, NOTE_OFF_ADDRESS};

fn defaults() -> Tuning {
    Tuning::default()
}

fn pitch_value(p: Pitch) -> f64 {
    p.num as f64 / p.den as f64
}

fn whole(n: i32) -> Ratio {
    Ratio { num: n, den: 1 }
}

fn frac(num: i32, den: u32) -> Ratio {
    Ratio { num, den }
}

#[test]
fn twelve_edo_is_semitone_arithmetic() {
    for (n, k, p) in [(60u8, 60i32, 60i32), (0, 69, 57), (127, 0, -5), (61, 60, 0)] {
        let r = midi_pitch(n, whole(12), whole(k), whole(p));
        assert_eq!(pitch_value(r), (n as i32 - k + p) as f64);
    }
    assert_eq!(pitch_value(midi_pitch(72, whole(12), whole(60), whole(60))), 72.0);
    assert_eq!(pitch_value(midi_pitch(48, whole(12), whole(60), frac(1, 2))), -11.5);
    assert_eq!(pitch_value(midi_pitch(0, whole(12), whole(69), whole(69))), 0.0);
    assert_eq!(pitch_value(midi_pitch(60, frac(24, 2), frac(121, 2), frac(-13, 4))), -3.75);
}

#[test]
fn pitch_increases_by_twelve_over_edo_per_note() {
    for edo in [whole(1), whole(12), whole(19), whole(31), frac(125, 10)] {
        for n in 0u8..127 {
            let a = midi_pitch(n, edo, whole(60), frac(57, 2));
            let b = midi_pitch(n + 1, edo, whole(60), frac(57, 2));
            assert_eq!(a.den, b.den);
            let step = (b.num - a.num) as f64 / a.den as f64;
            assert!((step - 12.0 * edo.den as f64 / edo.num as f64).abs() < 1e-9);
            assert!(pitch_value(a) < pitch_value(b));
        }
    }
}

#[test]
fn reference_key_sounds_at_reference_pitch() {
    assert_eq!(pitch_value(midi_pitch(69, whole(19), whole(69), frac(575, 10))), 57.5);
    assert_eq!(pitch_value(midi_pitch(0, whole(53), whole(0), frac(-325, 100))), -3.25);
    assert_eq!(pitch_value(midi_pitch(127, whole(7), whole(127), whole(440))), 440.0);
    for edo in [whole(1), whole(7), frac(125, 10), whole(i32::MAX)] {
        let r = midi_pitch(64, edo, whole(64), whole(-7));
        assert_eq!(pitch_value(r), -7.0);
    }
}

#[test]
fn extreme_settings_do_not_overflow() {
    let k = frac(i32::MIN, u32::MAX);
    let r = midi_pitch(255, frac(1, u32::MAX), k, frac(i32::MIN, u32::MAX));
    let (kn, kd, ed, pn, pd) = (i32::MIN as i128, u32::MAX as i128, u32::MAX as i128, i32::MIN as i128, u32::MAX as i128);
    assert_eq!(r.num, (255 * kd - kn) * 12 * ed * pd + pn * 1 * kd);
    assert_eq!(r.den, u32::MAX as u128 * u32::MAX as u128);
}

#[test]
fn note_on_at_reference_key_with_defaults() {
    let ev = RawEvent { status: 0x90, data1: 60, data2: 127 };
    let r = translate(&ev, &defaults());
    assert_eq!(r, Some(NoteEvent::NoteOn { id: 60, pitch: Pitch { num: 1860, den: 31 }, velocity: 127 }));
    if let Some(NoteEvent::NoteOn { pitch, velocity, .. }) = r {
        assert_eq!(pitch_value(pitch), 60.0);
        assert_eq!(velocity as f64 / MAX_VELOCITY as f64, 1.0);
    }
}

#[test]
fn note_on_an_octave_up_in_31_edo() {
    let t = Tuning::new(whole(31), whole(60), whole(60)).unwrap();
    let r = step(&t, Some(RawEvent { status: 0x90, data1: 72, data2: 64 }));
    assert_eq!(r, Some(NoteEvent::NoteOn { id: 72, pitch: Pitch { num: 2004, den: 31 }, velocity: 64 }));
    if let Some(NoteEvent::NoteOn { pitch, velocity, .. }) = r {
        assert!((pitch_value(pitch) - 64.645).abs() < 0.001);
        assert!((velocity as f64 / MAX_VELOCITY as f64 - 0.504).abs() < 0.001);
    }
}

#[test]
fn note_off_passes_the_note_through() {
    for vel in [0u8, 64, 127] {
        let r = step(&defaults(), Some(RawEvent { status: 0x80, data1: 60, data2: vel }));
        assert_eq!(r, Some(NoteEvent::NoteOff { id: 60 }));
    }
}

#[test]
fn control_change_gives_nothing() {
    assert_eq!(step(&defaults(), Some(RawEvent { status: 0xB0, data1: 7, data2: 100 })), None);
    assert_eq!(step(&defaults(), Some(RawEvent { status: 0xE0, data1: 0, data2: 64 })), None);
    assert_eq!(step(&defaults(), None), None);
}

#[test]
fn status_bytes_are_classified() {
    assert_eq!(classify(0x90), Status::NoteOn);
    assert_eq!(classify(0x80), Status::NoteOff);
    assert_eq!(classify(0x91), Status::Other);
    assert_eq!(classify(0xB0), Status::Other);
}

#[test]
fn zero_edo_is_rejected() {
    assert_eq!(Tuning::new(whole(0), whole(60), whole(60)), None);
    assert_eq!(Tuning::new(whole(-12), whole(60), whole(60)), None);
    assert_eq!(Tuning::new(frac(12, 0), whole(60), whole(60)), None);
    assert_eq!(Tuning::new(whole(12), frac(1, 0), whole(60)), None);
    assert_eq!(Tuning::new(whole(12), whole(60), frac(1, 0)), None);
    assert_eq!(
        Tuning::new(whole(12), whole(69), frac(115, 2)),
        Some(Tuning { edo: whole(12), ref_key: whole(69), ref_pitch: frac(115, 2) })
    );
}

#[test]
fn default_tuning() {
    assert_eq!(defaults(), Tuning { edo: whole(31), ref_key: whole(60), ref_pitch: whole(60) });
}

#[test]
fn note_off_bytes() {
    let b = encode_note_off(60);
    let mut want: Vec<u8> = b"/note_off\0\0\0,i\0\0".to_vec();
    want.extend_from_slice(&[0, 0, 0, 60]);
    assert_eq!(b, want);
    let neg = encode_note_off(-2);
    assert_eq!(&neg[16..], &[0xff, 0xff, 0xff, 0xfe]);
}

#[test]
fn note_off_decodes_back() {
    let b = encode_note_off(60);
    let (rest, packet) = rosc::decoder::decode_udp(&b).unwrap();
    assert!(rest.is_empty());
    match packet {
        rosc::OscPacket::Message(m) => {
            assert_eq!(m.addr, NOTE_OFF_ADDRESS);
            assert_eq!(m.args, vec![rosc::OscType::Int(60)]);
        }
        _ => panic!("expected a message"),
    }
}

#[test]
fn decimals_are_read_exactly() {
    assert_eq!(parse_decimal("57.5"), Some(frac(575, 10)));
    assert_eq!(parse_decimal("-3.25"), Some(frac(-325, 100)));
    assert_eq!(parse_decimal("+19"), Some(frac(19, 1)));
    assert_eq!(parse_decimal(".5"), Some(frac(5, 10)));
    assert_eq!(parse_decimal("5."), Some(frac(5, 1)));
    assert_eq!(parse_decimal("-0"), Some(frac(0, 1)));
    assert_eq!(parse_decimal("0.000000001"), Some(frac(1, 1_000_000_000)));
    assert_eq!(parse_decimal("2147483647"), Some(frac(i32::MAX, 1)));
    assert_eq!(parse_decimal("2147483648"), None);
    assert_eq!(parse_decimal("0.0000000001"), None);
    assert_eq!(parse_decimal("99999999999999999999"), None);
    for bad in ["", "-", "+", ".", "-.", "1.2.3", "abc", " 19", "19 ", "1e3", "--1", "1-"] {
        assert_eq!(parse_decimal(bad), None, "{}", bad);
    }
}

#[test]
fn settings_parse_or_fall_back() {
    let d = whole(31);
    assert_eq!(setting(Some("19"), true, d), whole(19));
    assert_eq!(setting(Some("12.5"), true, d), frac(125, 10));
    assert_eq!(setting(Some("57.5"), false, d), frac(575, 10));
    assert_eq!(setting(Some("-3.25"), false, d), frac(-325, 100));
    assert_eq!(setting(Some("-3"), true, d), d);
    assert_eq!(setting(Some("0"), true, d), d);
    assert_eq!(setting(Some("0"), false, d), whole(0));
    assert_eq!(setting(Some("abc"), false, d), d);
    assert_eq!(setting(Some(""), false, d), d);
    assert_eq!(setting(None, false, d), d);
}

#[test]
fn tuning_from_text_settings() {
    assert_eq!(tuning_from_settings(None, None, None), defaults());
    assert_eq!(
        tuning_from_settings(Some("12"), Some("69"), Some("-3")),
        Tuning { edo: whole(12), ref_key: whole(69), ref_pitch: whole(-3) }
    );
    let t = tuning_from_settings(Some("19"), Some("69"), Some("57.5"));
    assert_eq!(pitch_value(t.pitch_of(69)), 57.5);
    let t = tuning_from_settings(Some("53"), Some("0"), Some("-3.25"));
    assert_eq!(pitch_value(t.pitch_of(0)), -3.25);
    assert_eq!(tuning_from_settings(Some("0"), Some("x"), Some("1e3")), defaults());
    assert_eq!(tuning_from_settings(Some("-12"), None, None).edo, whole(31));
}

#[test]
fn note_on_decodes_back() {
    let r = translate(&RawEvent { status: 0x90, data1: 72, data2: 64 }, &defaults()).unwrap();
    let (id, pitch, velocity) = match r {
        NoteEvent::NoteOn { id, pitch, velocity } => {
            (id, pitch.num as f32 / pitch.den as f32, velocity as f32 / MAX_VELOCITY as f32)
        }
        NoteEvent::NoteOff { .. } => panic!("expected a note-on"),
    };
    let msg = rosc::OscMessage {
        addr: mimi::wire::NOTE_ON_ADDRESS.to_string(),
        args: vec![rosc::OscType::Int(id), rosc::OscType::Float(pitch), rosc::OscType::Float(velocity)],
    };
    let bytes = rosc::encoder::encode(&rosc::OscPacket::Message(msg)).unwrap();
    let (_, packet) = rosc::decoder::decode_udp(&bytes).unwrap();
    match packet {
        rosc::OscPacket::Message(m) => {
            assert_eq!(m.addr, "/note_on");
            assert_eq!(m.args[0], rosc::OscType::Int(72));
            match (&m.args[1], &m.args[2]) {
                (rosc::OscType::Float(p), rosc::OscType::Float(v)) => {
                    assert!((p - 64.645).abs() < 0.001);
                    assert!((v - 0.504).abs() < 0.001);
                }
                _ => panic!("expected two floats"),
            }
        }
        _ => panic!("expected a message"),
    }
}
