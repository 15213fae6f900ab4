use ossian19_core::filter::FilterSlope;
use ossian19_core::lfo::{parse_lfo_waveform, LfoWaveform};
use ossian19_core::oscillator::{parse_waveform, SubWaveform, Waveform};

#[test]
fn waveform_names() {
    assert_eq!(parse_waveform("sine"), Some(Waveform::Sine));
    assert_eq!(parse_waveform("saw"), Some(Waveform::Saw));
    assert_eq!(parse_waveform("sawtooth"), Some(Waveform::Saw));
    assert_eq!(parse_waveform("square"), Some(Waveform::Square));
    assert_eq!(parse_waveform("triangle"), Some(Waveform::Triangle));
}

#[test]
fn waveform_names_in_any_case() {
    assert_eq!(parse_waveform("SINE"), Some(Waveform::Sine));
    assert_eq!(parse_waveform("Saw"), Some(Waveform::Saw));
    assert_eq!(parse_waveform("SawTooth"), Some(Waveform::Saw));
    assert_eq!(parse_waveform("sQuArE"), Some(Waveform::Square));
    assert_eq!(parse_waveform("TRIANGLE"), Some(Waveform::Triangle));
}

#[test]
fn texts_that_name_no_waveform() {
    for text in ["", " sine", "sine ", "sin", "saws", "pulse", "noise", "s&h", "tri"] {
        assert_eq!(parse_waveform(text), None);
    }
}

#[test]
fn exact_names_are_taken_as_written() {
    assert_eq!(Waveform::from_name("sine"), Some(Waveform::Sine));
    assert_eq!(Waveform::from_name("sawtooth"), Some(Waveform::Saw));
    assert_eq!(Waveform::from_name("Sine"), None);
    assert_eq!(Waveform::from_name("SAW"), None);
    assert_eq!(LfoWaveform::from_name("s&h"), Some(LfoWaveform::SampleAndHold));
    assert_eq!(LfoWaveform::from_name("S&H"), None);
}

#[test]
fn lfo_waveform_names() {
    assert_eq!(parse_lfo_waveform("sine"), Some(LfoWaveform::Sine));
    assert_eq!(parse_lfo_waveform("triangle"), Some(LfoWaveform::Triangle));
    assert_eq!(parse_lfo_waveform("saw"), Some(LfoWaveform::Saw));
    assert_eq!(parse_lfo_waveform("sawtooth"), Some(LfoWaveform::Saw));
    assert_eq!(parse_lfo_waveform("square"), Some(LfoWaveform::Square));
    assert_eq!(parse_lfo_waveform("s&h"), Some(LfoWaveform::SampleAndHold));
    assert_eq!(parse_lfo_waveform("sample_and_hold"), Some(LfoWaveform::SampleAndHold));
    assert_eq!(parse_lfo_waveform("sampleandhold"), Some(LfoWaveform::SampleAndHold));
    assert_eq!(parse_lfo_waveform("S&H"), Some(LfoWaveform::SampleAndHold));
    assert_eq!(parse_lfo_waveform("Sample_And_Hold"), Some(LfoWaveform::SampleAndHold));
    assert_eq!(parse_lfo_waveform("SampleAndHold"), Some(LfoWaveform::SampleAndHold));
    assert_eq!(parse_lfo_waveform("sample and hold"), None);
    assert_eq!(parse_lfo_waveform("random"), None);
    assert_eq!(parse_lfo_waveform(""), None);
}

#[test]
fn waveforms_by_number() {
    assert_eq!(Waveform::from_i32(0), Waveform::Saw);
    assert_eq!(Waveform::from_i32(1), Waveform::Square);
    assert_eq!(Waveform::from_i32(2), Waveform::Triangle);
    assert_eq!(Waveform::from_i32(3), Waveform::Sine);
    for code in [4, 5, 100, -1, i32::MAX, i32::MIN] {
        assert_eq!(Waveform::from_i32(code), Waveform::Saw);
    }
    assert_eq!(SubWaveform::from_i32(0), SubWaveform::Sine);
    assert_eq!(SubWaveform::from_i32(1), SubWaveform::Square);
    for code in [2, 3, -1, i32::MAX, i32::MIN] {
        assert_eq!(SubWaveform::from_i32(code), SubWaveform::Sine);
    }
}

#[test]
fn filter_slopes_by_number() {
    assert_eq!(FilterSlope::from_i32(0), FilterSlope::Pole1);
    assert_eq!(FilterSlope::from_i32(1), FilterSlope::Pole2);
    assert_eq!(FilterSlope::from_i32(2), FilterSlope::Pole4);
    for code in [3, 4, 256, 257, -1, i32::MAX, i32::MIN] {
        assert_eq!(FilterSlope::from_i32(code), FilterSlope::Pole4);
    }
    for code in 0..=255i32 {
        assert_eq!(FilterSlope::from_i32(code), FilterSlope::from_u8(code as u8));
    }
}
