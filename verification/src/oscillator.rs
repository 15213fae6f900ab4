//! The waveforms of the audio oscillators.

use crate::text::{lowercase, same_text, to_lowercase};
use vstd::prelude::*;

verus! {

/// The waveform of an oscillator.
#[derive(Debug, Clone, Copy, PartialEq, Eq, Structural, Hash)]
pub enum Waveform {
    Sine,
    Saw,
    Square,
    Triangle,
}

impl Default for Waveform {
    fn default() -> (r: Self)
        ensures
            r == Waveform::Saw,
    {
        Waveform::Saw
    }
}

impl Waveform {
    /// The waveform that a number selects: 0 the saw, 1 the square, 2 the
    /// triangle, 3 the sine, and every other number the saw.
    pub open spec fn spec_from_i32(code: i32) -> Waveform {
        if code == 1 {
            Waveform::Square
        } else if code == 2 {
            Waveform::Triangle
        } else if code == 3 {
            Waveform::Sine
        } else {
            Waveform::Saw
        }
    }

    /// The waveform of a name in lower case, if it is the name of one:
    /// `sine`, `saw` or `sawtooth`, `square`, `triangle`.
    pub open spec fn spec_from_name(name: Seq<char>) -> Option<Waveform> {
        if name == "sine"@ {
            Some(Waveform::Sine)
        } else if name == "saw"@ || name == "sawtooth"@ {
            Some(Waveform::Saw)
        } else if name == "square"@ {
            Some(Waveform::Square)
        } else if name == "triangle"@ {
            Some(Waveform::Triangle)
        } else {
            None
        }
    }

    /// The waveform that a number selects, for hosts that number the
    /// waveforms.
    pub fn from_i32(code: i32) -> (r: Waveform)
        ensures
            r == Self::spec_from_i32(code),
    {
        match code {
            0 => Waveform::Saw,
            1 => Waveform::Square,
            2 => Waveform::Triangle,
            3 => Waveform::Sine,
            _ => Waveform::Saw,
        }
    }

    /// The waveform with the given name, which is taken as it is written.
    pub fn from_name(name: &str) -> (r: Option<Waveform>)
        ensures
            r == Self::spec_from_name(name@),
    {
        if same_text(name, "sine") {
            Some(Waveform::Sine)
        } else if same_text(name, "saw") || same_text(name, "sawtooth") {
            Some(Waveform::Saw)
        } else if same_text(name, "square") {
            Some(Waveform::Square)
        } else if same_text(name, "triangle") {
            Some(Waveform::Triangle)
        } else {
            None
        }
    }
}

/// The waveform that a text names, without regard to case. A text that
/// names none gives nothing.
pub fn parse_waveform(s: &str) -> (r: Option<Waveform>)
    ensures
        r == Waveform::spec_from_name(lowercase(s@)),
{
    let lower = to_lowercase(s);
    Waveform::from_name(lower.as_str())
}

/// The waveform of the sub-oscillator, which offers two of the four.
#[derive(Debug, Clone, Copy, PartialEq, Eq, Structural, Hash)]
pub enum SubWaveform {
    Sine,
    Square,
}

impl Default for SubWaveform {
    fn default() -> (r: Self)
        ensures
            r == SubWaveform::Square,
    {
        SubWaveform::Square
    }
}

impl SubWaveform {
    /// The waveform that a number selects: 1 the square, and every other
    /// number the sine.
    pub open spec fn spec_from_i32(code: i32) -> SubWaveform {
        if code == 1 {
            SubWaveform::Square
        } else {
            SubWaveform::Sine
        }
    }

    /// The waveform that a number selects, for hosts that number the
    /// waveforms.
    pub fn from_i32(code: i32) -> (r: SubWaveform)
        ensures
            r == Self::spec_from_i32(code),
    {
        match code {
            0 => SubWaveform::Sine,
            1 => SubWaveform::Square,
            _ => SubWaveform::Sine,
        }
    }

    /// The oscillator waveform of the same name.
    pub open spec fn spec_waveform(self) -> Waveform {
        match self {
            SubWaveform::Sine => Waveform::Sine,
            SubWaveform::Square => Waveform::Square,
        }
    }

    /// The waveform that the sub-oscillator runs with.
    pub fn waveform(&self) -> (r: Waveform)
        ensures
            r == self.spec_waveform(),
    {
        match self {
            SubWaveform::Sine => Waveform::Sine,
            SubWaveform::Square => Waveform::Square,
        }
    }
}

} // verus!
