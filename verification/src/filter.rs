//! Filter modes and slopes, and the stage routing of the ladder filter.

use vstd::prelude::*;

verus! {

/// Which band of the input a filter passes.
#[derive(Debug, Clone, Copy, PartialEq, Eq, Structural, Hash)]
pub enum FilterType {
    LowPass,
    HighPass,
    BandPass,
}

impl Default for FilterType {
    fn default() -> (r: Self)
        ensures
            r == FilterType::LowPass,
    {
        FilterType::LowPass
    }
}

/// Filter slope: the number of cascaded one-pole stages.
#[derive(Debug, Clone, Copy, PartialEq, Eq, Structural, Hash)]
pub enum FilterSlope {
    /// One pole, 6 dB per octave.
    Pole1,
    /// Two poles, 12 dB per octave.
    Pole2,
    /// Four poles, 24 dB per octave.
    Pole4,
}

impl Default for FilterSlope {
    fn default() -> (r: Self)
        ensures
            r == FilterSlope::Pole4,
    {
        FilterSlope::Pole4
    }
}

impl FilterSlope {
    /// The slope selected by a numeric code: 0 and 1 select one and two
    /// poles, every other code selects four.
    pub open spec fn spec_from_u8(value: u8) -> FilterSlope {
        if value == 0 {
            FilterSlope::Pole1
        } else if value == 1 {
            FilterSlope::Pole2
        } else {
            FilterSlope::Pole4
        }
    }

    /// The slope selected by a number of any size: as `spec_from_u8`, and
    /// four poles for every number outside the range of a code.
    pub open spec fn spec_from_i32(code: i32) -> FilterSlope {
        if code == 0 {
            FilterSlope::Pole1
        } else if code == 1 {
            FilterSlope::Pole2
        } else {
            FilterSlope::Pole4
        }
    }

    /// The number of active stages.
    pub open spec fn spec_poles(self) -> nat {
        match self {
            FilterSlope::Pole1 => 1,
            FilterSlope::Pole2 => 2,
            FilterSlope::Pole4 => 4,
        }
    }

    /// The slope with the given code. A code above 2 selects four poles.
    pub fn from_u8(value: u8) -> (r: Self)
        ensures
            r == Self::spec_from_u8(value),
    {
        match value {
            0 => FilterSlope::Pole1,
            1 => FilterSlope::Pole2,
            _ => FilterSlope::Pole4,
        }
    }

    /// The slope that a number selects, for hosts that pass wider numbers.
    pub fn from_i32(code: i32) -> (r: Self)
        ensures
            r == Self::spec_from_i32(code),
            0 <= code <= 255 ==> r == Self::spec_from_u8(code as u8),
    {
        match code {
            0 => FilterSlope::Pole1,
            1 => FilterSlope::Pole2,
            2 => FilterSlope::Pole4,
            _ => FilterSlope::Pole4,
        }
    }

    /// Number of filter stages (poles).
    pub fn poles(&self) -> (r: usize)
        ensures
            r == self.spec_poles(),
    {
        match self {
            FilterSlope::Pole1 => 1,
            FilterSlope::Pole2 => 2,
            FilterSlope::Pole4 => 4,
        }
    }

    /// Attenuation in dB per octave: six for each pole.
    pub fn db_per_octave(&self) -> (r: u8)
        ensures
            r == 6 * self.spec_poles(),
    {
        match self {
            FilterSlope::Pole1 => 6,
            FilterSlope::Pole2 => 12,
            FilterSlope::Pole4 => 24,
        }
    }

    /// The feedback gain of the ladder at full resonance, counted in
    /// halves: 1.5 for one pole, 2 for two, 3 for four. The gain grows with
    /// the slope so that the resonance is heard alike at every slope.
    pub open spec fn spec_resonance_scale_halves(self) -> nat {
        match self {
            FilterSlope::Pole1 => 3,
            FilterSlope::Pole2 => 4,
            FilterSlope::Pole4 => 6,
        }
    }

    /// The feedback gain of the ladder at full resonance, counted in
    /// halves.
    pub fn resonance_scale_halves(&self) -> (r: u8)
        ensures
            r == self.spec_resonance_scale_halves(),
    {
        match self {
            FilterSlope::Pole1 => 3,
            FilterSlope::Pole2 => 4,
            FilterSlope::Pole4 => 6,
        }
    }
}

/// The number of one-pole stages that a ladder filter holds.
pub const LADDER_STAGES: usize = 4;

/// What a ladder filter puts out, in terms of its stages.
#[derive(Debug, Clone, Copy, PartialEq, Eq, Structural, Hash)]
pub enum FilterOutput {
    /// The last active stage.
    LastStage,
    /// The driven input less the last active stage.
    InputMinusLastStage,
    /// The first stage less the last active stage.
    FirstMinusLastStage,
}

/// Moog-style ladder filter with selectable slope: its mode and slope, and
/// what they decide of the signal path. The host keeps the cutoff, the
/// resonance and the state of the stages.
#[derive(Debug, Clone, Copy, PartialEq, Eq, Structural, Hash)]
pub struct LadderFilter {
    pub filter_type: FilterType,
    pub slope: FilterSlope,
}

impl LadderFilter {
    /// The output of a filter of this mode and slope. A band-pass needs two
    /// stages to take a difference of: with one pole it puts out what the
    /// low-pass does.
    pub open spec fn spec_output(self) -> FilterOutput {
        match self.filter_type {
            FilterType::LowPass => FilterOutput::LastStage,
            FilterType::HighPass => FilterOutput::InputMinusLastStage,
            FilterType::BandPass => if self.slope.spec_poles() >= 2 {
                FilterOutput::FirstMinusLastStage
            } else {
                FilterOutput::LastStage
            },
        }
    }

    /// A low-pass filter with four poles.
    pub fn new() -> (r: Self)
        ensures
            r.filter_type == FilterType::LowPass,
            r.slope == FilterSlope::Pole4,
    {
        LadderFilter { filter_type: FilterType::LowPass, slope: FilterSlope::Pole4 }
    }

    pub fn set_slope(&mut self, slope: FilterSlope)
        ensures
            final(self).slope == slope,
            final(self).filter_type == old(self).filter_type,
    {
        self.slope = slope;
    }

    /// Whether stage `index` takes part in the cascade: the first `poles`
    /// stages do.
    pub fn stage_active(&self, index: usize) -> (r: bool)
        ensures
            r == (index < self.slope.spec_poles()),
            r ==> index < LADDER_STAGES,
    {
        index < self.slope.poles()
    }

    /// The stage that the resonance feedback and the output are taken
    /// from: the last active one.
    pub fn feedback_stage(&self) -> (r: usize)
        ensures
            r == self.slope.spec_poles() - 1,
            r < LADDER_STAGES,
    {
        self.slope.poles() - 1
    }

    /// What the filter puts out.
    pub fn output(&self) -> (r: FilterOutput)
        ensures
            r == self.spec_output(),
    {
        match self.filter_type {
            FilterType::LowPass => FilterOutput::LastStage,
            FilterType::HighPass => FilterOutput::InputMinusLastStage,
            FilterType::BandPass => {
                if self.slope.poles() >= 2 {
                    FilterOutput::FirstMinusLastStage
                } else {
                    FilterOutput::LastStage
                }
            },
        }
    }
}

/// The active stages of a ladder are its first ones, without a gap, and the
/// stage that feeds back is the last of them.
pub proof fn lemma_ladder_stages(filter: LadderFilter, index: usize)
    ensures
        1 <= filter.slope.spec_poles() <= LADDER_STAGES,
        index < filter.slope.spec_poles() ==> index <= filter.slope.spec_poles() - 1,
        filter.spec_output() == FilterOutput::FirstMinusLastStage ==> filter.slope.spec_poles()
            - 1 > 0,
{
}

} // verus!
