//! Control core of a polyphonic synthesizer: the discrete decisions of the
//! engine (stage machines, note allocation, modulation routing, generator
//! state), each with a proved contract.
//!
//! The core holds no sample and no amount. A host computes the levels and
//! the waveforms; it tells the core what the levels have reached, and the
//! core tells it which voice plays which note, which operator modulates
//! which, and when a voice has ended.

pub mod envelope;
pub mod filter;
pub mod fm;
pub mod lfo;
pub mod oscillator;
pub mod pool;
pub mod synth;
pub mod text;
pub mod voice;

pub use envelope::{Envelope, EnvelopeStage};
pub use filter::{FilterOutput, FilterSlope, FilterType, LadderFilter};
pub use fm::algorithm::{FmAlgorithm, FmAlgorithm2Op};
pub use fm::dx7::Dx7Algorithm;
pub use fm::manager::{Fm4OpVoiceManager, Fm6OpVoiceManager};
pub use fm::operator::FmOperator;
pub use fm::voice::{Fm4OpVoice, Fm6OpVoice};
pub use lfo::{parse_lfo_waveform, Lfo, LfoWaveform};
pub use oscillator::{parse_waveform, SubWaveform, Waveform};
pub use synth::{ControlAction, ParamChange, Synth, SynthParam, SynthParams};
pub use voice::{NoiseGen, Voice, VoiceManager};
