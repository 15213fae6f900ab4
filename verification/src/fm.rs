//! Frequency-modulation engines: algorithms, operators and voices.

pub mod algorithm;
pub mod dx7;
pub mod manager;
pub mod operator;
pub mod voice;
