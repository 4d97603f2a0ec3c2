//! Format-sniffing audio decoding front-end.
//!
//! A byte buffer is probed for WAV, FLAC and Ogg Vorbis, in that order, and the
//! first format that recognises it is wrapped in a [`Decoder`] that yields
//! 16-bit signed samples and reports channel count, sample rate, frame length
//! and total duration.

pub mod codecs;
pub mod timing;
pub mod wav;
pub mod flac;
pub mod vorbis;
pub mod decoder;

pub use decoder::{Decoder, DecoderError, Format};

