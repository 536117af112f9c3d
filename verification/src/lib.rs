//! Core of a privacy-first, push-to-talk dictation backend.
//!
//! The crate holds the verified logic of the pipeline: the audio capture
//! state machine and its PCM processing (downmix, resampling, level
//! metering), the buffer that is wiped before release, the privacy guard
//! that gates every outbound URL, the model catalog with its installer
//! bookkeeping and checksum verification, the hardware-based model
//! recommendation, the transcription facade decisions, and the toggle
//! flow of the controller. Device I/O, HTTP transport, the inference
//! engine and the UI shell live outside and talk to this crate through
//! plain values.
#![verifier::loop_isolation(false)]

pub mod audio;
pub mod buffer;
pub mod capture;
pub mod config;
pub mod controller;
pub mod dsp;
pub mod errors;
pub mod hardware;
pub mod hashing;
pub mod installer;
pub mod model;
pub mod paths;
pub mod privacy;
pub mod text;
pub mod transcribe;
