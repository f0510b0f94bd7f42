//! A push-to-talk dictation controller: the recording buffer and its WAV
//! encoder, the trigger-event latch, the session state machine, and the
//! request and response logic of the transcription and rewrite services.

pub mod capture;
pub mod config;
pub mod input;
pub mod orchestrator;
pub mod output;
pub mod service;
pub mod state;
pub mod wav;
