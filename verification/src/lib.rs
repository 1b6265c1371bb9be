//! The core of the Corner desktop assistant, first of all its ear: a local,
//! continuous speech-to-text pipeline.
//!
//! The crate holds the decisions of the assistant as plain, verified
//! functions. For the transcription pipeline these are the sample buffer
//! shared by capture and scheduler, the decimation to the model's rate, the
//! periodic chunk scheduler, the cleanup of recognised text, the recording
//! session, and the life cycle of the model file with its download. Beside
//! them stand the smaller rules of the assistant: which provider's key to
//! use, what a provider's answer comes to, what kind a dropped file is, how a
//! shortcut is read.
//!
//! Devices, the network, the file system and the acoustic model itself are
//! driven by the surrounding program, which hands their results in as values.

pub mod buffer;
pub mod capture;
pub mod chat;
pub mod completion;
pub mod config;
pub mod download;
pub mod files;
pub mod keys;
pub mod model;
pub mod models;
pub mod pattern;
pub mod preferences;
pub mod resample;
pub mod scheduler;
pub mod session;
pub mod shortcuts;
pub mod strings;
pub mod text;
pub mod transcript;
pub mod utils;
