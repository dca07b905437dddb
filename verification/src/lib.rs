//! Arbitration of many concurrent transcription requests around one
//! speech-recognition engine: exclusive access in arrival order, a bounded
//! wait, and a strict response schema with closed failure kinds.

pub mod engine;
pub mod single;
pub mod raw;
pub mod transcript;
pub mod normalize;
pub mod response;
pub mod arbiter;
pub mod deadline;
pub mod request;
