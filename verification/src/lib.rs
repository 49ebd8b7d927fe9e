//! Supervision logic for a video-capture process and a video-streaming
//! pipeline: what each is launched with, and what each start and stop
//! request leads to.

pub mod decimal;
pub mod remote_viewing;
pub mod vision;
