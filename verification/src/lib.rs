//! The decisions of a video-processing worker: what each external tool is asked
//! to do, how its outcome is read, and how a job moves through the pipeline.
//!
//! The crate runs no tool and talks to no broker or store. Callers do that
//! and hand the outcomes to the functions here. Of the outside world the
//! crate itself only reads the clock, for the time of a status update, and
//! draws a random identifier, for a consumer without a name.

pub mod audio;
pub mod download;
pub mod envelope;
pub mod json;
pub mod ocr;
pub mod paths;
pub mod pipeline;
pub mod scalar;
pub mod status;
pub mod text;
pub mod tools;
pub mod traces;
pub mod video;
pub mod worker;
