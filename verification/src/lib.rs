//! The logic of a Matroska player for AV1 video and 16-bit PCM audio.
//!
//! A container's streams are chosen in [`stream`]. A worker ([`decode`]) turns packets and
//! pictures into blocks of frames and audio; [`startup`] waits for the first block, and
//! [`playback`] decides what is shown and heard at what time. [`surface`] and [`color`] hold
//! what the renderer is set up with. What holds of each step of the worker is in [`step_laws`],
//! what holds of whole runs in [`worker_laws`] and [`playback_laws`], and what callers of the
//! operations can rely on in [`call_laws`].
pub mod audio;
pub mod call_laws;
pub mod color;
pub mod decode;
pub mod image;
pub mod playback;
pub mod playback_laws;
pub mod pool;
pub mod report;
pub mod startup;
pub mod step_laws;
pub mod stream;
pub mod surface;
pub mod worker_laws;
