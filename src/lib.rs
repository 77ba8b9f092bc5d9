//! Frame acquisition and timestamp synchronisation for a live network audio
//! source: classifying capture results, the consecutive-loss budget, the
//! per-connection time origin, format fixation from the first observed frame,
//! and the layout of the interleaved 16-bit buffers handed downstream.
pub mod frame;
pub mod timing;
pub mod loss;
pub mod source;
