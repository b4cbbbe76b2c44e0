//! Runtime core of a task-queue worker: the lifecycle state machine of a
//! worker handle, its admission-control (slot tuning) subsystem, and the
//! bounded history-replay feed pipeline.
//!
//! Network transport, wire codecs for payload contents, and language-binding
//! marshalling are external collaborators: payloads cross this boundary as
//! opaque byte buffers, and the remote service is an opaque, swappable handle.

pub mod codec;
pub mod debug;
pub mod errors;
pub mod replay;
pub mod tuner;
pub mod worker;
