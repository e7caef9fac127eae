//! Host-side runtime for sandboxed canvas guests.
//!
//! A guest program is given a narrow, phase-gated surface of drawing and
//! logging operations; the host keeps full control over the lifecycle.  The
//! library verifies the phase state machine, the buffering of draw commands
//! into a per-frame output, the bounded ring of recent guest log lines, and
//! the wrapper that drives one guest call from phase entry to extraction of
//! its side effects.

pub mod host;
pub mod model;
pub mod runtime;

pub use model::LogicalSize;
pub use runtime::ComponentRuntime;
