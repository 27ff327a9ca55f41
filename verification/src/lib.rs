//! Recording engine for desktop interaction sessions.
//!
//! The engine turns raw pointer and keyboard events into a classified,
//! ordered event timeline: it tracks the pointer, detects pauses between
//! actions, plans the screenshots taken for each click and keeps at most
//! one recording session active at a time.

pub mod capture;
pub mod clock;
pub mod frame;
pub mod orchestrator;
pub mod recorder;
pub mod screenshot;
pub mod session;
pub mod storage;
pub mod text;
pub mod types;
