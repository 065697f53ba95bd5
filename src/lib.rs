//! The frame loop of a window that presents GPU-rendered frames: the surface
//! configuration, the handling of window events and of frame acquisition
//! errors, and the startup decision.
pub mod event_loop;
pub mod gpu_info;
pub mod surface;
