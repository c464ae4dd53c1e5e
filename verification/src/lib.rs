//! Core of a windowed clear-screen application: the surface configuration
//! computed from the backend's reported capabilities, and the pause flag that
//! decides whether a tick of the event loop runs the update and render steps.
//! The window, device and surface handles themselves stay with the host, which
//! drives the event loop and performs the graphics calls.

pub mod app;
pub mod state;
pub mod surface;
