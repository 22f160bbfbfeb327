//! Controller for a kiosk display that rotates through a fixed list of URLs.
//!
//! The library holds the rotation state and decides every transition: which
//! URL is shown, when an advance may start, when it commits, and what the
//! liveness prober does with the outcome of a probe. The host application
//! performs the actions that the controller hands back (navigate, reload,
//! sleep, send a probe) and reports the events that follow.
pub mod controller;
pub mod laws;
pub mod overlay;
pub mod validate;
