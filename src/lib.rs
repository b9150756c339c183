//! The world model of a small 2D platformer. A versioned list of rooms is
//! kept in step with a scene of door platforms: whenever the rooms are
//! written, the next reconciliation pass tears down every platform hierarchy
//! and builds one per room, in order. Physics materials and collider sizes
//! are derived per kind of body, and a static boundary, the pause mode and
//! its overlay complete the scene.
//!
//! Lengths are world units in thousandths and coefficients are thousandths.

pub mod physics;
pub mod rooms;
pub mod scene;
pub mod door;
pub mod environ;
pub mod state;
pub mod player;
