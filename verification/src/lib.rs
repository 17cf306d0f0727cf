//! Viewport fitting for a two-dimensional orthographic camera.
//!
//! A fixed content rectangle is kept fully visible, centred and undistorted
//! in a window that the user may resize at will. [`fit`] computes the visible
//! extent for one window size; [`camera`] holds the system that follows the
//! stream of window events and keeps the camera's projection up to date.

pub mod camera;
pub mod channel;
pub mod fit;
