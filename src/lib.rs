//! Tick-driven kinematics for sprites in a bounded scene: velocity integration
//! and wrap-around at the edges of the part of the window left free by UI panels.
//!
//! All lengths are fixed-point integers: a pixel length and a world length use the
//! same unit, and a world length is a pixel length divided by the camera scaling.
pub mod layout;
pub mod physics;
pub mod simulation;
