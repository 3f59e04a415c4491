//! The simulation-and-presentation core of a side-scrolling train game.
//!
//! A rigid-body solver moves the locomotive; everything that is decided
//! around it each frame lives here: where decoration is wrapped to, where the
//! camera looks, in which order things are painted, and what the low-resolution
//! presenter hands to the screen.
//!
//! Every quantity is a fixed-point integer, counted in thousandths: lengths in
//! thousandths of a logical pixel, angles in thousandths of a radian, ratios in
//! thousandths of one. The caller turns them into whatever its renderer and its
//! physics solver take.

pub mod camscale;
pub mod compositor;
pub mod config;
pub mod engine;
pub mod entity;
pub mod fixed;
pub mod frame;
pub mod grass;
pub mod input;
pub mod physics;
pub mod recycler;
pub mod sprite;
pub mod texture;
pub mod track;
pub mod traits;
