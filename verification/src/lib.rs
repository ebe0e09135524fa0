//! Core of a fixed-timestep 2D arcade game for a vblank-paced platform:
//! integer rectangle geometry, paddle/ball/brick collision resolution, a
//! sawtooth audio synthesizer paced by a buffer-fill counter, and the
//! per-frame decision logic of the driver loop. All hardware access (vblank
//! polling, input registers, framebuffer, audio FIFO) stays outside; the
//! functions here map plain values read from the platform to plain values
//! handed back to it.

pub mod audio;
pub mod bridge;
pub mod game;
pub mod geometry;
pub mod input;
