//! A small generative-art runtime: a composable vector-drawing model
//! (fillable and strokable geometry painted onto a per-frame canvas) and
//! a frame-execution state machine that drives a reseedable sketch.


pub mod canvas;
pub mod paint;
pub mod rng;
pub mod sketch;
