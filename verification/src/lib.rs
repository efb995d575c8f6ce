//! Verified core of the Jugar web platform layer: game modes, speed control,
//! compute tiers, input translation, AI player metrics and game rules.
pub mod text;
pub mod demo;
pub mod simd;
pub mod compute;
pub mod ai;
pub mod input;
pub mod input_state;
pub mod platform;
pub mod render;
pub mod simulation;
pub mod cli;
