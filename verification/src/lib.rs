//! Drives a VISCA pan/tilt/zoom camera.
//!
//! The library decides: which command a key, a button or a stick asks for,
//! which bytes go on the wire, what the camera's answers mean and what the
//! operator is told. Everything that opens a port, waits or draws is left to
//! the program around it, which hands in plain values and takes plain values
//! back.

pub mod args;
pub mod bridge;
pub mod cli;
pub mod clock;
pub mod config;
pub mod connection;
pub mod deflection;
pub mod drive;
pub mod drives;
pub mod error;
pub mod focus;
pub mod frames;
pub mod gamepad;
pub mod keymap;
pub mod keys;
pub mod labels;
pub mod nudge;
pub mod padlock;
pub mod pan_tilt;
pub mod power;
pub mod preset;
pub mod promises;
pub mod rocker;
pub mod running;
pub mod session;
pub mod shot;
pub mod state;
pub mod taps;
pub mod text;
pub mod title;
pub mod turns;
pub mod ui;
pub mod window;
pub mod window_keys;
pub mod wire;
pub mod workings;
pub mod worker;
pub mod zoom;
