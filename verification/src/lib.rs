//! A terminal-application runtime: a frame-based display surface over a raw
//! character terminal, with reliable keyboard input for interactive
//! text-mode programs.
//!
//! Three parts carry the weight. The keyboard reconciliation engine
//! ([`reconcile`], [`keyboard`]) merges an unreliable, focus-blind key-state
//! sampler with a focus-aware but decode-limited input stream into a single
//! press/release stream, delivered once per frame. The rendering pipeline
//! ([`terminal`], [`render`]) turns a mutable character grid into a minimal
//! sequence of terminal commands, buffered and flushed once per frame. The
//! frame-loop decisions ([`app`]) pace both under a configurable rate.
//!
//! What must touch the host — the observer threads, the frame loop's sleeps,
//! and panic-safe teardown — lives in the surrounding application; the
//! library's [`backend`] holds the few trusted calls the verified code
//! makes itself.

pub mod app;
pub mod backend;
pub mod drawing;
pub mod gui;
pub mod input;
pub mod keyboard;
pub mod reconcile;
pub mod render;
pub mod spatial;
pub mod terminal;
