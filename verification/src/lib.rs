//! Stateful, per-sample audio effect primitives: delay lines, comb and allpass
//! filters, second-order sections, waveshapers, and the chorus, the phaser and
//! four reverberators built from them.
//!
//! # Samples
//!
//! A sample is carried as a 64-bit word, the bit pattern of a
//! double-precision value ([`sample`]). The crate stores, orders and routes
//! such words. It compares them, so it can hold a setting within its range,
//! but it does no arithmetic on them.
//!
//! # Steps
//!
//! Every node keeps its own history and shares it with no other node. One
//! step of a node takes one input sample and gives one output sample, in three
//! parts:
//!
//! 1. the node hands out its taps, the samples of its history that the step
//!    reads;
//! 2. the host computes the output from the input and the taps, by the
//!    recurrence that the node's module states;
//! 3. the node takes the input and the output into its history.
//!
//! What the crate proves is the discrete half of that: that a tap is the
//! sample of so many steps ago, that every read lies within the history, that
//! a node built from a refused configuration does not exist, and that a
//! setting out of its range is set to the nearer end of the range.
//!
//! # Construction
//!
//! A node is built once, over a history of silence, and its buffers never
//! grow. A setting out of range is corrected, never refused
//! ([`sample::correction`] tells which way); a length that would let a step
//! read outside its history is refused with a [`error::ConfigError`].

pub mod allpass;
pub mod chorus;
pub mod comb;
pub mod delay;
pub mod error;
pub mod filter;
pub mod lfo;
pub mod line;
pub mod phaser;
pub mod reverb;
pub mod ring;
pub mod sample;
pub mod waveshaper;
