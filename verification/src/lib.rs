//! Audio cue playback core.
//!
//! A long-lived worker owns an exclusive audio output device and serializes
//! playback requests arriving from many callers. Commands travel over a FIFO
//! queue; the worker applies a stop-then-replace preemption policy, so at most
//! one sound is active at any instant. This crate holds the verified decision
//! logic of that subsystem: the command type, the worker state machine, and
//! the caller-facing player model. The device itself, the worker thread and
//! the resource files live outside the verified core and act on the decisions
//! made here.

pub mod command;
pub mod player;
pub mod worker;
