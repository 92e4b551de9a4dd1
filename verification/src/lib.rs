//! Proves that the data read from a passport satisfies a fixed circuit, and
//! checks the proof.
//!
//! The raw inputs of a request are normalised into an assignment of the
//! circuit's input signals ([`inputs`], [`assignment`], [`decimal`]). The
//! pipeline loads the circuit, runs the witness program ([`calculator`]),
//! generates a key pair, proves and verifies ([`pipeline`], [`circuit`]),
//! with the cryptography left to the backend ([`backend`]). How an
//! invocation went is one stage of a small state machine, reported as one
//! number ([`outcome`]).

pub mod assignment;
pub mod backend;
pub mod calculator;
pub mod circuit;
pub mod decimal;
pub mod inputs;
pub mod outcome;
pub mod pipeline;
