//! Searching freshly generated key pairs for an address whose text carries a
//! wanted prefix and suffix.
//!
//! * [`pattern`] compiles a pattern and compares candidates against it, on
//!   bytes, under one of the case policies; [`ascii`] holds the letter
//!   classes that the policies rest on.
//! * [`config`] holds the checked parameters of a run and decides whether an
//!   address satisfies the whole query; [`pool`] chooses the number of
//!   workers.
//! * [`worker`] is the bookkeeping of one worker and [`progress`] the policy
//!   of progress reports: both are functions of plain values.
//! * [`search`] runs the workers: it generates key pairs ([`keygen`]), counts
//!   on shared atomics and reads the clock ([`counters`]), and ends the run
//!   with the first match that is published.
//! * [`replay`] runs a query over a given stream of candidates, where the
//!   outcome is determined and is stated exactly.
//!
//! Every function states what it computes over byte sequences and integers,
//! and Verus checks the statement against the code. What is taken on trust
//! is named where it stands: the calls into `solana_sdk`, `num_cpus`, `rayon`
//! and the clock of `std`.

pub mod ascii;
mod clock;
pub mod config;
pub mod counters;
pub mod keygen;
mod parallel;
pub mod pattern;
pub mod pool;
pub mod progress;
pub mod replay;
pub mod search;
pub mod worker;
