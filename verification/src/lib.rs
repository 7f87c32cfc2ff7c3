//! A first-in-first-out queue of message numbers, kept in the segmented
//! lock-free queue of `crossbeam`, with contracts that say what each
//! operation does to the sequence of waiting messages.

pub mod backend;
pub mod history;
pub mod queue;
pub mod rally;
pub mod worker;
pub mod workload;
