//! A singly linked list of exclusively owned, heap-allocated nodes, with
//! a contract on every operation that Verus proves of its code.
//!
//! [`linkedlist`] holds the list, its nodes and its iterator; [`laws`] holds
//! what follows from their contracts for whole runs of calls.

pub mod laws;
pub mod linkedlist;
