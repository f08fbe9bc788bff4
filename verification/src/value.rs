//! The values that a ballot agrees on, and how a party picks and checks
//! them.
use std::collections::HashMap;
use vstd::prelude::*;

verus! {

/// A value that parties can agree on.
///
/// Implementing this trait marks a type as a value that can be proposed,
/// stored, compared and logged in a ballot. Its wire form is the business of
/// the transport that carries the messages.
pub trait Value: Clone + Eq + core::fmt::Debug + core::fmt::Display {}

/// Selection and verification of the value proposed in the 2a stage.
///
/// Both methods are given the state of the 1b round: for every party that
/// sent a 1b message, the value it last voted for, if any.
///
/// Selection must only pick values that are safe under the BPCon rules: a
/// party must never vote for two different values, even across ballots.
pub trait ValueSelector<V: Value>: Clone {
    /// Whether `v` was selected according to the protocol's rules.
    fn verify(&self, v: &V, m: &HashMap<u64, Option<V>>) -> bool;

    /// The value that the leader proposes.
    fn select(&self, m: &HashMap<u64, Option<V>>) -> V;
}

} // verus!
