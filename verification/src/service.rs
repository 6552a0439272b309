//! One RPC call under a deadline, and what becomes of its outcome.
//!
//! A call that fails and a call that outlives its deadline come to the
//! same thing: the node has no answer. This is the one place where a
//! node's failure turns into an absent answer.

use crate::rpc_types::{PeerDump, PeerInfo};
use std::time::Duration;
use vstd::prelude::*;

verus! {

/// The deadline of a call passed before the node answered.
#[derive(Debug, Clone, Copy, PartialEq, Eq, Structural)]
pub struct Elapsed;

/// The call failed in transport, or the node's answer was not understood.
#[derive(Debug, Clone, Copy, PartialEq, Eq, Structural)]
pub struct TransportError;

/// How a call under a deadline ended: in time with an answer or a failure,
/// or not in time.
pub type Outcome<T> = Result<Result<T, TransportError>, Elapsed>;

/// `Duration`'s `clone`. A `Duration` is `Copy`: its clone is the duration
/// itself.
pub assume_specification[ <Duration as Clone>::clone ](duration: &Duration) -> (cloned: Duration)
    ensures
        cloned == *duration,
;

/// A call for a node's own [`PeerInfo`], to be given up after `timeout`.
#[derive(Debug, Clone, PartialEq)]
pub struct InfoCall {
    pub url: String,
    pub timeout: Duration,
}

/// A call for a node's [`PeerDump`], of its connected peers only where
/// `connected` is set, to be given up after `timeout`.
#[derive(Debug, Clone, PartialEq)]
pub struct PeersCall {
    pub url: String,
    pub connected: bool,
    pub timeout: Duration,
}

/// An [`InfoCall`] with its URL as characters.
pub ghost struct InfoCallView {
    pub url: Seq<char>,
    pub timeout: Duration,
}

/// A [`PeersCall`] with its URL as characters.
pub ghost struct PeersCallView {
    pub url: Seq<char>,
    pub connected: bool,
    pub timeout: Duration,
}

impl View for InfoCall {
    type V = InfoCallView;

    open spec fn view(&self) -> InfoCallView {
        InfoCallView { url: self.url@, timeout: self.timeout }
    }
}

impl View for PeersCall {
    type V = PeersCallView;

    open spec fn view(&self) -> PeersCallView {
        PeersCallView { url: self.url@, connected: self.connected, timeout: self.timeout }
    }
}

/// The answer that an outcome holds: the node's, where the call ended in
/// time and well, none otherwise.
pub open spec fn answer<T>(outcome: Outcome<T>) -> Option<T> {
    match outcome {
        Ok(Ok(answer)) => Some(answer),
        Ok(Err(_)) => None,
        Err(_) => None,
    }
}

/// The node's own info out of the outcome of an [`InfoCall`].
pub fn info(outcome: Outcome<PeerInfo>) -> (peer_info: Option<PeerInfo>)
    ensures
        peer_info == answer(outcome),
{
    match outcome {
        Ok(Ok(peer_info)) => Some(peer_info),
        Ok(Err(_)) => None,
        Err(_) => None,
    }
}

/// The node's peer table out of the outcome of a [`PeersCall`].
pub fn peers(outcome: Outcome<PeerDump>) -> (peer_dump: Option<PeerDump>)
    ensures
        peer_dump == answer(outcome),
{
    match outcome {
        Ok(Ok(peer_dump)) => Some(peer_dump),
        Ok(Err(_)) => None,
        Err(_) => None,
    }
}

} // verus!
