//! The two aggregate views, `/peers` and `/topology`.
//!
//! A request is served in three steps. The calls to make are planned from
//! the listing of the namespace: one task per discovered endpoint. The
//! server runs every task, concurrently, and waits until each has settled.
//! The answers are then assembled: a task that has none leaves no entry.

use crate::k8s::{discovered, listing_view, Client, DiscoveryError, Pod, Unavailable};
use crate::rpc_types::{PeerDump, PeerInfo};
use crate::service::{InfoCall, InfoCallView, PeersCall, PeersCallView};
use std::time::Duration;
use vstd::prelude::*;

verus! {

/// What every request is served from: the node directory, and the deadline
/// of each single RPC call.
#[derive(Clone)]
pub struct AppState {
    pub client: Client,
    pub timeout: Duration,
}

/// One node in the topology view: what it says of itself together with its
/// table of peers.
#[derive(Debug, Clone, PartialEq)]
pub struct PeerInfoWithPeers {
    pub info: PeerInfo,
    pub peers: PeerDump,
}

/// A task ended without an outcome: it panicked or was cancelled.
#[derive(Debug, Clone, Copy, PartialEq, Eq, Structural)]
pub struct JoinError;

/// How the task of one endpoint settled.
pub type Settled<T> = Result<T, JoinError>;

/// The entry that a settled `/peers` task leaves: the node's info where the
/// task has one.
pub open spec fn listed(settled: Settled<Option<PeerInfo>>) -> Option<PeerInfo> {
    match settled {
        Ok(Some(info)) => Some(info),
        Ok(None) => None,
        Err(_) => None,
    }
}

/// Both answers of a node as one record, where both are there.
pub open spec fn merged(info: Option<PeerInfo>, peers: Option<PeerDump>) -> Option<
    PeerInfoWithPeers,
> {
    match (info, peers) {
        (Some(info), Some(peers)) => Some(PeerInfoWithPeers { info, peers }),
        _ => None,
    }
}

/// The entry that a settled `/topology` task leaves: the merged record
/// where the task has both answers.
pub open spec fn charted(settled: Settled<(Option<PeerInfo>, Option<PeerDump>)>) -> Option<
    PeerInfoWithPeers,
> {
    match settled {
        Ok((info, peers)) => merged(info, peers),
        Err(_) => None,
    }
}

/// The `/peers` response to a request whose tasks settled as `settled`.
pub open spec fn peers_response(settled: Seq<Settled<Option<PeerInfo>>>) -> Seq<PeerInfo> {
    settled.filter_map(|task: Settled<Option<PeerInfo>>| listed(task))
}

/// The `/topology` response to a request whose tasks settled as `settled`.
pub open spec fn topology_response(
    settled: Seq<Settled<(Option<PeerInfo>, Option<PeerDump>)>>,
) -> Seq<PeerInfoWithPeers> {
    settled.filter_map(|task: Settled<(Option<PeerInfo>, Option<PeerDump>)>| charted(task))
}

/// The task of one endpoint for `/peers`: one call, for the node's info.
pub open spec fn peers_task(timeout: Duration, url: Seq<char>) -> InfoCallView {
    InfoCallView { url, timeout }
}

/// The task of one endpoint for `/topology`: a call for the node's info,
/// then a call for its connected peers. Each call has the whole deadline
/// to itself.
pub open spec fn topology_task(timeout: Duration, url: Seq<char>) -> (InfoCallView, PeersCallView) {
    (InfoCallView { url, timeout }, PeersCallView { url, connected: true, timeout })
}

/// The tasks of a `/peers` request: one per discovered endpoint, none where
/// discovery fails.
pub open spec fn peers_plan(timeout: Duration, listing: Result<Seq<Pod>, Unavailable>) -> Result<
    Seq<InfoCallView>,
    DiscoveryError,
> {
    match discovered(listing) {
        Ok(urls) => Ok(urls.map_values(|url: Seq<char>| peers_task(timeout, url))),
        Err(error) => Err(error),
    }
}

/// The tasks of a `/topology` request: one per discovered endpoint, none
/// where discovery fails.
pub open spec fn topology_plan(
    timeout: Duration,
    listing: Result<Seq<Pod>, Unavailable>,
) -> Result<Seq<(InfoCallView, PeersCallView)>, DiscoveryError> {
    match discovered(listing) {
        Ok(urls) => Ok(urls.map_values(|url: Seq<char>| topology_task(timeout, url))),
        Err(error) => Err(error),
    }
}

/// The view of each call of `calls`.
pub open spec fn info_calls_view(calls: Seq<InfoCall>) -> Seq<InfoCallView> {
    calls.map_values(|call: InfoCall| call@)
}

/// The views of each pair of calls of `tasks`.
pub open spec fn call_pairs_view(tasks: Seq<(InfoCall, PeersCall)>) -> Seq<
    (InfoCallView, PeersCallView),
> {
    tasks.map_values(|task: (InfoCall, PeersCall)| (task.0@, task.1@))
}

/// What was planned for `/peers`, with each call by its view.
pub open spec fn peers_planned(planned: Result<Vec<InfoCall>, DiscoveryError>) -> Result<
    Seq<InfoCallView>,
    DiscoveryError,
> {
    match planned {
        Ok(calls) => Ok(info_calls_view(calls@)),
        Err(error) => Err(error),
    }
}

/// What was planned for `/topology`, with each call by its view.
pub open spec fn topology_planned(
    planned: Result<Vec<(InfoCall, PeersCall)>, DiscoveryError>,
) -> Result<Seq<(InfoCallView, PeersCallView)>, DiscoveryError> {
    match planned {
        Ok(tasks) => Ok(call_pairs_view(tasks@)),
        Err(error) => Err(error),
    }
}

/// Plans a `/peers` request from the listing of the namespace.
///
/// Where discovery fails, so does the request, and no call is made.
pub fn peers_calls(state: &AppState, listing: Result<Vec<Pod>, Unavailable>) -> (planned: Result<
    Vec<InfoCall>,
    DiscoveryError,
>)
    ensures
        peers_planned(planned) == peers_plan(state.timeout, listing_view(listing)),
{
    let urls = match state.client.discover_rpc_endpoints(listing) {
        Ok(urls) => urls,
        Err(error) => {
            return Err(error);
        },
    };
    let ghost plan = peers_plan(state.timeout, listing_view(listing))->Ok_0;
    let mut calls: Vec<InfoCall> = Vec::new();
    for url in it: urls.into_iter()
        invariant
            it.seq() == urls@,
            plan.len() == urls@.len(),
            forall|i: int|
                0 <= i < plan.len() ==> #[trigger] plan[i] == peers_task(state.timeout, urls@[i]@),
            info_calls_view(calls@) == plan.take(it.index()),
    {
        let ghost before = calls@;
        calls.push(InfoCall { url, timeout: state.timeout });
        assert(info_calls_view(calls@) =~= info_calls_view(before).push(plan[it.index()]));
    }
    assert(plan.take(plan.len() as int) =~= plan);
    Ok(calls)
}

/// Plans a `/topology` request from the listing of the namespace.
///
/// Where discovery fails, so does the request, and no call is made.
pub fn topology_calls(state: &AppState, listing: Result<Vec<Pod>, Unavailable>) -> (planned:
    Result<Vec<(InfoCall, PeersCall)>, DiscoveryError>)
    ensures
        topology_planned(planned) == topology_plan(state.timeout, listing_view(listing)),
{
    let urls = match state.client.discover_rpc_endpoints(listing) {
        Ok(urls) => urls,
        Err(error) => {
            return Err(error);
        },
    };
    let ghost plan = topology_plan(state.timeout, listing_view(listing))->Ok_0;
    let mut tasks: Vec<(InfoCall, PeersCall)> = Vec::new();
    for url in it: urls.into_iter()
        invariant
            it.seq() == urls@,
            plan.len() == urls@.len(),
            forall|i: int|
                0 <= i < plan.len() ==> #[trigger] plan[i] == topology_task(
                    state.timeout,
                    urls@[i]@,
                ),
            call_pairs_view(tasks@) == plan.take(it.index()),
    {
        let ghost before = tasks@;
        let info = InfoCall { url: url.clone(), timeout: state.timeout };
        let peers = PeersCall { url, connected: true, timeout: state.timeout };
        tasks.push((info, peers));
        assert(call_pairs_view(tasks@) =~= call_pairs_view(before).push(plan[it.index()]));
    }
    assert(plan.take(plan.len() as int) =~= plan);
    Ok(tasks)
}

/// Merges the two answers of one node. A node that gave only one of them
/// has no record in the topology.
pub fn merge(info: Option<PeerInfo>, peers: Option<PeerDump>) -> (record: Option<
    PeerInfoWithPeers,
>)
    ensures
        record == merged(info, peers),
{
    match (info, peers) {
        (Some(info), Some(peers)) => Some(PeerInfoWithPeers { info, peers }),
        _ => None,
    }
}

/// Assembles the `/peers` response once every task has settled: the info
/// of each node that gave one, in the order of the tasks.
pub fn list_peers_info(settled: Vec<Settled<Option<PeerInfo>>>) -> (results: Vec<PeerInfo>)
    ensures
        results@ == peers_response(settled@),
{
    let mut results: Vec<PeerInfo> = Vec::new();
    for task in it: settled.into_iter()
        invariant
            it.seq() == settled@,
            results@ == peers_response(settled@.take(it.index())),
    {
        proof {
            settled@.lemma_filter_map_take_succ(
                |task: Settled<Option<PeerInfo>>| listed(task),
                it.index(),
            );
        }
        if let Ok(Some(peer_info)) = task {
            results.push(peer_info);
        }
    }
    assert(settled@.take(settled@.len() as int) =~= settled@);
    results
}

/// Assembles the `/topology` response once every task has settled: the
/// merged record of each node that gave both answers, in the order of the
/// tasks.
pub fn get_topology(settled: Vec<Settled<(Option<PeerInfo>, Option<PeerDump>)>>) -> (results: Vec<
    PeerInfoWithPeers,
>)
    ensures
        results@ == topology_response(settled@),
{
    let mut results: Vec<PeerInfoWithPeers> = Vec::new();
    for task in it: settled.into_iter()
        invariant
            it.seq() == settled@,
            results@ == topology_response(settled@.take(it.index())),
    {
        proof {
            settled@.lemma_filter_map_take_succ(
                |task: Settled<(Option<PeerInfo>, Option<PeerDump>)>| charted(task),
                it.index(),
            );
        }
        if let Ok((info, peers)) = task {
            if let Some(record) = merge(info, peers) {
                results.push(record);
            }
        }
    }
    assert(settled@.take(settled@.len() as int) =~= settled@);
    results
}

} // verus!
