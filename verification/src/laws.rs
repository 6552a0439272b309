//! What holds of discovery and of the two aggregate views, whatever the
//! cluster lists and however the calls end.
//!
//! Each law is a proof function over the spec functions that the
//! contracts of [`crate::k8s`], [`crate::service`] and [`crate::route`]
//! are written in.

use crate::k8s::{
    any_malformed,
    discovered,
    endpoints,
    DiscoveryError,
    Pod,
    Unavailable,
    DEFAULT_RPC_PORT,
    VSL_OP_NODE_RPC_PATH,
    VSL_OP_NODE_RPC_PORT,
    VSL_OP_NODE_RPC_PROTOCOL,
};
use crate::route::{
    charted,
    listed,
    peers_plan,
    peers_response,
    topology_plan,
    topology_response,
    Settled,
};
use crate::rpc_types::{PeerDump, PeerInfo};
use crate::service::{answer, Outcome};
use crate::text::{decimal, decimal_digits, digit_char};
use std::time::Duration;
use vstd::multiset::Multiset;
use vstd::prelude::*;
use vstd::seq_lib::lemma_multiset_commutative;

verus! {

/// Keeping the answers of a concatenation is keeping those of each part.
proof fn lemma_filter_map_add<A, B>(a: Seq<A>, b: Seq<A>, f: spec_fn(A) -> Option<B>)
    ensures
        (a + b).filter_map(f) == a.filter_map(f) + b.filter_map(f),
    decreases b.len(),
{
    if b.len() == 0 {
        assert(a + b =~= a);
        assert(a.filter_map(f) + b.filter_map(f) =~= a.filter_map(f));
    } else {
        lemma_filter_map_add(a, b.drop_last(), f);
        assert((a + b).drop_last() =~= a + b.drop_last());
        assert((a + b).last() == b.last());
        match f(b.last()) {
            Some(kept) => {
                assert((a + b).filter_map(f) =~= a.filter_map(f) + (b.drop_last().filter_map(f)
                    + seq![kept]));
            },
            None => {},
        }
    }
}

/// The answers kept of a sequence, split at position `i`.
proof fn lemma_filter_map_split<A, B>(s: Seq<A>, f: spec_fn(A) -> Option<B>, i: int)
    requires
        0 <= i < s.len(),
    ensures
        s.filter_map(f) == s.take(i).filter_map(f) + seq![s[i]].filter_map(f) + s.skip(
            i + 1,
        ).filter_map(f),
        s.remove(i).filter_map(f) == s.take(i).filter_map(f) + s.skip(i + 1).filter_map(f),
        seq![s[i]].filter_map(f) == match f(s[i]) {
            Some(kept) => seq![kept],
            None => Seq::empty(),
        },
{
    assert(s =~= s.take(i) + seq![s[i]] + s.skip(i + 1));
    assert(s.remove(i) =~= s.take(i) + s.skip(i + 1));
    lemma_filter_map_add(s.take(i) + seq![s[i]], s.skip(i + 1), f);
    lemma_filter_map_add(s.take(i), seq![s[i]], f);
    lemma_filter_map_add(s.take(i), s.skip(i + 1), f);
    Seq::lemma_filter_map_singleton(s[i], f);
}

/// As many answers are kept as there are elements with one.
proof fn lemma_filter_map_len<A, B>(
    s: Seq<A>,
    f: spec_fn(A) -> Option<B>,
    answered: spec_fn(A) -> bool,
)
    requires
        forall|a: A| #[trigger] answered(a) == f(a) is Some,
    ensures
        s.filter_map(f).len() == s.filter(answered).len(),
    decreases s.len(),
{
    reveal(Seq::filter);
    if s.len() > 0 {
        lemma_filter_map_len(s.drop_last(), f, answered);
    }
}

/// The answers kept of two sequences with the same elements are the same,
/// up to their order.
proof fn lemma_filter_map_permutation<A, B>(a: Seq<A>, b: Seq<A>, f: spec_fn(A) -> Option<B>)
    requires
        a.to_multiset() == b.to_multiset(),
    ensures
        a.filter_map(f).to_multiset() == b.filter_map(f).to_multiset(),
    decreases a.len(),
{
    a.to_multiset_ensures();
    b.to_multiset_ensures();
    if a.len() == 0 {
        assert(b.len() == 0);
    } else {
        let x = a.last();
        let shorter = a.drop_last();
        shorter.to_multiset_ensures();
        assert(a =~= shorter.push(x));
        assert(a.to_multiset() =~= shorter.to_multiset().insert(x));
        assert(b.to_multiset().count(x) > 0);
        assert(b.contains(x));
        let j = choose|j: int| 0 <= j < b.len() && b[j] == x;
        assert(b.remove(j).to_multiset() =~= shorter.to_multiset());
        lemma_filter_map_permutation(shorter, b.remove(j), f);
        lemma_filter_map_split(b, f, j);
        let front = b.take(j).filter_map(f);
        let back = b.skip(j + 1).filter_map(f);
        let middle = seq![x].filter_map(f);
        lemma_multiset_commutative(front + middle, back);
        lemma_multiset_commutative(front, middle);
        lemma_multiset_commutative(front, back);
        match f(x) {
            Some(kept) => {
                shorter.filter_map(f).to_multiset_ensures();
                assert(a.filter_map(f) =~= shorter.filter_map(f).push(kept));
                Seq::<B>::empty().to_multiset_ensures();
                assert(middle =~= Seq::<B>::empty().push(kept));
                assert(middle.to_multiset() =~= Multiset::<B>::empty().insert(kept));
                assert(b.filter_map(f).to_multiset() =~= b.remove(j).filter_map(
                    f,
                ).to_multiset().insert(kept));
            },
            None => {
                assert(b.filter_map(f) =~= b.remove(j).filter_map(f));
            },
        }
    }
}

/// The pods that discovery lists are the pods that opted into scraping, and
/// no others: where no pod is malformed, the endpoints are the URLs of the
/// eligible pods, one each and in the order of the listing.
pub proof fn law_discovery_lists_exactly_the_eligible(pods: Seq<Pod>)
    requires
        !any_malformed(pods),
    ensures
        endpoints(pods) == pods.filter(|pod: Pod| pod.scrape_enabled()).map_values(
            |pod: Pod| pod.rpc_url()->Some_0,
        ),
    decreases pods.len(),
{
    let eligible = |pod: Pod| pod.scrape_enabled();
    let url = |pod: Pod| pod.rpc_url()->Some_0;
    reveal(Seq::filter);
    if pods.len() == 0 {
        assert(endpoints(pods) =~= pods.filter(eligible).map_values(url));
    } else {
        let rest = pods.drop_last();
        let last = pods.last();
        assert forall|i: int| 0 <= i < rest.len() implies !(#[trigger] rest[i]).malformed() by {
            assert(rest[i] == pods[i]);
        }
        law_discovery_lists_exactly_the_eligible(rest);
        assert(!pods[pods.len() - 1].malformed());
        if last.scrape_enabled() {
            assert(pods.filter(eligible) == rest.filter(eligible).push(last));
        }
        assert(endpoints(pods) =~= pods.filter(eligible).map_values(url));
    }
}

/// A pod that annotates neither port nor path nor protocol is reached at
/// `http://<ip>:9545/`.
pub proof fn law_unannotated_pod_has_default_url(pod: Pod)
    requires
        pod.pod_ip is Some,
        pod.annotation(VSL_OP_NODE_RPC_PORT@) is None,
        pod.annotation(VSL_OP_NODE_RPC_PATH@) is None,
        pod.annotation(VSL_OP_NODE_RPC_PROTOCOL@) is None,
    ensures
        pod.rpc_url() == Some("http://"@ + pod.pod_ip->Some_0@ + ":9545/"@),
{
    reveal_strlit("http");
    reveal_strlit("://");
    reveal_strlit("http://");
    reveal_strlit(":");
    reveal_strlit("/");
    reveal_strlit(":9545/");
    assert(decimal(DEFAULT_RPC_PORT as int) =~= seq!['9', '5', '4', '5']) by {
        reveal_with_fuel(decimal_digits, 4);
        assert(digit_char(9) == '9');
        assert(digit_char(5) == '5');
        assert(digit_char(4) == '4');
    }
    let ip = pod.pod_ip->Some_0@;
    assert("http"@ + "://"@ + ip + ":"@ + seq!['9', '5', '4', '5'] + "/"@ =~= "http://"@ + ip
        + ":9545/"@);
}

/// The tasks of a `/peers` request as they settle where each runs its call
/// to the end: every task settles, with the answer of its call.
pub open spec fn peers_tasks_settled(outcomes: Seq<Outcome<PeerInfo>>) -> Seq<
    Settled<Option<PeerInfo>>,
> {
    outcomes.map_values(|outcome: Outcome<PeerInfo>| Ok(answer(outcome)))
}

/// The tasks of a `/topology` request as they settle where each runs its
/// two calls to the end: every task settles, with the answers of both.
pub open spec fn topology_tasks_settled(
    outcomes: Seq<(Outcome<PeerInfo>, Outcome<PeerDump>)>,
) -> Seq<Settled<(Option<PeerInfo>, Option<PeerDump>)>> {
    outcomes.map_values(
        |pair: (Outcome<PeerInfo>, Outcome<PeerDump>)| Ok((answer(pair.0), answer(pair.1))),
    )
}

/// An endpoint whose call outlives the deadline, or fails, leaves no entry
/// in `/peers`: the response is the one of the request without that
/// endpoint.
pub proof fn law_unanswered_call_leaves_no_entry(outcomes: Seq<Outcome<PeerInfo>>, i: int)
    requires
        0 <= i < outcomes.len(),
        answer(outcomes[i]) is None,
    ensures
        peers_response(peers_tasks_settled(outcomes)) == peers_response(
            peers_tasks_settled(outcomes.remove(i)),
        ),
{
    let settled = peers_tasks_settled(outcomes);
    assert(peers_tasks_settled(outcomes.remove(i)) =~= settled.remove(i));
    lemma_filter_map_split(settled, |task: Settled<Option<PeerInfo>>| listed(task), i);
    assert(listed(settled[i]) is None);
}

/// An endpoint that gives its info and fails to give its peers has no
/// record in `/topology`, and has its entry in `/peers`.
pub proof fn law_half_answer_is_listed_and_not_charted(
    outcomes: Seq<(Outcome<PeerInfo>, Outcome<PeerDump>)>,
    i: int,
)
    requires
        0 <= i < outcomes.len(),
        answer(outcomes[i].0) is Some,
        answer(outcomes[i].1) is None,
    ensures
        topology_response(topology_tasks_settled(outcomes)) == topology_response(
            topology_tasks_settled(outcomes.remove(i)),
        ),
        ({
            let infos = outcomes.map_values(
                |pair: (Outcome<PeerInfo>, Outcome<PeerDump>)| pair.0,
            );
            peers_response(peers_tasks_settled(infos)) == peers_response(
                peers_tasks_settled(infos.take(i)),
            ).push(answer(outcomes[i].0)->Some_0) + peers_response(
                peers_tasks_settled(infos.skip(i + 1)),
            )
        }),
{
    let settled = topology_tasks_settled(outcomes);
    assert(topology_tasks_settled(outcomes.remove(i)) =~= settled.remove(i));
    lemma_filter_map_split(
        settled,
        |task: Settled<(Option<PeerInfo>, Option<PeerDump>)>| charted(task),
        i,
    );
    assert(charted(settled[i]) is None);

    let infos = outcomes.map_values(|pair: (Outcome<PeerInfo>, Outcome<PeerDump>)| pair.0);
    let listing = peers_tasks_settled(infos);
    assert(peers_tasks_settled(infos.take(i)) =~= listing.take(i));
    assert(peers_tasks_settled(infos.skip(i + 1)) =~= listing.skip(i + 1));
    lemma_filter_map_split(listing, |task: Settled<Option<PeerInfo>>| listed(task), i);
    assert(listed(listing[i]) == answer(outcomes[i].0));
}

/// `/peers` has one entry for each task that settled with an info, and
/// `/topology` one for each task that settled with both answers.
pub proof fn law_response_counts_the_answers(
    peers: Seq<Settled<Option<PeerInfo>>>,
    topology: Seq<Settled<(Option<PeerInfo>, Option<PeerDump>)>>,
)
    ensures
        peers_response(peers).len() == peers.filter(
            |task: Settled<Option<PeerInfo>>| listed(task) is Some,
        ).len(),
        topology_response(topology).len() == topology.filter(
            |task: Settled<(Option<PeerInfo>, Option<PeerDump>)>| charted(task) is Some,
        ).len(),
{
    lemma_filter_map_len(
        peers,
        |task: Settled<Option<PeerInfo>>| listed(task),
        |task: Settled<Option<PeerInfo>>| listed(task) is Some,
    );
    lemma_filter_map_len(
        topology,
        |task: Settled<(Option<PeerInfo>, Option<PeerDump>)>| charted(task),
        |task: Settled<(Option<PeerInfo>, Option<PeerDump>)>| charted(task) is Some,
    );
}

/// The entries of a response do not depend on the order in which the
/// tasks are taken: the same tasks in another order give the same entries,
/// in some order.
pub proof fn law_response_ignores_the_order_of_tasks(
    peers: Seq<Settled<Option<PeerInfo>>>,
    peers_reordered: Seq<Settled<Option<PeerInfo>>>,
    topology: Seq<Settled<(Option<PeerInfo>, Option<PeerDump>)>>,
    topology_reordered: Seq<Settled<(Option<PeerInfo>, Option<PeerDump>)>>,
)
    requires
        peers.to_multiset() == peers_reordered.to_multiset(),
        topology.to_multiset() == topology_reordered.to_multiset(),
    ensures
        peers_response(peers).to_multiset() == peers_response(peers_reordered).to_multiset(),
        topology_response(topology).to_multiset() == topology_response(
            topology_reordered,
        ).to_multiset(),
{
    lemma_filter_map_permutation(
        peers,
        peers_reordered,
        |task: Settled<Option<PeerInfo>>| listed(task),
    );
    lemma_filter_map_permutation(
        topology,
        topology_reordered,
        |task: Settled<(Option<PeerInfo>, Option<PeerDump>)>| charted(task),
    );
}

/// Where the control plane does not list the pods, discovery is
/// unavailable, both views fail with it, and neither plans a call.
pub proof fn law_unavailable_control_plane_fails_both_views(
    timeout: Duration,
    listing: Result<Seq<Pod>, Unavailable>,
)
    requires
        listing is Err,
    ensures
        discovered(listing) == Err::<Seq<Seq<char>>, DiscoveryError>(DiscoveryError::Unavailable),
        peers_plan(timeout, listing) is Err,
        peers_plan(timeout, listing)->Err_0 == DiscoveryError::Unavailable,
        topology_plan(timeout, listing) is Err,
        topology_plan(timeout, listing)->Err_0 == DiscoveryError::Unavailable,
{
}

} // verus!
