//! Node discovery: which pods of a namespace are queried, and under which
//! URL each of them is reached.
//!
//! A pod opts into discovery with the annotation [`VSL_OP_NODE_SCRAPE`].
//! Its RPC URL is `protocol://ip:port/path`, each part taken from an
//! annotation or, where the annotation is absent, from a default.
//!
//! Listing the pods of a namespace is the caller's business. The rules are
//! applied to the listing here.

use crate::annotations::Annotations;
use crate::text::{
    decimal,
    decimal_i32,
    eq_ignore_ascii_case,
    i32_to_string,
    parse_i32,
    str_eq_ignore_ascii_case,
};
use vstd::prelude::*;
use vstd::string::StringExecFns;

verus! {

/// Key of the annotation by which a pod opts into scraping.
pub const VSL_OP_NODE_SCRAPE: &'static str = "vsl.rss3.io/scrape";

/// Key of the annotation that names the port of the pod's RPC interface.
pub const VSL_OP_NODE_RPC_PORT: &'static str = "vsl.rss3.io/port";

/// Key of the annotation that names the path of the pod's RPC interface.
pub const VSL_OP_NODE_RPC_PATH: &'static str = "vsl.rss3.io/path";

/// Key of the annotation that names the URL scheme of the pod's RPC
/// interface.
pub const VSL_OP_NODE_RPC_PROTOCOL: &'static str = "vsl.rss3.io/protocol";

/// The RPC port of a pod that annotates none, or none that is a number.
pub const DEFAULT_RPC_PORT: i32 = 9545;

/// The RPC path of a pod that annotates none.
pub const DEFAULT_RPC_PATH: &'static str = "/";

/// The URL scheme of a pod that annotates none.
pub const DEFAULT_RPC_PROTOCOL: &'static str = "http";

/// What discovery reads of a pod: its annotations and, once the cluster has
/// assigned one, its IP address.
pub struct Pod {
    pub annotations: Annotations,
    pub pod_ip: Option<String>,
}

/// Why discovery produced no endpoint list.
#[derive(Debug, Clone, Copy, PartialEq, Eq, Structural)]
pub enum DiscoveryError {
    /// The cluster control plane could not be asked for the pods.
    Unavailable,
    /// A pod that opted into scraping has no IP address.
    MalformedNode,
}

impl DiscoveryError {
    /// What went wrong, in words.
    pub open spec fn spec_message(&self) -> Seq<char> {
        match self {
            DiscoveryError::Unavailable => "Cluster control plane is unavailable"@,
            DiscoveryError::MalformedNode => "Pod has no IP address"@,
        }
    }

    /// What went wrong, in words.
    pub fn message(&self) -> (message: String)
        ensures
            message@ == self.spec_message(),
    {
        match self {
            DiscoveryError::Unavailable => "Cluster control plane is unavailable".to_owned(),
            DiscoveryError::MalformedNode => "Pod has no IP address".to_owned(),
        }
    }
}

/// The cluster control plane did not answer the request for the pods.
#[derive(Debug, Clone, Copy, PartialEq, Eq, Structural)]
pub struct Unavailable;

impl Pod {
    /// The value annotated under `key`, if any.
    pub open spec fn annotation(&self, key: Seq<char>) -> Option<Seq<char>> {
        if self.annotations@.contains_key(key) {
            Some(self.annotations@[key])
        } else {
            None
        }
    }

    /// The pod opted into scraping: its scrape annotation is `true`, in any
    /// mix of upper and lower case.
    pub open spec fn scrape_enabled(&self) -> bool {
        match self.annotation(VSL_OP_NODE_SCRAPE@) {
            Some(value) => eq_ignore_ascii_case(value, "true"@),
            None => false,
        }
    }

    /// The annotated port where the annotation is the decimal notation of
    /// an `i32`, the default port otherwise.
    pub open spec fn rpc_port(&self) -> int {
        match self.annotation(VSL_OP_NODE_RPC_PORT@) {
            Some(value) => match decimal_i32(value) {
                Some(port) => port,
                None => DEFAULT_RPC_PORT as int,
            },
            None => DEFAULT_RPC_PORT as int,
        }
    }

    /// The annotated path, or the default path.
    pub open spec fn rpc_path(&self) -> Seq<char> {
        match self.annotation(VSL_OP_NODE_RPC_PATH@) {
            Some(value) => value,
            None => DEFAULT_RPC_PATH@,
        }
    }

    /// The annotated protocol, or the default protocol.
    pub open spec fn rpc_protocol(&self) -> Seq<char> {
        match self.annotation(VSL_OP_NODE_RPC_PROTOCOL@) {
            Some(value) => value,
            None => DEFAULT_RPC_PROTOCOL@,
        }
    }

    /// The RPC URL of a pod with an IP address: `protocol://ip:port/path`.
    pub open spec fn rpc_url(&self) -> Option<Seq<char>> {
        match self.pod_ip {
            Some(ip) => Some(
                self.rpc_protocol() + "://"@ + ip@ + ":"@ + decimal(self.rpc_port())
                    + self.rpc_path(),
            ),
            None => None,
        }
    }

    /// The pod opted into scraping and cannot be reached: it has no IP
    /// address.
    pub open spec fn malformed(&self) -> bool {
        self.scrape_enabled() && self.pod_ip is None
    }

    /// The URL under which discovery lists the pod: its RPC URL where it
    /// opted into scraping, nothing otherwise.
    pub open spec fn endpoint(&self) -> Option<Seq<char>> {
        if self.scrape_enabled() {
            self.rpc_url()
        } else {
            None
        }
    }
}

/// The characters of each string of `strings`.
pub open spec fn views(strings: Seq<String>) -> Seq<Seq<char>> {
    strings.map_values(|s: String| s@)
}

/// What a discovery returned, with each URL as characters.
pub open spec fn discovery_view(discovery: Result<Vec<String>, DiscoveryError>) -> Result<
    Seq<Seq<char>>,
    DiscoveryError,
> {
    match discovery {
        Ok(urls) => Ok(views(urls@)),
        Err(error) => Err(error),
    }
}

/// Some pod of `pods` is malformed.
pub open spec fn any_malformed(pods: Seq<Pod>) -> bool {
    exists|i: int| 0 <= i < pods.len() && (#[trigger] pods[i]).malformed()
}

/// The endpoints of the pods that opted into scraping, in the order of the
/// listing.
pub open spec fn endpoints(pods: Seq<Pod>) -> Seq<Seq<char>> {
    pods.filter_map(|pod: Pod| pod.endpoint())
}

/// What discovery makes of a listing: the endpoints, or why there are
/// none.
pub open spec fn discovered(listing: Result<Seq<Pod>, Unavailable>) -> Result<
    Seq<Seq<char>>,
    DiscoveryError,
> {
    match listing {
        Ok(pods) => if any_malformed(pods) {
            Err(DiscoveryError::MalformedNode)
        } else {
            Ok(endpoints(pods))
        },
        Err(_) => Err(DiscoveryError::Unavailable),
    }
}

/// A listing with its pods as a sequence.
pub open spec fn listing_view(listing: Result<Vec<Pod>, Unavailable>) -> Result<
    Seq<Pod>,
    Unavailable,
> {
    match listing {
        Ok(pods) => Ok(pods@),
        Err(unavailable) => Err(unavailable),
    }
}

/// Whether the pod opted into scraping.
pub fn should_scrape_pod(pod: &Pod) -> (scrape: bool)
    ensures
        scrape == pod.scrape_enabled(),
{
    match pod.annotations.get(VSL_OP_NODE_SCRAPE) {
        Some(value) => str_eq_ignore_ascii_case(value.as_str(), "true"),
        None => false,
    }
}

/// The port of the pod's RPC interface. An annotation that is not the
/// decimal notation of an `i32` counts as absent: it is no error.
pub fn get_rpc_port(pod: &Pod) -> (port: i32)
    ensures
        port == pod.rpc_port(),
{
    match pod.annotations.get(VSL_OP_NODE_RPC_PORT) {
        Some(value) => match parse_i32(value.as_str()) {
            Some(port) => port,
            None => DEFAULT_RPC_PORT,
        },
        None => DEFAULT_RPC_PORT,
    }
}

/// The path of the pod's RPC interface.
pub fn get_rpc_path(pod: &Pod) -> (path: String)
    ensures
        path@ == pod.rpc_path(),
{
    match pod.annotations.get(VSL_OP_NODE_RPC_PATH) {
        Some(value) => value.clone(),
        None => DEFAULT_RPC_PATH.to_owned(),
    }
}

/// The URL scheme of the pod's RPC interface.
pub fn get_rpc_protocol(pod: &Pod) -> (protocol: String)
    ensures
        protocol@ == pod.rpc_protocol(),
{
    match pod.annotations.get(VSL_OP_NODE_RPC_PROTOCOL) {
        Some(value) => value.clone(),
        None => DEFAULT_RPC_PROTOCOL.to_owned(),
    }
}

/// The URL of the pod's RPC interface.
///
/// Fails on a pod without an IP address, and only on such a pod.
pub fn extract_pod_rpc_info(pod: &Pod) -> (url: Result<String, DiscoveryError>)
    ensures
        match url {
            Ok(url) => pod.rpc_url() == Some(url@),
            Err(error) => pod.pod_ip is None && error == DiscoveryError::MalformedNode,
        },
{
    match &pod.pod_ip {
        Some(ip) => {
            let mut url = get_rpc_protocol(pod);
            url.append("://");
            url.append(ip.as_str());
            url.append(":");
            url.append(i32_to_string(get_rpc_port(pod)).as_str());
            url.append(get_rpc_path(pod).as_str());
            Ok(url)
        },
        None => Err(DiscoveryError::MalformedNode),
    }
}

/// The directory of the nodes of one namespace.
#[derive(Clone)]
pub struct Client {
    namespace: String,
}

impl Client {
    /// The namespace whose pods this directory is about.
    pub closed spec fn spec_namespace(&self) -> Seq<char> {
        self.namespace@
    }

    /// The directory of the namespace `namespace`.
    pub fn new(namespace: String) -> (client: Client)
        ensures
            client.spec_namespace() == namespace@,
    {
        Client { namespace }
    }

    /// The namespace whose pods are to be listed.
    pub fn namespace(&self) -> (namespace: &String)
        ensures
            namespace@ == self.spec_namespace(),
    {
        &self.namespace
    }

    /// The RPC URLs of the pods of the namespace that opted into scraping.
    ///
    /// `listing` is what the control plane answered when asked for the pods
    /// of the namespace. Where it did not answer, discovery is
    /// [`DiscoveryError::Unavailable`]. Where it did, the pods annotated
    /// [`VSL_OP_NODE_SCRAPE`]`=true` are kept, and each gives one URL, in
    /// the order of the listing.
    ///
    /// One pod that opted in and has no IP address fails the whole
    /// discovery with [`DiscoveryError::MalformedNode`]: such a pod is taken
    /// as a sign that the fleet is misconfigured, and no partial list is
    /// returned. A pod that did not opt in is never looked at further.
    pub fn discover_rpc_endpoints(&self, listing: Result<Vec<Pod>, Unavailable>) -> (discovery:
        Result<Vec<String>, DiscoveryError>)
        ensures
            discovery_view(discovery) == discovered(listing_view(listing)),
    {
        let pods = match listing {
            Ok(pods) => pods,
            Err(_) => {
                return Err(DiscoveryError::Unavailable);
            },
        };
        let mut urls: Vec<String> = Vec::new();
        let mut i: usize = 0;
        assert(pods@.take(0) =~= Seq::<Pod>::empty());
        assert(views(urls@) =~= endpoints(pods@.take(0)));
        while i < pods.len()
            invariant
                listing == Ok::<Vec<Pod>, Unavailable>(pods),
                i <= pods@.len(),
                forall|j: int| 0 <= j < i ==> !(#[trigger] pods@[j]).malformed(),
                views(urls@) == endpoints(pods@.take(i as int)),
            decreases pods@.len() - i,
        {
            let ghost before = urls@;
            proof {
                pods@.lemma_filter_map_take_succ(|pod: Pod| pod.endpoint(), i as int);
            }
            if should_scrape_pod(&pods[i]) {
                match extract_pod_rpc_info(&pods[i]) {
                    Ok(url) => {
                        urls.push(url);
                        assert(views(urls@) =~= views(before) + seq![url@]);
                    },
                    Err(error) => {
                        assert(pods@[i as int].malformed());
                        return Err(error);
                    },
                }
            }
            i += 1;
        }
        assert(pods@.take(i as int) =~= pods@);
        Ok(urls)
    }
}

} // verus!
