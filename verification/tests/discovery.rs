use node_info_aggregator::annotations::Annotations;
use node_info_aggregator::k8s::{
    extract_pod_rpc_info, get_rpc_path, get_rpc_port, get_rpc_protocol, should_scrape_pod, Client,
    DiscoveryError, Pod, Unavailable, DEFAULT_RPC_PATH, DEFAULT_RPC_PORT, DEFAULT_RPC_PROTOCOL,
    VSL_OP_NODE_RPC_PATH, VSL_OP_NODE_RPC_PORT, VSL_OP_NODE_RPC_PROTOCOL, VSL_OP_NODE_SCRAPE,
};

fn pod(annotations: &[(&str, &str)], ip: Option<&str>) -> Pod {
    let mut map = Annotations::new();
    for (key, value) in annotations {
        map.insert(key.to_string(), value.to_string());
    }
    Pod { annotations: map, pod_ip: ip.map(|ip| ip.to_string()) }
}

fn pod_with_scrape(value: Option<&str>) -> Pod {
    match value {
        Some(value) => pod(&[(VSL_OP_NODE_SCRAPE, value)], Some("10.0.0.1")),
        None => pod(&[], Some("10.0.0.1")),
    }
}

fn pod_with_port(value: &str) -> Pod {
    pod(&[(VSL_OP_NODE_RPC_PORT, value)], Some("10.0.0.1"))
}

#[test]
fn annotation_keys_and_defaults_are_the_documented_ones() {
    assert_eq!(VSL_OP_NODE_SCRAPE, "vsl.rss3.io/scrape");
    assert_eq!(VSL_OP_NODE_RPC_PORT, "vsl.rss3.io/port");
    assert_eq!(VSL_OP_NODE_RPC_PATH, "vsl.rss3.io/path");
    assert_eq!(VSL_OP_NODE_RPC_PROTOCOL, "vsl.rss3.io/protocol");
    assert_eq!(DEFAULT_RPC_PORT, 9545);
    assert_eq!(DEFAULT_RPC_PATH, "/");
    assert_eq!(DEFAULT_RPC_PROTOCOL, "http");
}

#[test]
fn scrape_annotation_is_compared_without_case() {
    assert!(should_scrape_pod(&pod_with_scrape(Some("True"))));
    assert!(should_scrape_pod(&pod_with_scrape(Some("TRUE"))));
    assert!(!should_scrape_pod(&pod_with_scrape(Some("1"))));
    assert!(!should_scrape_pod(&pod_with_scrape(None)));
}

#[test]
fn scrape_annotation_must_be_the_whole_word() {
    assert!(should_scrape_pod(&pod_with_scrape(Some("true"))));
    assert!(should_scrape_pod(&pod_with_scrape(Some("tRuE"))));
    assert!(!should_scrape_pod(&pod_with_scrape(Some(""))));
    assert!(!should_scrape_pod(&pod_with_scrape(Some("false"))));
    assert!(!should_scrape_pod(&pod_with_scrape(Some("yes"))));
    assert!(!should_scrape_pod(&pod_with_scrape(Some(" true"))));
    assert!(!should_scrape_pod(&pod_with_scrape(Some("true "))));
    assert!(!should_scrape_pod(&pod_with_scrape(Some("tru"))));
    assert!(!should_scrape_pod(&pod_with_scrape(Some("truee"))));
}

#[test]
fn scrape_annotation_folds_ascii_letters_only() {
    assert!(!should_scrape_pod(&pod_with_scrape(Some("trüe"))));
    assert!(!should_scrape_pod(&pod_with_scrape(Some("ｔｒｕｅ"))));
    assert!(!should_scrape_pod(&pod_with_scrape(Some("ＴＲＵＥ"))));
}

#[test]
fn scrape_annotation_is_read_under_its_own_key() {
    let other = pod(&[(VSL_OP_NODE_RPC_PORT, "true"), ("scrape", "true")], Some("10.0.0.1"));
    assert!(!should_scrape_pod(&other));
}

#[test]
fn port_is_the_annotated_number() {
    assert_eq!(get_rpc_port(&pod_with_port("8080")), 8080);
    assert_eq!(get_rpc_port(&pod_with_port("0")), 0);
    assert_eq!(get_rpc_port(&pod_with_port("+80")), 80);
    assert_eq!(get_rpc_port(&pod_with_port("-1")), -1);
    assert_eq!(get_rpc_port(&pod_with_port("-0")), 0);
    assert_eq!(get_rpc_port(&pod_with_port("0009545")), 9545);
    assert_eq!(get_rpc_port(&pod_with_port("00000000000000000000012")), 12);
    assert_eq!(get_rpc_port(&pod_with_port("2147483647")), i32::MAX);
    assert_eq!(get_rpc_port(&pod_with_port("-2147483648")), i32::MIN);
    assert_eq!(get_rpc_port(&pod_with_port("70000")), 70000);
}

#[test]
fn port_without_annotation_is_the_default() {
    assert_eq!(get_rpc_port(&pod(&[], Some("10.0.0.1"))), 9545);
}

#[test]
fn malformed_port_falls_back_to_the_default() {
    assert_eq!(get_rpc_port(&pod_with_port("not-a-number")), 9545);
}

#[test]
fn port_that_is_no_decimal_i32_falls_back_to_the_default() {
    for value in [
        "", "+", "-", "+-5", "--5", "80 ", " 80", "8 0", "0x50", "1_000", "80.0", "8e3",
        "2147483648", "-2147483649", "99999999999999999999", "٨٠", "８０", "eighty",
    ] {
        assert_eq!(get_rpc_port(&pod_with_port(value)), 9545, "port annotation {:?}", value);
    }
}

#[test]
fn path_and_protocol_come_from_annotations_or_defaults() {
    let plain = pod(&[], None);
    assert_eq!(get_rpc_path(&plain), "/");
    assert_eq!(get_rpc_protocol(&plain), "http");
    let annotated = pod(
        &[(VSL_OP_NODE_RPC_PATH, "/rpc/v1"), (VSL_OP_NODE_RPC_PROTOCOL, "https")],
        None,
    );
    assert_eq!(get_rpc_path(&annotated), "/rpc/v1");
    assert_eq!(get_rpc_protocol(&annotated), "https");
    let empty = pod(&[(VSL_OP_NODE_RPC_PATH, ""), (VSL_OP_NODE_RPC_PROTOCOL, "")], None);
    assert_eq!(get_rpc_path(&empty), "");
    assert_eq!(get_rpc_protocol(&empty), "");
}

#[test]
fn unannotated_pod_resolves_to_the_default_url() {
    let node = pod(&[(VSL_OP_NODE_SCRAPE, "true")], Some("10.1.2.3"));
    assert_eq!(extract_pod_rpc_info(&node), Ok("http://10.1.2.3:9545/".to_string()));
}

#[test]
fn url_is_protocol_ip_port_path() {
    let node = pod(
        &[
            (VSL_OP_NODE_RPC_PORT, "8545"),
            (VSL_OP_NODE_RPC_PATH, "/rpc"),
            (VSL_OP_NODE_RPC_PROTOCOL, "https"),
        ],
        Some("192.168.0.7"),
    );
    assert_eq!(extract_pod_rpc_info(&node), Ok("https://192.168.0.7:8545/rpc".to_string()));
}

#[test]
fn url_prints_the_port_in_decimal() {
    let url = |port: &str| extract_pod_rpc_info(&pod_with_port(port)).unwrap();
    assert_eq!(url("0"), "http://10.0.0.1:0/");
    assert_eq!(url("+007"), "http://10.0.0.1:7/");
    assert_eq!(url("10"), "http://10.0.0.1:10/");
    assert_eq!(url("-1"), "http://10.0.0.1:-1/");
    assert_eq!(url("-0"), "http://10.0.0.1:0/");
    assert_eq!(url("2147483647"), "http://10.0.0.1:2147483647/");
    assert_eq!(url("-2147483648"), "http://10.0.0.1:-2147483648/");
    assert_eq!(url("not-a-number"), "http://10.0.0.1:9545/");
}

#[test]
fn pod_without_ip_has_no_url() {
    let node = pod(&[(VSL_OP_NODE_RPC_PORT, "8545")], None);
    assert_eq!(extract_pod_rpc_info(&node), Err(DiscoveryError::MalformedNode));
}

#[test]
fn client_keeps_its_namespace() {
    let client = Client::new("optimism".to_string());
    assert_eq!(client.namespace(), "optimism");
}

#[test]
fn discovery_lists_the_eligible_pods_in_order() {
    let client = Client::new("default".to_string());
    let pods = vec![
        pod(&[(VSL_OP_NODE_SCRAPE, "True")], Some("10.0.0.1")),
        pod(&[(VSL_OP_NODE_SCRAPE, "1")], Some("10.0.0.2")),
        pod(&[(VSL_OP_NODE_SCRAPE, "TRUE"), (VSL_OP_NODE_RPC_PORT, "8545")], Some("10.0.0.3")),
        pod(&[], Some("10.0.0.4")),
        pod(&[(VSL_OP_NODE_SCRAPE, "true"), (VSL_OP_NODE_RPC_PATH, "/p2p")], Some("10.0.0.5")),
    ];
    assert_eq!(
        client.discover_rpc_endpoints(Ok(pods)),
        Ok(vec![
            "http://10.0.0.1:9545/".to_string(),
            "http://10.0.0.3:8545/".to_string(),
            "http://10.0.0.5:9545/p2p".to_string(),
        ])
    );
}

#[test]
fn discovery_of_an_empty_namespace_is_empty() {
    let client = Client::new("default".to_string());
    assert_eq!(client.discover_rpc_endpoints(Ok(Vec::new())), Ok(Vec::new()));
}

#[test]
fn discovery_without_eligible_pods_is_empty() {
    let client = Client::new("default".to_string());
    let pods = vec![pod(&[], Some("10.0.0.1")), pod(&[(VSL_OP_NODE_SCRAPE, "false")], None)];
    assert_eq!(client.discover_rpc_endpoints(Ok(pods)), Ok(Vec::new()));
}

#[test]
fn discovery_keeps_two_pods_with_the_same_url() {
    let client = Client::new("default".to_string());
    let pods = vec![
        pod(&[(VSL_OP_NODE_SCRAPE, "true")], Some("10.0.0.1")),
        pod(&[(VSL_OP_NODE_SCRAPE, "true")], Some("10.0.0.1")),
    ];
    assert_eq!(
        client.discover_rpc_endpoints(Ok(pods)),
        Ok(vec!["http://10.0.0.1:9545/".to_string(), "http://10.0.0.1:9545/".to_string()])
    );
}

#[test]
fn one_eligible_pod_without_ip_fails_the_discovery() {
    let client = Client::new("default".to_string());
    let pods = vec![
        pod(&[(VSL_OP_NODE_SCRAPE, "true")], Some("10.0.0.1")),
        pod(&[(VSL_OP_NODE_SCRAPE, "true")], None),
        pod(&[(VSL_OP_NODE_SCRAPE, "true")], Some("10.0.0.3")),
    ];
    assert_eq!(client.discover_rpc_endpoints(Ok(pods)), Err(DiscoveryError::MalformedNode));
}

#[test]
fn ineligible_pod_without_ip_is_passed_over() {
    let client = Client::new("default".to_string());
    let pods = vec![
        pod(&[], None),
        pod(&[(VSL_OP_NODE_SCRAPE, "no")], None),
        pod(&[(VSL_OP_NODE_SCRAPE, "true")], Some("10.0.0.3")),
    ];
    assert_eq!(
        client.discover_rpc_endpoints(Ok(pods)),
        Ok(vec!["http://10.0.0.3:9545/".to_string()])
    );
}

#[test]
fn unavailable_control_plane_fails_the_discovery() {
    let client = Client::new("default".to_string());
    assert_eq!(client.discover_rpc_endpoints(Err(Unavailable)), Err(DiscoveryError::Unavailable));
}

#[test]
fn each_discovery_error_says_what_went_wrong() {
    assert_eq!(DiscoveryError::MalformedNode.message(), "Pod has no IP address");
    assert_eq!(DiscoveryError::Unavailable.message(), "Cluster control plane is unavailable");
}
