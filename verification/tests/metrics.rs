use slipway_registry::metrics::{may_read_metrics, metrics, PeerAddress};

const EXPOSITION: &str = "# HELP component_downloads_total Component downloads\n\
# TYPE component_downloads_total counter\n\
component_downloads_total{name=\"component\",publisher=\"test_publisher\",version=\"1.0.0\"} 1\n";

#[test]
fn metrics_from_other_address_is_forbidden() {
    let peer = Some(PeerAddress::V4([192, 168, 1, 20]));
    let reply = metrics(&peer, String::from(EXPOSITION));

    assert_eq!(reply.status, 403);
    assert_eq!(reply.body, "Forbidden");
    assert_eq!(reply.location, None);
}

#[test]
fn metrics_from_loopback_is_exposed() {
    let peer = Some(PeerAddress::V4([127, 0, 0, 1]));
    let reply = metrics(&peer, String::from(EXPOSITION));

    assert_eq!(reply.status, 200);
    assert!(reply.body.contains("component_downloads_total"));
    assert_eq!(reply.body, EXPOSITION);
    assert_eq!(reply.location, None);
}

#[test]
fn metrics_without_known_peer_is_forbidden() {
    let reply = metrics(&None, String::from(EXPOSITION));

    assert_eq!(reply.status, 403);
    assert_eq!(reply.body, "Forbidden");
}

#[test]
fn loopback_addresses() {
    assert!(PeerAddress::V4([127, 0, 0, 1]).is_loopback());
    assert!(PeerAddress::V4([127, 255, 255, 254]).is_loopback());
    assert!(PeerAddress::V4([127, 0, 0, 0]).is_loopback());
    assert!(PeerAddress::V6([0, 0, 0, 0, 0, 0, 0, 1]).is_loopback());
    assert!(!PeerAddress::V4([126, 0, 0, 1]).is_loopback());
    assert!(!PeerAddress::V4([128, 0, 0, 1]).is_loopback());
    assert!(!PeerAddress::V4([1, 0, 0, 127]).is_loopback());
    assert!(!PeerAddress::V6([0, 0, 0, 0, 0, 0, 0, 2]).is_loopback());
    assert!(!PeerAddress::V6([1, 0, 0, 0, 0, 0, 0, 1]).is_loopback());
    assert!(!PeerAddress::V6([0, 0, 0, 0, 0, 0, 0, 0]).is_loopback());
    assert!(!PeerAddress::V6([0, 0, 0, 0, 0, 0xffff, 0x7f00, 1]).is_loopback());
}

#[test]
fn unspecified_addresses() {
    assert!(PeerAddress::V4([0, 0, 0, 0]).is_unspecified());
    assert!(PeerAddress::V6([0, 0, 0, 0, 0, 0, 0, 0]).is_unspecified());
    assert!(!PeerAddress::V4([0, 0, 0, 1]).is_unspecified());
    assert!(!PeerAddress::V4([1, 0, 0, 0]).is_unspecified());
    assert!(!PeerAddress::V4([0, 0, 1, 0]).is_unspecified());
    assert!(!PeerAddress::V6([0, 0, 0, 0, 0, 0, 0, 1]).is_unspecified());
    assert!(!PeerAddress::V6([0, 0, 0, 1, 0, 0, 0, 0]).is_unspecified());
}

#[test]
fn local_callers_may_read_metrics() {
    assert!(may_read_metrics(&Some(PeerAddress::V4([127, 0, 0, 1]))));
    assert!(may_read_metrics(&Some(PeerAddress::V4([0, 0, 0, 0]))));
    assert!(may_read_metrics(&Some(PeerAddress::V6([0, 0, 0, 0, 0, 0, 0, 1]))));
    assert!(may_read_metrics(&Some(PeerAddress::V6([0, 0, 0, 0, 0, 0, 0, 0]))));
}

#[test]
fn other_callers_may_not_read_metrics() {
    assert!(!may_read_metrics(&Some(PeerAddress::V4([10, 0, 0, 1]))));
    assert!(!may_read_metrics(&Some(PeerAddress::V4([8, 8, 8, 8]))));
    assert!(!may_read_metrics(&Some(PeerAddress::V6([
        0x2001, 0xdb8, 0, 0, 0, 0, 0, 1
    ]))));
    assert!(!may_read_metrics(&None));
}

#[test]
fn unspecified_peer_reads_metrics() {
    let reply = metrics(&Some(PeerAddress::V4([0, 0, 0, 0])), String::from("up 1\n"));

    assert_eq!(reply.status, 200);
    assert_eq!(reply.body, "up 1\n");
}
