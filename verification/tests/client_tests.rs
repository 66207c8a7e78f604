use proxmox_client::client::FetchOutcome;
use proxmox_client::client::HttpMethod;
use proxmox_client::client::ProxmoxClient;
use proxmox_client::client::SendOutcome;
use proxmox_client::container::NetworkInterface;
use proxmox_client::error::ApiError;
use proxmox_client::error::CredentialVar;
use proxmox_client::error::status_is_success;

fn client() -> ProxmoxClient {
    ProxmoxClient::new(
        Some(String::from("pve.example")),
        Some(String::from("node1")),
        Some(String::from("user@pam!tok")),
        Some(String::from("SECRET-REDACTED")),
    )
    .unwrap()
}

#[test]
fn construction_succeeds_with_all_four_values() {
    let c = client();
    assert_eq!(c.host, "pve.example");
    assert_eq!(c.node, "node1");
    assert_eq!(c.token_id, "user@pam!tok");
    assert_eq!(c.token_secret, "SECRET-REDACTED");
}

#[test]
fn construction_fails_naming_missing_host() {
    let r = ProxmoxClient::new(
        None,
        Some(String::from("node1")),
        Some(String::from("t")),
        Some(String::from("s")),
    );
    let e = r.err().unwrap();
    assert_eq!(e, ApiError::MissingCredential(CredentialVar::Host));
    assert_eq!(e.message(), "PROXMOX_HOST not set in .env file");
}

#[test]
fn construction_fails_naming_missing_node() {
    let r = ProxmoxClient::new(
        Some(String::from("h")),
        None,
        Some(String::from("t")),
        Some(String::from("s")),
    );
    let e = r.err().unwrap();
    assert_eq!(e, ApiError::MissingCredential(CredentialVar::Node));
    assert_eq!(e.message(), "PROXMOX_NODE not set in .env file");
}

#[test]
fn construction_fails_naming_missing_token_id() {
    let r = ProxmoxClient::new(
        Some(String::from("h")),
        Some(String::from("n")),
        None,
        Some(String::from("s")),
    );
    let e = r.err().unwrap();
    assert_eq!(e, ApiError::MissingCredential(CredentialVar::TokenId));
    assert_eq!(e.message(), "PROXMOX_TOKEN_ID not set in .env file");
}

#[test]
fn construction_fails_naming_missing_token_secret() {
    let r = ProxmoxClient::new(
        Some(String::from("h")),
        Some(String::from("n")),
        Some(String::from("t")),
        None,
    );
    let e = r.err().unwrap();
    assert_eq!(e, ApiError::MissingCredential(CredentialVar::TokenSecret));
    assert_eq!(e.message(), "PROXMOX_TOKEN_SECRET not set in .env file");
}

#[test]
fn auth_header_has_pveapitoken_form() {
    let c = client();
    assert_eq!(c.auth_header(), "PVEAPIToken=user@pam!tok=SECRET-REDACTED");
}

#[test]
fn request_urls_and_methods() {
    let c = client();
    let list = c.list_containers_request();
    assert_eq!(list.method, HttpMethod::Get);
    assert_eq!(list.url, "https://pve.example/api2/json/nodes/node1/lxc");
    assert_eq!(list.authorization, "PVEAPIToken=user@pam!tok=SECRET-REDACTED");

    let ifaces = c.interfaces_request(101);
    assert_eq!(ifaces.method, HttpMethod::Get);
    assert_eq!(
        ifaces.url,
        "https://pve.example/api2/json/nodes/node1/lxc/101/interfaces"
    );

    let start = c.start_container_request(101);
    assert_eq!(start.method, HttpMethod::Post);
    assert_eq!(
        start.url,
        "https://pve.example/api2/json/nodes/node1/lxc/101/status/start"
    );

    let stop = c.stop_container_request(101);
    assert_eq!(stop.method, HttpMethod::Post);
    assert_eq!(
        stop.url,
        "https://pve.example/api2/json/nodes/node1/lxc/101/status/stop"
    );

    let del = c.delete_container_request(101);
    assert_eq!(del.method, HttpMethod::Delete);
    assert_eq!(del.url, "https://pve.example/api2/json/nodes/node1/lxc/101");
}

#[test]
fn success_range_is_2xx() {
    assert!(!status_is_success(199));
    assert!(status_is_success(200));
    assert!(status_is_success(299));
    assert!(!status_is_success(300));
    assert!(!status_is_success(500));
}

#[test]
fn start_on_http_500_reports_the_status_code() {
    let c = client();
    let r = c.start_container(101, SendOutcome::Received(500));
    let e = r.err().unwrap();
    assert_eq!(e, ApiError::HttpStatusError(500));
    let msg = e.message();
    assert!(msg.contains("500"));
    assert_eq!(msg, "API error: 500");
}

#[test]
fn lifecycle_success_messages_name_vmid_and_action() {
    let c = client();
    assert_eq!(
        c.start_container(101, SendOutcome::Received(200)).unwrap(),
        "Container 101 started successfully"
    );
    assert_eq!(
        c.stop_container(7, SendOutcome::Received(204)).unwrap(),
        "Container 7 stopped successfully"
    );
    assert_eq!(
        c.delete_container(4294967295, SendOutcome::Received(200)).unwrap(),
        "Container 4294967295 deleted successfully"
    );
}

#[test]
fn lifecycle_send_failure_surfaces_transport_message_verbatim() {
    let c = client();
    let r = c.stop_container(8, SendOutcome::SendFailed(String::from("connection refused")));
    let e = r.err().unwrap();
    assert_eq!(e, ApiError::TransportError(String::from("connection refused")));
    assert_eq!(e.message(), "connection refused");
}

#[test]
fn interface_scan_picks_first_usable_and_strips_prefix() {
    let c = client();
    let ifaces = vec![
        NetworkInterface {
            name: String::from("lo"),
            inet: Some(String::from("127.0.0.1/8")),
        },
        NetworkInterface {
            name: String::from("eth0"),
            inet: None,
        },
        NetworkInterface {
            name: String::from("eth1"),
            inet: Some(String::from("10.0.0.5/24")),
        },
    ];
    let r = c.get_container_ip(FetchOutcome::Received(200, Some(ifaces)));
    assert_eq!(r.unwrap(), "10.0.0.5");
}

#[test]
fn interface_scan_keeps_address_without_prefix_unchanged() {
    let c = client();
    let ifaces = vec![NetworkInterface {
        name: String::from("eth0"),
        inet: Some(String::from("192.168.1.9")),
    }];
    let r = c.get_container_ip(FetchOutcome::Received(200, Some(ifaces)));
    assert_eq!(r.unwrap(), "192.168.1.9");
}

#[test]
fn interface_scan_with_only_loopback_reports_no_ip() {
    let c = client();
    let ifaces = vec![NetworkInterface {
        name: String::from("lo"),
        inet: Some(String::from("127.0.0.1/8")),
    }];
    let e = c
        .get_container_ip(FetchOutcome::Received(200, Some(ifaces)))
        .err()
        .unwrap();
    assert_eq!(e, ApiError::NoIpFound);
    assert_eq!(e.message(), "No IP found");
}

#[test]
fn interface_fetch_failures_map_to_the_taxonomy() {
    let c = client();
    let e = c
        .get_container_ip(FetchOutcome::SendFailed(String::from("dns failure")))
        .err()
        .unwrap();
    assert_eq!(e, ApiError::TransportError(String::from("dns failure")));

    let e = c
        .get_container_ip(FetchOutcome::Received(403, Some(Vec::new())))
        .err()
        .unwrap();
    assert_eq!(e, ApiError::HttpStatusError(403));

    let e = c.get_container_ip(FetchOutcome::Received(200, None)).err().unwrap();
    assert_eq!(e, ApiError::DecodeError);
    assert_eq!(e.message(), "Failed to parse response");
}
