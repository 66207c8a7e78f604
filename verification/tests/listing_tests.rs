use proxmox_client::client::FetchOutcome;
use proxmox_client::client::ProxmoxClient;
use proxmox_client::container::Container;
use proxmox_client::container::RawContainer;
use proxmox_client::container::normalize;
use proxmox_client::error::ApiError;
use proxmox_client::facade::CommandState;
use proxmox_client::facade::ProxmoxConfig;
use proxmox_client::listing::sort_by_vmid;

fn client() -> ProxmoxClient {
    ProxmoxClient::new(
        Some(String::from("pve.example")),
        Some(String::from("node1")),
        Some(String::from("user@pam!tok")),
        Some(String::from("SECRET-REDACTED")),
    )
    .unwrap()
}

fn raw(vmid: u32, status: &str) -> RawContainer {
    RawContainer {
        vmid,
        name: None,
        status: String::from(status),
        uptime: None,
        mem: None,
        maxmem: None,
        cpu_bits: None,
        cpus: None,
        diskread: None,
        diskwrite: None,
    }
}

#[test]
fn normalization_fills_documented_defaults() {
    let c = normalize(raw(7, "stopped"));
    assert_eq!(c.vmid, 7);
    assert_eq!(c.name, "CT-7");
    assert_eq!(c.status, "stopped");
    assert_eq!(c.uptime, 0);
    assert_eq!(c.memory, 0);
    assert_eq!(c.max_memory, 0);
    assert_eq!(c.cpu_bits, 0);
    assert_eq!(c.cpus, 1);
    assert_eq!(c.disk_read, 0);
    assert_eq!(c.disk_write, 0);
    assert_eq!(c.ip_address, None);
}

#[test]
fn normalization_keeps_present_fields() {
    let mut r = raw(12, "running");
    r.name = Some(String::from("web"));
    r.uptime = Some(55);
    r.mem = Some(1024);
    r.maxmem = Some(2048);
    r.cpu_bits = Some(0x3FE0000000000000);
    r.cpus = Some(4);
    r.diskread = Some(9);
    r.diskwrite = Some(11);
    let c = normalize(r);
    assert_eq!(c.name, "web");
    assert_eq!(c.uptime, 55);
    assert_eq!(c.memory, 1024);
    assert_eq!(c.max_memory, 2048);
    assert_eq!(c.cpu_bits, 0x3FE0000000000000);
    assert_eq!(c.cpus, 4);
    assert_eq!(c.disk_read, 9);
    assert_eq!(c.disk_write, 11);
}

#[test]
fn running_record_with_found_address_gets_the_stripped_ip() {
    // A raw record with only vmid, status and mem present, whose
    // interface lookup found 10.0.0.5/24 ahead of the loopback.
    let c = client();
    let mut rec = raw(101, "running");
    rec.mem = Some(512000000);
    let lookup = c.get_container_ip(FetchOutcome::Received(
        200,
        Some(vec![
            proxmox_client::container::NetworkInterface {
                name: String::from("eth0"),
                inet: Some(String::from("10.0.0.5/24")),
            },
            proxmox_client::container::NetworkInterface {
                name: String::from("lo"),
                inet: Some(String::from("127.0.0.1/8")),
            },
        ]),
    ));
    let out = c
        .get_containers(FetchOutcome::Received(200, Some(vec![rec])), vec![lookup])
        .unwrap();
    assert_eq!(out.len(), 1);
    let ct = &out[0];
    assert_eq!(ct.vmid, 101);
    assert_eq!(ct.name, "CT-101");
    assert_eq!(ct.status, "running");
    assert_eq!(ct.memory, 512000000);
    assert_eq!(ct.cpu_bits, 0);
    assert_eq!(ct.cpus, 1);
    assert_eq!(ct.ip_address, Some(String::from("10.0.0.5")));
}

#[test]
fn non_running_container_never_takes_an_address() {
    // A stopped container whose interface lookup nevertheless answered
    // successfully: the found address must still be omitted.
    let c = client();
    let lookup = c.get_container_ip(FetchOutcome::Received(
        200,
        Some(vec![proxmox_client::container::NetworkInterface {
            name: String::from("eth0"),
            inet: Some(String::from("10.0.0.5/24")),
        }]),
    ));
    assert_eq!(lookup, Ok(String::from("10.0.0.5")));
    let out = c
        .get_containers(FetchOutcome::Received(200, Some(vec![raw(9, "stopped")])), vec![lookup])
        .unwrap();
    assert_eq!(out.len(), 1);
    assert_eq!(out[0].ip_address, None);
}

#[test]
fn listing_is_sorted_ascending_by_vmid() {
    let c = client();
    let recs = vec![raw(102, "stopped"), raw(100, "stopped"), raw(101, "stopped")];
    let lookups = vec![
        Err(ApiError::NoIpFound),
        Err(ApiError::NoIpFound),
        Err(ApiError::NoIpFound),
    ];
    let out = c
        .get_containers(FetchOutcome::Received(200, Some(recs)), lookups)
        .unwrap();
    let ids: Vec<u32> = out.iter().map(|ct| ct.vmid).collect();
    assert_eq!(ids, vec![100, 101, 102]);
}

#[test]
fn duplicate_vmids_are_kept_in_count() {
    let c = client();
    let recs = vec![raw(101, "stopped"), raw(101, "stopped")];
    let lookups = vec![Err(ApiError::NoIpFound), Err(ApiError::NoIpFound)];
    let out = c
        .get_containers(FetchOutcome::Received(200, Some(recs)), lookups)
        .unwrap();
    assert_eq!(out.len(), 2);
    assert_eq!(out[0].vmid, 101);
    assert_eq!(out[1].vmid, 101);
}

#[test]
fn one_failed_enrichment_leaves_every_entry_in_place() {
    let c = client();
    let recs = vec![raw(2, "running"), raw(1, "running")];
    let lookups = vec![
        Err(ApiError::TransportError(String::from("timed out"))),
        Ok(String::from("10.0.0.7")),
    ];
    let out = c
        .get_containers(FetchOutcome::Received(200, Some(recs)), lookups)
        .unwrap();
    assert_eq!(out.len(), 2);
    assert_eq!(out[0].vmid, 1);
    assert_eq!(out[0].ip_address, Some(String::from("10.0.0.7")));
    assert_eq!(out[1].vmid, 2);
    assert_eq!(out[1].ip_address, None);
}

#[test]
fn listing_failures_map_to_the_taxonomy() {
    let c = client();
    let e = c
        .get_containers(
            FetchOutcome::SendFailed(String::from("connection refused")),
            Vec::new(),
        )
        .err()
        .unwrap();
    assert_eq!(e, ApiError::TransportError(String::from("connection refused")));

    let e = c
        .get_containers(FetchOutcome::Received(502, None), Vec::new())
        .err()
        .unwrap();
    assert_eq!(e, ApiError::HttpStatusError(502));
    assert_eq!(e.message(), "API error: 502");

    let e = c
        .get_containers(FetchOutcome::Received(200, None), Vec::new())
        .err()
        .unwrap();
    assert_eq!(e, ApiError::DecodeError);
}

#[test]
fn empty_listing_stays_empty() {
    let c = client();
    let out = c
        .get_containers(FetchOutcome::Received(200, Some(Vec::new())), Vec::new())
        .unwrap();
    assert!(out.is_empty());
}

#[test]
fn sort_orders_a_prepared_vector() {
    let mut v: Vec<Container> = vec![
        normalize(raw(30, "stopped")),
        normalize(raw(10, "stopped")),
        normalize(raw(20, "stopped")),
        normalize(raw(10, "stopped")),
    ];
    sort_by_vmid(&mut v);
    let ids: Vec<u32> = v.iter().map(|ct| ct.vmid).collect();
    assert_eq!(ids, vec![10, 10, 20, 30]);
}

#[test]
fn facade_without_client_reports_not_initialized() {
    let state = CommandState {
        client: None,
        config: ProxmoxConfig {
            host: String::from("unknown"),
            node: String::from("unknown"),
        },
    };
    let e = state.acquire_client().err().unwrap();
    assert_eq!(e, ApiError::NotInitialized);
    assert_eq!(e.message(), "Proxmox client not initialized");
}

#[test]
fn facade_with_client_hands_out_an_identical_copy() {
    let state = CommandState {
        client: Some(client()),
        config: ProxmoxConfig {
            host: String::from("pve.example"),
            node: String::from("node1"),
        },
    };
    let d = state.acquire_client().unwrap();
    assert_eq!(d.host, "pve.example");
    assert_eq!(d.node, "node1");
    assert_eq!(d.token_id, "user@pam!tok");
    assert_eq!(d.token_secret, "SECRET-REDACTED");

    let cfg = state.get_config();
    assert_eq!(cfg.host, "pve.example");
    assert_eq!(cfg.node, "node1");
}
