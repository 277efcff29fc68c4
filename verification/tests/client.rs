use ca_repeater::addr::Endpoint;
use ca_repeater::client::{Client, ServerRecord};
use ca_repeater::{BEACON_EVICTION_AGE_MS, CA_SERVER_PORT, LOCALHOST_U32};

fn confirm_frame() -> Vec<u8> {
    vec![
        0x00, 0x11, 0x00, 0x00, 0x00, 0x00, 0x00, 0x00, 0x00, 0x00, 0x00, 0x00, 0x7F, 0x00, 0x00,
        0x01,
    ]
}

fn beacon_frame(ip: u32, beacon_id: u32) -> Vec<u8> {
    let a = ip.to_be_bytes();
    let s = beacon_id.to_be_bytes();
    vec![
        0x00, 0x0D, 0x00, 0x00, 0x00, 0x0B, 0x00, 0x00, s[0], s[1], s[2], s[3], a[0], a[1], a[2],
        a[3],
    ]
}

#[test]
fn registration_header_bytes() {
    let expected = vec![
        0x00, 0x18, 0x00, 0x00, 0x00, 0x00, 0x00, 0x00, 0x00, 0x00, 0x00, 0x00, 0x7F, 0x00, 0x00,
        0x01,
    ];
    assert_eq!(Client::registration_header().as_bytes(), expected);
    assert_eq!(Client::registration_header().parameter_2, LOCALHOST_U32);
}

#[test]
fn confirmation_sets_registered_flag() {
    let mut c = Client::new();
    assert!(!c.is_registered());
    c.handle_packet(&confirm_frame(), 1_000);
    assert!(c.is_registered());
    // The flag never goes back to false.
    c.handle_packet(&beacon_frame(0xC0A8_0132, 1), 2_000);
    c.handle_packet(&vec![0u8; 3], 3_000);
    assert!(c.is_registered());
}

#[test]
fn beacon_inserts_server_record() {
    let mut c = Client::new();
    c.handle_packet(&beacon_frame(0xC0A8_0132, 7), 10_000);
    assert_eq!(c.server_list.len(), 1);
    let r = c.server_list[0];
    assert_eq!(r.tcp_address, Endpoint::new(0xC0A8_0132, 0x000B));
    assert_eq!(r.last_beacon_id, 7);
    assert_eq!(r.last_beacon_timestamp, 10_000);
    // A beacon does not register the client.
    assert!(!c.is_registered());
}

#[test]
fn beacon_with_zero_port_slot_uses_server_port() {
    let mut c = Client::new();
    let mut frame = beacon_frame(0xC0A8_0132, 1);
    frame[4] = 0x00;
    frame[5] = 0x00;
    c.handle_packet(&frame, 10_000);
    assert_eq!(c.server_list[0].tcp_address, Endpoint::new(0xC0A8_0132, CA_SERVER_PORT));
}

#[test]
fn repeated_beacon_updates_in_place() {
    let mut c = Client::new();
    c.handle_packet(&beacon_frame(0xC0A8_0132, 7), 10_000);
    c.handle_packet(&beacon_frame(0xC0A8_0132, 8), 25_000);
    assert_eq!(c.server_list.len(), 1);
    assert_eq!(c.server_list[0].last_beacon_id, 8);
    assert_eq!(c.server_list[0].last_beacon_timestamp, 25_000);
    // A smaller sequence id is still accepted: servers may restart.
    c.handle_packet(&beacon_frame(0xC0A8_0132, 2), 40_000);
    assert_eq!(c.server_list.len(), 1);
    assert_eq!(c.server_list[0].last_beacon_id, 2);
    assert_eq!(c.server_list[0].last_beacon_timestamp, 40_000);
}

#[test]
fn beacons_from_two_servers_make_two_records() {
    let mut c = Client::new();
    c.handle_packet(&beacon_frame(0xC0A8_0132, 7), 10_000);
    c.handle_packet(&beacon_frame(0xC0A8_0133, 3), 11_000);
    assert_eq!(c.server_list.len(), 2);
    assert_ne!(c.server_list[0].tcp_address, c.server_list[1].tcp_address);
}

#[test]
fn sweep_evicts_only_stale_records() {
    let t: u64 = 100_000;
    let mut c = Client::new();
    c.handle_packet(&beacon_frame(0xC0A8_0132, 7), t);
    assert_eq!(BEACON_EVICTION_AGE_MS, 30_000);

    // 29 s later the record must still be present.
    c.sweep(t + 29_000);
    assert_eq!(c.server_list.len(), 1);

    // 31 s after the beacon the next pass removes it.
    c.sweep(t + 31_000);
    assert_eq!(c.server_list.len(), 0);
}

#[test]
fn sweep_keeps_fresh_and_drops_old() {
    let mut c = Client::new();
    c.handle_packet(&beacon_frame(0x0A00_0001, 1), 10_000);
    c.handle_packet(&beacon_frame(0x0A00_0002, 2), 45_000);
    c.handle_packet(&beacon_frame(0x0A00_0003, 3), 50_000);
    c.sweep(41_000);
    assert_eq!(c.server_list.len(), 2);
    assert_eq!(c.server_list[0].tcp_address, Endpoint::new(0x0A00_0002, 0x000B));
    assert_eq!(c.server_list[1].tcp_address, Endpoint::new(0x0A00_0003, 0x000B));
}

#[test]
fn sweep_on_empty_table_is_a_no_op() {
    let mut c = Client::new();
    c.sweep(1_000_000);
    assert_eq!(c.server_list.len(), 0);
    assert!(!c.is_registered());
}

#[test]
fn server_table_invariant_check() {
    let mut c = Client::new();
    assert!(c.table_is_wf());
    c.handle_packet(&beacon_frame(0x0A00_0001, 1), 1_000);
    c.handle_packet(&beacon_frame(0x0A00_0002, 1), 1_000);
    assert!(c.table_is_wf());

    // A hand-built table with a duplicated server endpoint is rejected.
    let dup = ServerRecord {
        tcp_address: Endpoint::new(0x0A00_0001, 0x000B),
        last_beacon_id: 1,
        last_beacon_timestamp: 1_000,
    };
    let broken = Client { registered: false, server_list: vec![dup, dup] };
    assert!(!broken.table_is_wf());
}

#[test]
fn malformed_packets_change_nothing() {
    let mut c = Client::new();
    c.handle_packet(&vec![], 1_000);
    c.handle_packet(&vec![0u8; 15], 1_000);
    c.handle_packet(&vec![0u8; 17], 1_000);
    // An unknown command identifier in a well-sized frame.
    let mut frame = beacon_frame(0xC0A8_0132, 1);
    frame[1] = 0x0B;
    c.handle_packet(&frame, 1_000);
    // A known command the client does not act on.
    frame[1] = 0x06;
    c.handle_packet(&frame, 1_000);
    assert_eq!(c.server_list.len(), 0);
    assert!(!c.is_registered());
}
