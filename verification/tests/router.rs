use aetheryte::router::passthrough::{
    passthrough, start_splice, Direction, SpliceAction, SpliceEvent, SpliceState,
};
use aetheryte::router::utils::{get_original6_dest, get_original_dest, DestError, AF_INET, AF_INET6};
use aetheryte::router::{info_message, Router, ROUTER_PORT};
use aetheryte::router::proxy::SOCKS5_PORT;
use aetheryte::text::{endpoint, ipv4_to_text, push_decimal_text};

#[test]
fn original_destination_is_read_in_network_order() {
    assert_eq!(get_original_dest(AF_INET, [223, 5, 5, 5], [0x01, 0xbb]), Ok(([223, 5, 5, 5], 443)));
    assert_eq!(get_original_dest(2, [1, 1, 1, 1], [0, 53]), Ok(([1, 1, 1, 1], 53)));
    assert_eq!(get_original_dest(2, [0, 0, 0, 0], [0xff, 0xff]), Ok(([0, 0, 0, 0], 65535)));
}

#[test]
fn original_destination_of_another_family_is_an_error() {
    assert_eq!(
        get_original_dest(AF_INET6, [223, 5, 5, 5], [0x01, 0xbb]),
        Err(DestError::UnrecognizedFamily)
    );
    assert_eq!(get_original_dest(0, [1, 1, 1, 1], [0, 53]), Err(DestError::UnrecognizedFamily));
    assert_eq!(
        get_original6_dest(AF_INET, [0; 16], [0, 53]),
        Err(DestError::UnrecognizedFamily)
    );
}

#[test]
fn original_ipv6_destination_is_read_in_network_order() {
    let mut addr = [0u8; 16];
    addr[0] = 0x24;
    addr[15] = 1;
    assert_eq!(get_original6_dest(AF_INET6, addr, [0x20, 0xfb]), Ok((addr, 8443)));
    assert_eq!(AF_INET6, 10);
}

#[test]
fn half_close() {
    for first in [Direction::Outbound, Direction::Inbound] {
        let second = match first {
            Direction::Outbound => Direction::Inbound,
            Direction::Inbound => Direction::Outbound,
        };
        let state = start_splice();
        assert_eq!(state, SpliceState { outbound_open: true, inbound_open: true, failed: false });
        let (state, action) = passthrough(state, SpliceEvent::Eof(first));
        assert_eq!(action, SpliceAction::HalfClose(first));
        assert_eq!(state.outbound_open, first != Direction::Outbound);
        assert_eq!(state.inbound_open, first != Direction::Inbound);
        assert!(!state.failed);
        // The same end again changes nothing: the other direction still drains.
        let (state, action) = passthrough(state, SpliceEvent::Eof(first));
        assert_eq!(action, SpliceAction::Ignore);
        let (state, action) = passthrough(state, SpliceEvent::Eof(second));
        assert_eq!(action, SpliceAction::Finish(second));
        assert_eq!(state, SpliceState { outbound_open: false, inbound_open: false, failed: false });
    }
}

#[test]
fn failure_gives_the_connection_up() {
    let (state, action) = passthrough(start_splice(), SpliceEvent::Failed(Direction::Inbound));
    assert_eq!(action, SpliceAction::Abort);
    assert_eq!(state, SpliceState { outbound_open: false, inbound_open: false, failed: true });
    let (state, action) = passthrough(state, SpliceEvent::Eof(Direction::Outbound));
    assert_eq!(action, SpliceAction::Ignore);
    assert!(state.failed);
    let (state, _) = passthrough(start_splice(), SpliceEvent::Eof(Direction::Inbound));
    let (state, action) = passthrough(state, SpliceEvent::Failed(Direction::Inbound));
    assert_eq!(action, SpliceAction::Ignore);
    let (state, action) = passthrough(state, SpliceEvent::Failed(Direction::Outbound));
    assert_eq!(action, SpliceAction::Abort);
    assert!(state.failed);
}

#[test]
fn info_message_names_source_destination_and_country() {
    assert_eq!(
        info_message("192.168.1.9:50000", "223.5.5.5", 443, "CN"),
        "from 192.168.1.9:50000, to 223.5.5.5:443 in CN"
    );
    assert_eq!(info_message("", "", 0, ""), "from , to :0 in ");
}

#[test]
fn router_listens_on_port_3333() {
    let r = Router::new();
    assert_eq!(r.server_ipv4, "0.0.0.0:3333");
    assert_eq!(r.server_ipv6, "[::1]:3333");
    assert_eq!(ROUTER_PORT, 3333);
    assert_eq!(SOCKS5_PORT, 1086);
}

#[test]
fn numbers_are_written_in_decimal() {
    for n in [0usize, 7, 9, 10, 11, 99, 100, 101, 443, 65535, 1_000_000, usize::MAX] {
        let mut s = String::from("x");
        push_decimal_text(&mut s, n);
        assert_eq!(s, format!("x{}", n));
    }
}

#[test]
fn addresses_are_written_in_dotted_decimal() {
    assert_eq!(ipv4_to_text(&[0, 0, 0, 0]), "0.0.0.0");
    assert_eq!(ipv4_to_text(&[255, 255, 255, 255]), "255.255.255.255");
    assert_eq!(ipv4_to_text(&[10, 0, 100, 9]), "10.0.100.9");
    assert_eq!(endpoint("127.0.0.1", 1086), "127.0.0.1:1086");
    assert_eq!(endpoint("0.0.0.0", 53), "0.0.0.0:53");
}
