use button_bridge::cadence::Cadence;
use button_bridge::config::{fallback_target, Config};
use button_bridge::endpoint::{Endpoint, Host};
use button_bridge::latch::{press_from_receive, Latch};
use button_bridge::protocol::{
    address_text, be_bytes_of, bytes_equal, command_from_document, decode_command, effective_port, react,
    Command, ACK_DOCUMENT,
};
use button_bridge::telemetry::{telemetry_datagram, telemetry_payload};

fn source() -> Endpoint {
    Endpoint::new(0x0A00_0009, 41000)
}

fn current() -> Endpoint {
    Endpoint::new(0xC0A8_0068, 33001)
}

#[test]
fn queue_outcome_one_is_a_press() {
    assert!(press_from_receive(1));
    assert!(!press_from_receive(0));
    assert!(!press_from_receive(-1));
    assert!(!press_from_receive(2));
}

#[test]
fn many_edges_between_checks_give_one_press() {
    let mut latch = Latch::new();
    for _ in 0..5 {
        latch.fire();
    }
    assert!(latch.take());
    assert!(!latch.take());
}

#[test]
fn no_edge_gives_no_press() {
    let mut latch = Latch::new();
    assert!(!latch.take());
    latch.fire();
    assert!(latch.take());
    assert!(!latch.take());
}

#[test]
fn effective_port_keeps_low_digits_of_default() {
    assert_eq!(effective_port(5000, 33001), Some(8001));
    assert_eq!(effective_port(0, 33001), Some(3001));
    assert_eq!(effective_port(60000, 29999), None);
}

#[test]
fn effective_port_that_overflows_is_rejected() {
    assert_eq!(effective_port(65000, 33001), None);
    assert_eq!(effective_port(u64::MAX, 33001), None);
    assert_eq!(effective_port(65535, 0), Some(65535));
}

#[test]
fn update_target_decodes_with_effective_port() {
    let msg = br#"{"type":"updateTarget","target_port_base":5000,"target":"10.0.0.7"}"#;
    match decode_command(msg, 33001) {
        Command::UpdateTarget { port, host } => {
            assert_eq!(port, 8001);
            assert_eq!(host, b"10.0.0.7".to_vec());
        }
        other => panic!("unexpected {:?}", other),
    }
}

#[test]
fn update_target_with_text_port_base_is_dropped() {
    let msg = br#"{"type":"updateTarget","target_port_base":"5000","target":"10.0.0.7"}"#;
    assert!(matches!(decode_command(msg, 33001), Command::Drop));
    let negative = br#"{"type":"updateTarget","target_port_base":-1,"target":"10.0.0.7"}"#;
    assert!(matches!(decode_command(negative, 33001), Command::Drop));
}

#[test]
fn update_target_without_target_is_dropped() {
    let msg = br#"{"type":"updateTarget","target_port_base":5000}"#;
    assert!(matches!(decode_command(msg, 33001), Command::Drop));
    let numeric = br#"{"type":"updateTarget","target_port_base":5000,"target":7}"#;
    assert!(matches!(decode_command(numeric, 33001), Command::Drop));
}

#[test]
fn ping_decodes_reply_address() {
    let msg = br#"{"type":"udpPing","replyTo":"10.0.0.5:9000"}"#;
    match decode_command(msg, 33001) {
        Command::Ping { reply_to } => assert_eq!(reply_to, b"10.0.0.5:9000".to_vec()),
        other => panic!("unexpected {:?}", other),
    }
}

#[test]
fn ping_without_reply_address_is_dropped() {
    let msg = br#"{"type":"udpPing"}"#;
    assert!(matches!(decode_command(msg, 33001), Command::Drop));
}

#[test]
fn noop_and_untyped_documents_are_ignored() {
    assert!(matches!(decode_command(br#"{"type":"noop"}"#, 33001), Command::Ignore));
    assert!(matches!(decode_command(br#"{"target":"x"}"#, 33001), Command::Ignore));
    assert!(matches!(decode_command(br#"{"type":3}"#, 33001), Command::Ignore));
    assert!(matches!(decode_command(b"[1,2]", 33001), Command::Ignore));
}

#[test]
fn malformed_datagram_is_dropped() {
    assert!(matches!(decode_command(b"{\"type\":", 33001), Command::Drop));
    assert!(matches!(decode_command(b"", 33001), Command::Drop));
    assert!(matches!(decode_command(&[0xff, 0xfe], 33001), Command::Drop));
}

#[test]
fn document_is_read_through_serde_json() {
    let doc: serde_json::Value =
        serde_json::from_str(r#"{"type":"updateTarget","target_port_base":1000,"target":"h"}"#).unwrap();
    match command_from_document(&doc, 29999) {
        Command::UpdateTarget { port, host } => {
            assert_eq!(port, 10999);
            assert_eq!(host, b"h".to_vec());
        }
        other => panic!("unexpected {:?}", other),
    }
}

#[test]
fn valid_update_target_sends_ten_acks_to_source() {
    let cmd = Command::UpdateTarget { port: 8001, host: b"10.0.0.7".to_vec() };
    let new_target = Endpoint::new(0x0A00_0007, 8001);
    let r = react(&cmd, Some(new_target), source(), current(), 0);
    assert_eq!(r.target, new_target);
    assert_eq!(r.sends.len(), 10);
    for d in &r.sends {
        assert_eq!(d.dest, source());
        assert_eq!(d.payload, br#"{"type":"updateTarget","success":true}"#.to_vec());
    }
    assert_eq!(ACK_DOCUMENT, r#"{"type":"updateTarget","success":true}"#);
}

#[test]
fn unresolvable_update_target_changes_nothing() {
    let cmd = Command::UpdateTarget { port: 8001, host: b"not an address".to_vec() };
    let r = react(&cmd, None, source(), current(), 0);
    assert_eq!(r.target, current());
    assert!(r.sends.is_empty());
}

#[test]
fn ping_replies_with_eight_byte_timestamp() {
    let cmd = Command::Ping { reply_to: b"10.0.0.5:9000".to_vec() };
    let reply = Endpoint::new(0x0A00_0005, 9000);
    let now: u64 = 1_700_000_000_123_456;
    let r = react(&cmd, Some(reply), source(), current(), now);
    assert_eq!(r.target, current());
    assert_eq!(r.sends.len(), 1);
    assert_eq!(r.sends[0].dest, reply);
    assert_eq!(r.sends[0].payload.len(), 8);
    let mut bytes = [0u8; 8];
    bytes.copy_from_slice(&r.sends[0].payload);
    assert_eq!(u64::from_be_bytes(bytes), now);
}

#[test]
fn ping_with_bad_reply_address_sends_nothing() {
    let cmd = Command::Ping { reply_to: b"nowhere".to_vec() };
    let r = react(&cmd, None, source(), current(), 5);
    assert_eq!(r.target, current());
    assert!(r.sends.is_empty());
}

#[test]
fn ignored_and_dropped_commands_change_nothing() {
    for cmd in [Command::Ignore, Command::Drop] {
        let r = react(&cmd, Some(source()), source(), current(), 5);
        assert_eq!(r.target, current());
        assert!(r.sends.is_empty());
    }
}

#[test]
fn noop_datagram_end_to_end_is_inert() {
    let cmd = decode_command(br#"{"type":"noop","replyTo":"10.0.0.5:9000"}"#, 33001);
    let r = react(&cmd, Some(source()), source(), current(), 5);
    assert_eq!(r.target, current());
    assert!(r.sends.is_empty());
}

#[test]
fn big_endian_bytes() {
    assert_eq!(be_bytes_of(0x0102_0304_0506_0708), vec![1, 2, 3, 4, 5, 6, 7, 8]);
    assert_eq!(be_bytes_of(0), vec![0; 8]);
    assert_eq!(be_bytes_of(u64::MAX), vec![0xff; 8]);
}

#[test]
fn byte_comparison() {
    assert!(bytes_equal(b"abc", b"abc"));
    assert!(!bytes_equal(b"abc", b"abd"));
    assert!(!bytes_equal(b"abc", b"ab"));
    assert!(bytes_equal(b"", b""));
}

#[test]
fn telemetry_document_layout() {
    let p = telemetry_payload(&b"\"f\"".to_vec(), &b"\"a\"".to_vec());
    assert_eq!(
        String::from_utf8(p).unwrap(),
        r#"{"message":"test","meta":{"flow_name":"f","execution_area":"a"}}"#
    );
}

#[test]
fn press_sends_telemetry_with_default_settings() {
    let config = Config::defaults();
    let d = telemetry_datagram(true, &config, current()).unwrap();
    assert_eq!(d.dest, current());
    let text = String::from_utf8(d.payload).unwrap();
    assert_eq!(
        text,
        r#"{"message":"test","meta":{"flow_name":"Flow Area 0.1","execution_area":"base"}}"#
    );
    let parsed: serde_json::Value = serde_json::from_str(&text).unwrap();
    assert_eq!(parsed["meta"]["flow_name"], "Flow Area 0.1");
}

#[test]
fn no_press_sends_no_telemetry() {
    assert!(telemetry_datagram(false, &Config::defaults(), current()).is_none());
}

#[test]
fn telemetry_reads_settings_at_send_time() {
    let mut config = Config::defaults();
    config.flow_name = "Line \"B\"".to_string();
    config.area = "hall".to_string();
    let d = telemetry_datagram(true, &config, current()).unwrap();
    assert_eq!(
        String::from_utf8(d.payload).unwrap(),
        r#"{"message":"test","meta":{"flow_name":"Line \"B\"","execution_area":"hall"}}"#
    );
}

#[test]
fn default_settings() {
    let c = Config::defaults();
    assert_eq!(c.wifi_ssid, "");
    assert_eq!(c.wifi_psk, "");
    assert_eq!(c.area, "base");
    assert_eq!(c.flow_name, "Flow Area 0.1");
    assert_eq!(c.target_ip, "192.168.0.104");
    assert_eq!(c.target_port, 33001);
    assert_eq!(c.outbound_port, 29000);
    assert_eq!(c.inbound_port, 29001);
    let t = fallback_target();
    assert_eq!(t.host, Host::V4(u32::from_be_bytes([192, 168, 178, 125])));
    assert_eq!(t.port, 33001);
}

#[test]
fn cadences_fire_after_their_intervals() {
    let mut c = Cadence::new(1000);
    assert!(!c.control_due(1010));
    assert!(c.control_due(1011));
    assert!(!c.telemetry_due(3000));
    assert!(c.telemetry_due(3001));
    c.control_done(1011);
    assert!(!c.control_due(1021));
    assert!(c.control_due(1022));
    assert!(c.telemetry_due(3001));
    c.telemetry_done(3001);
    assert!(!c.telemetry_due(5001));
    assert!(c.telemetry_due(5002));
    assert!(!c.control_due(500));
}

#[test]
fn control_step_does_not_hold_back_due_telemetry() {
    let mut c = Cadence::new(0);
    let start: u64 = 2001;
    assert!(c.telemetry_due(start));
    c.control_done(start + 10);
    assert!(c.telemetry_due(start + 10));
}

#[test]
fn retarget_address_text_appends_effective_port() {
    let msg = br#"{"type":"updateTarget","target_port_base":5000,"target":"10.0.0.7"}"#;
    let cmd = decode_command(msg, 33001);
    assert_eq!(address_text(&cmd), Some(b"10.0.0.7:8001".to_vec()));
    let low = Command::UpdateTarget { port: 7, host: b"h".to_vec() };
    assert_eq!(address_text(&low), Some(b"h:7".to_vec()));
    let zero = Command::UpdateTarget { port: 0, host: b"[::1]".to_vec() };
    assert_eq!(address_text(&zero), Some(b"[::1]:0".to_vec()));
    let top = Command::UpdateTarget { port: 65535, host: Vec::new() };
    assert_eq!(address_text(&top), Some(b":65535".to_vec()));
}

#[test]
fn ping_address_text_is_reply_address() {
    let cmd = Command::Ping { reply_to: b"10.0.0.5:9000".to_vec() };
    assert_eq!(address_text(&cmd), Some(b"10.0.0.5:9000".to_vec()));
    assert_eq!(address_text(&Command::Ignore), None);
    assert_eq!(address_text(&Command::Drop), None);
}

#[test]
fn ipv6_endpoints_are_kept() {
    let six = Endpoint::new_v6(1, 0, 3, 9000);
    assert_eq!(six.host, Host::V6 { ip: 1, flowinfo: 0, scope_id: 3 });
    let cmd = Command::Ping { reply_to: b"[::1]:9000".to_vec() };
    let r = react(&cmd, Some(six), source(), current(), 42);
    assert_eq!(r.sends.len(), 1);
    assert_eq!(r.sends[0].dest, six);
    let upd = Command::UpdateTarget { port: 8001, host: b"[::1]".to_vec() };
    let r = react(&upd, Some(six), six, current(), 0);
    assert_eq!(r.target, six);
    assert!(r.sends.iter().all(|d| d.dest == six));
}

#[test]
fn press_always_yields_a_datagram() {
    let mut config = Config::defaults();
    config.flow_name = String::new();
    config.area = "\u{0}\n".to_string();
    assert!(telemetry_datagram(true, &config, current()).is_some());
}
