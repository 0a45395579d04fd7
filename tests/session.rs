use surge_ping::cache::Cache;
use surge_ping::error::{MalformedPacketError, SurgeError};
use surge_ping::ping::{Address, IcmpPacket, Message, Pinger, DEFAULT_SIZE, DEFAULT_TIMEOUT_NANOS};

const MS: u64 = 1_000_000;

fn dest() -> Address {
    Address::V4(0x7272_7272)
}

fn session() -> Pinger {
    let mut p = Pinger::new(dest());
    p.ident(1234).size(56).timeout(2_000 * MS);
    p
}

fn reply(source: Address, ident: u16, seq_cnt: u16) -> IcmpPacket {
    IcmpPacket { source, ident, seq_cnt, size: 56 }
}

fn inbound(packet: IcmpPacket, when: u64) -> Option<Message> {
    Some(Message { packet: Ok(packet), when })
}

#[test]
fn new_session_has_defaults() {
    let p = Pinger::new(Address::V6(1));
    assert_eq!(p.destination, Address::V6(1));
    assert_eq!(p.size, 56);
    assert_eq!(DEFAULT_SIZE, 56);
    assert_eq!(p.timeout_nanos, 2_000_000_000);
    assert_eq!(DEFAULT_TIMEOUT_NANOS, 2_000_000_000);
}

#[test]
fn setters_chain_and_change_one_field() {
    let mut p = Pinger::new(dest());
    p.ident(7).size(100).timeout(5 * MS);
    assert_eq!(p.ident, 7);
    assert_eq!(p.size, 100);
    assert_eq!(p.timeout_nanos, 5 * MS);
    assert_eq!(p.destination, dest());
}

#[test]
fn cache_insert_overwrites_and_remove_takes() {
    let mut c = Cache::new();
    assert_eq!(c.remove(1, 1), None);
    c.insert(1, 1, 10);
    c.insert(1, 1, 20);
    c.insert(1, 2, 30);
    c.insert(2, 1, 40);
    assert_eq!(c.remove(1, 1), Some(20));
    assert_eq!(c.remove(1, 1), None);
    assert_eq!(c.remove(1, 2), Some(30));
    assert_eq!(c.remove(2, 1), Some(40));
}

#[test]
fn cache_keys_at_the_edges_are_distinct() {
    let mut c = Cache::new();
    c.insert(0, 65535, 1);
    c.insert(65535, 0, 2);
    c.insert(65535, 65535, 3);
    assert_eq!(c.remove(0, 65535), Some(1));
    assert_eq!(c.remove(65535, 0), Some(2));
    assert_eq!(c.remove(65535, 65535), Some(3));
    assert_eq!(c.remove(0, 0), None);
}

#[test]
fn check_reply_packet_needs_all_three_fields() {
    let r = reply(dest(), 1234, 1);
    assert!(r.check_reply_packet(dest(), 1, 1234));
    assert!(!r.check_reply_packet(Address::V4(1), 1, 1234));
    assert!(!r.check_reply_packet(dest(), 2, 1234));
    assert!(!r.check_reply_packet(dest(), 1, 1235));
}

#[test]
fn matching_reply_five_ms_after_send_succeeds() {
    let p = session();
    let mut c = Cache::new();
    let sent = 1_000 * MS;
    c.insert(1234, 1, sent);
    let step = p.recv_reply(&mut c, 1, inbound(reply(dest(), 1234, 1), sent + 5 * MS));
    let r = p.finish(&mut c, 1, step);
    match r {
        Ok((packet, rtt)) => {
            assert_eq!(packet, reply(dest(), 1234, 1));
            assert_eq!(rtt, 5 * MS);
        }
        Err(e) => panic!("unexpected error {:?}", e),
    }
    assert_eq!(c.remove(1234, 1), None);
}

#[test]
fn no_reply_times_out_with_the_sequence() {
    let p = session();
    let mut c = Cache::new();
    c.insert(1234, 1, 1_000 * MS);
    let r = p.finish(&mut c, 1, None);
    assert!(matches!(r, Err(SurgeError::Timeout { seq: 1 })));
    assert_eq!(c.remove(1234, 1), None);
}

#[test]
fn reply_before_the_send_is_recorded_is_not_matched() {
    let p = session();
    let mut c = Cache::new();
    let step = p.recv_reply(&mut c, 1, inbound(reply(dest(), 1234, 1), 5 * MS));
    assert!(step.is_none());
    let r = p.finish(&mut c, 1, None);
    assert!(matches!(r, Err(SurgeError::Timeout { seq: 1 })));
}

#[test]
fn reused_sequence_does_not_see_the_earlier_probe() {
    let p = session();
    let mut c = Cache::new();
    c.insert(1234, 3, 10 * MS);
    let first = p.finish(&mut c, 3, None);
    assert!(matches!(first, Err(SurgeError::Timeout { seq: 3 })));
    let early = p.recv_reply(&mut c, 3, inbound(reply(dest(), 1234, 3), 20 * MS));
    assert!(early.is_none());
    c.insert(1234, 3, 30 * MS);
    let step = p.recv_reply(&mut c, 3, inbound(reply(dest(), 1234, 3), 32 * MS));
    assert!(matches!(step, Some(Ok((_, rtt))) if rtt == 2 * MS));
}

#[test]
fn foreign_replies_leave_the_probe_waiting() {
    let p = session();
    let mut c = Cache::new();
    c.insert(1234, 1, 0);
    c.insert(999, 1, 0);
    for r in [reply(Address::V4(9), 1234, 1), reply(dest(), 999, 1), reply(dest(), 1234, 2)] {
        assert!(p.recv_reply(&mut c, 1, inbound(r, MS)).is_none());
    }
    assert_eq!(c.remove(999, 1), Some(0));
    assert_eq!(c.remove(1234, 1), Some(0));
}

#[test]
fn two_sessions_each_take_only_their_reply() {
    let a = session();
    let mut b = session();
    b.ident(4321);
    let mut ca = Cache::new();
    let mut cb = Cache::new();
    ca.insert(1234, 1, 0);
    cb.insert(4321, 1, 0);
    let for_b = reply(dest(), 4321, 1);
    assert!(a.recv_reply(&mut ca, 1, inbound(for_b, MS)).is_none());
    assert!(matches!(b.recv_reply(&mut cb, 1, inbound(for_b, MS)), Some(Ok((r, _))) if r == for_b));
    let for_a = reply(dest(), 1234, 1);
    assert!(b.recv_reply(&mut cb, 1, inbound(for_a, 2 * MS)).is_none());
    assert!(matches!(a.recv_reply(&mut ca, 1, inbound(for_a, 2 * MS)), Some(Ok((r, rtt))) if r == for_a && rtt == 2 * MS));
}

#[test]
fn own_echo_request_keeps_waiting() {
    let p = session();
    let mut c = Cache::new();
    c.insert(1234, 1, 0);
    let looped = Some(Message { packet: Err(SurgeError::EchoRequestPacket), when: MS });
    assert!(p.recv_reply(&mut c, 1, looped).is_none());
    let step = p.recv_reply(&mut c, 1, inbound(reply(dest(), 1234, 1), 3 * MS));
    assert!(matches!(step, Some(Ok((_, rtt))) if rtt == 3 * MS));
}

#[test]
fn malformed_packet_ends_the_probe_and_cleans_up() {
    let p = session();
    let mut c = Cache::new();
    c.insert(1234, 1, 0);
    let bad = MalformedPacketError::PayloadTooShort { got: 8, want: 64 };
    let step = p.recv_reply(&mut c, 1, Some(Message { packet: Err(SurgeError::MalformedPacket(bad)), when: MS }));
    let r = p.finish(&mut c, 1, step);
    assert!(matches!(r, Err(SurgeError::MalformedPacket(MalformedPacketError::PayloadTooShort { got: 8, want: 64 }))));
    assert_eq!(c.remove(1234, 1), None);
}

#[test]
fn closed_channel_is_a_network_error() {
    let p = session();
    let mut c = Cache::new();
    c.insert(1234, 1, 0);
    let step = p.recv_reply(&mut c, 1, None);
    let r = p.finish(&mut c, 1, step);
    assert!(matches!(r, Err(SurgeError::NetworkError)));
    assert_eq!(c.remove(1234, 1), None);
}

#[test]
fn receipt_before_send_time_gives_zero() {
    let p = session();
    let mut c = Cache::new();
    c.insert(1234, 1, 10 * MS);
    let step = p.recv_reply(&mut c, 1, inbound(reply(dest(), 1234, 1), 9 * MS));
    assert!(matches!(step, Some(Ok((_, 0)))));
}
