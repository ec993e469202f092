use tcp_observer::codec::{decode_event, encode_event, EVENT_BYTES};
use tcp_observer::event::{direction_code, direction_from_code, TcpEvent, TrafficDirection};
use tcp_observer::format::format_event;

fn comm_of(name: &str) -> [u8; 16] {
    let mut comm = [0u8; 16];
    for (i, b) in name.as_bytes().iter().enumerate() {
        comm[i] = *b;
    }
    comm
}

fn sample(direction: TrafficDirection) -> TcpEvent {
    TcpEvent {
        pid: 4242,
        tgid: 42,
        len: 1460,
        direction,
        duration_ns: 98_765,
        comm: comm_of("worker"),
    }
}

#[test]
fn direction_codes_are_fixed() {
    assert_eq!(direction_code(TrafficDirection::Ingress), 0);
    assert_eq!(direction_code(TrafficDirection::Egress), 1);
    assert_eq!(direction_code(TrafficDirection::Accept), 2);
    assert_eq!(direction_code(TrafficDirection::Retransmit), 3);
    assert_eq!(direction_from_code(2), Some(TrafficDirection::Accept));
    assert_eq!(direction_from_code(4), None);
    assert_eq!(direction_from_code(u32::MAX), None);
}

#[test]
fn round_trip_preserves_every_field_for_every_direction() {
    for direction in [
        TrafficDirection::Ingress,
        TrafficDirection::Egress,
        TrafficDirection::Accept,
        TrafficDirection::Retransmit,
    ] {
        let ev = sample(direction);
        let bytes = encode_event(&ev);
        assert_eq!(bytes.len(), EVENT_BYTES);
        let back = decode_event(&bytes).expect("encoded record must decode");
        assert_eq!(back, ev);
    }
}

#[test]
fn wire_layout_is_byte_exact() {
    let ev = TcpEvent {
        pid: 0x0403_0201,
        tgid: 0x0807_0605,
        len: 0x1122_3344,
        direction: TrafficDirection::Egress,
        duration_ns: 0x5566_7788_99aa_bbcc,
        comm: comm_of("ab"),
    };
    let bytes = encode_event(&ev);
    assert_eq!(&bytes[0..4], &[0x01, 0x02, 0x03, 0x04]);
    assert_eq!(&bytes[4..8], &[0x05, 0x06, 0x07, 0x08]);
    assert_eq!(&bytes[8..16], &[0x44, 0x33, 0x22, 0x11, 0, 0, 0, 0]);
    assert_eq!(&bytes[16..20], &[1, 0, 0, 0]);
    assert_eq!(&bytes[20..24], &[0, 0, 0, 0]);
    assert_eq!(&bytes[24..32], &[0xcc, 0xbb, 0xaa, 0x99, 0x88, 0x77, 0x66, 0x55]);
    assert_eq!(&bytes[32..34], b"ab");
    assert_eq!(&bytes[34..48], &[0u8; 14]);
}

#[test]
fn decode_rejects_wrong_size() {
    let ev = sample(TrafficDirection::Ingress);
    let bytes = encode_event(&ev);
    assert!(decode_event(&bytes[..47]).is_none());
    let mut longer = bytes.clone();
    longer.push(0);
    assert!(decode_event(&longer).is_none());
    assert!(decode_event(&[]).is_none());
}

#[test]
fn decode_rejects_direction_outside_enumeration() {
    let ev = sample(TrafficDirection::Ingress);
    let mut bytes = encode_event(&ev);
    bytes[16] = 4;
    assert!(decode_event(&bytes).is_none());
    bytes[16] = 0xff;
    assert!(decode_event(&bytes).is_none());
}

#[test]
fn decode_ignores_padding_bytes() {
    let ev = sample(TrafficDirection::Accept);
    let mut bytes = encode_event(&ev);
    bytes[20] = 0xde;
    bytes[23] = 0xad;
    assert_eq!(decode_event(&bytes), Some(ev));
}

#[test]
fn send_line_is_exact() {
    let ev = TcpEvent {
        pid: 1234,
        tgid: 99,
        len: 200,
        direction: TrafficDirection::Egress,
        duration_ns: 500,
        comm: comm_of("worker"),
    };
    let line = format_event(&ev);
    assert_eq!(
        line,
        b"[SEND] PID: 1234 Comm: worker Size: 200 bytes | Latency: 500 ns".to_vec()
    );
}

#[test]
fn recv_line_is_exact() {
    let ev = TcpEvent {
        pid: 1,
        tgid: 1,
        len: 0,
        direction: TrafficDirection::Ingress,
        duration_ns: 0,
        comm: comm_of("r"),
    };
    let line = format_event(&ev);
    assert_eq!(line, b"[RECV] PID: 1 Comm: r Size: 0 bytes | Latency: 0 ns".to_vec());
}

#[test]
fn accept_line_uses_new_conn_tag() {
    let ev = TcpEvent {
        pid: 77,
        tgid: 7,
        len: 0,
        direction: TrafficDirection::Accept,
        duration_ns: 900,
        comm: comm_of("srv"),
    };
    let line = format_event(&ev);
    assert_eq!(
        line,
        b"[NEW CONN] PID: 77 Comm: srv Size: 0 bytes | Latency: 900 ns".to_vec()
    );
}

#[test]
fn retransmit_line_reports_loss_without_size_or_latency() {
    let ev = TcpEvent {
        pid: 8,
        tgid: 8,
        len: 0,
        direction: TrafficDirection::Retransmit,
        duration_ns: 0,
        comm: comm_of("flaky"),
    };
    let line = format_event(&ev);
    assert_eq!(line, b"[RETRANSMIT] PID: 8 Comm: flaky | Packet Lost!".to_vec());
}

#[test]
fn format_trims_trailing_null_padding_only() {
    let mut comm = [0u8; 16];
    comm[0] = b'a';
    comm[1] = 0;
    comm[2] = b'b';
    let ev = TcpEvent {
        pid: 1,
        tgid: 1,
        len: 1,
        direction: TrafficDirection::Egress,
        duration_ns: 1,
        comm,
    };
    let line = format_event(&ev);
    let mut expected = b"[SEND] PID: 1 Comm: ".to_vec();
    expected.extend_from_slice(&[b'a', 0, b'b']);
    expected.extend_from_slice(b" Size: 1 bytes | Latency: 1 ns");
    assert_eq!(line, expected);
}

#[test]
fn large_numbers_format_in_full() {
    let ev = TcpEvent {
        pid: u32::MAX,
        tgid: 1,
        len: usize::MAX,
        direction: TrafficDirection::Egress,
        duration_ns: u64::MAX,
        comm: comm_of("big"),
    };
    let line = format_event(&ev);
    let expected = format!(
        "[SEND] PID: {} Comm: big Size: {} bytes | Latency: {} ns",
        u32::MAX,
        usize::MAX,
        u64::MAX
    );
    assert_eq!(line, expected.into_bytes());
}
