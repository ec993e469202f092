use tcp_observer::codec::encode_event;
use tcp_observer::discovery::find_target_tgid;
use tcp_observer::event::{TcpEvent, TrafficDirection};
use tcp_observer::filter::{contains_bytes, filter_keep, trim_comm, FilterConfig};
use tcp_observer::pipeline::{process_batch, process_record, RecordOutcome};

fn comm_of(name: &str) -> [u8; 16] {
    let mut comm = [0u8; 16];
    for (i, b) in name.as_bytes().iter().enumerate() {
        comm[i] = *b;
    }
    comm
}

fn event_with(tgid: u32, name: &str) -> TcpEvent {
    TcpEvent {
        pid: 1000,
        tgid,
        len: 64,
        direction: TrafficDirection::Egress,
        duration_ns: 250,
        comm: comm_of(name),
    }
}

fn names(list: &[&str]) -> Vec<Vec<u8>> {
    list.iter().map(|s| s.as_bytes().to_vec()).collect()
}

#[test]
fn identity_match_with_exclude_miss_is_kept() {
    let cfg = FilterConfig {
        target_tgid: Some(4242),
        include_names: Vec::new(),
        exclude_names: names(&["debug"]),
    };
    assert!(filter_keep(&event_with(4242, "worker"), &cfg));
}

#[test]
fn exclude_substring_drops_despite_identity_match() {
    let cfg = FilterConfig {
        target_tgid: Some(4242),
        include_names: Vec::new(),
        exclude_names: names(&["debug"]),
    };
    assert!(!filter_keep(&event_with(4242, "worker-debug"), &cfg));
}

#[test]
fn identity_mismatch_drops_regardless_of_name_rules() {
    let cfg = FilterConfig {
        target_tgid: Some(4242),
        include_names: names(&["worker"]),
        exclude_names: Vec::new(),
    };
    assert!(!filter_keep(&event_with(7, "worker"), &cfg));
}

#[test]
fn empty_name_lists_are_neutral() {
    let cfg = FilterConfig {
        target_tgid: None,
        include_names: Vec::new(),
        exclude_names: Vec::new(),
    };
    assert!(filter_keep(&event_with(1, "anything"), &cfg));
    assert!(filter_keep(&event_with(2, ""), &cfg));
}

#[test]
fn include_list_admits_only_matching_names() {
    let cfg = FilterConfig {
        target_tgid: None,
        include_names: names(&["tokio", "server"]),
        exclude_names: Vec::new(),
    };
    assert!(filter_keep(&event_with(1, "chat-server"), &cfg));
    assert!(filter_keep(&event_with(1, "tokio-runtime"), &cfg));
    assert!(!filter_keep(&event_with(1, "bash"), &cfg));
}

#[test]
fn exclude_wins_over_include() {
    let cfg = FilterConfig {
        target_tgid: None,
        include_names: names(&["worker"]),
        exclude_names: names(&["worker"]),
    };
    assert!(!filter_keep(&event_with(1, "worker"), &cfg));
}

#[test]
fn trim_removes_only_trailing_nulls() {
    assert_eq!(trim_comm(&comm_of("worker")), b"worker".to_vec());
    assert_eq!(trim_comm(&[0u8; 16]), Vec::<u8>::new());
    assert_eq!(trim_comm(&[b'a', 0, b'b', 0, 0]), vec![b'a', 0, b'b']);
}

#[test]
fn substring_search_matches_anywhere() {
    assert!(contains_bytes(b"tokio-runtime", b"runtime"));
    assert!(contains_bytes(b"tokio-runtime", b"tokio"));
    assert!(contains_bytes(b"tokio-runtime", b"o-r"));
    assert!(contains_bytes(b"anything", b""));
    assert!(!contains_bytes(b"worker", b"workers"));
    assert!(!contains_bytes(b"", b"a"));
}

#[test]
fn kept_record_is_logged_with_its_line() {
    let cfg = FilterConfig {
        target_tgid: Some(4242),
        include_names: Vec::new(),
        exclude_names: names(&["debug"]),
    };
    let ev = TcpEvent {
        pid: 11,
        tgid: 4242,
        len: 200,
        direction: TrafficDirection::Egress,
        duration_ns: 500,
        comm: comm_of("worker"),
    };
    let raw = encode_event(&ev);
    match process_record(&raw, &cfg) {
        RecordOutcome::Logged(line) => assert_eq!(
            line,
            b"[SEND] PID: 11 Comm: worker Size: 200 bytes | Latency: 500 ns".to_vec()
        ),
        other => panic!("expected a logged line, got {:?}", other),
    }
}

#[test]
fn filtered_and_malformed_records_are_told_apart() {
    let cfg = FilterConfig {
        target_tgid: Some(4242),
        include_names: Vec::new(),
        exclude_names: Vec::new(),
    };
    let raw = encode_event(&event_with(7, "other"));
    assert_eq!(process_record(&raw, &cfg), RecordOutcome::Filtered);
    assert_eq!(process_record(&raw[..20], &cfg), RecordOutcome::Malformed);
    let mut corrupt = raw.clone();
    corrupt[16] = 9;
    assert_eq!(process_record(&corrupt, &cfg), RecordOutcome::Malformed);
}

#[test]
fn batch_preserves_arrival_order() {
    let cfg = FilterConfig {
        target_tgid: None,
        include_names: Vec::new(),
        exclude_names: Vec::new(),
    };
    let mut records = Vec::new();
    for name in ["a", "b", "c", "d", "e"] {
        records.push(encode_event(&event_with(1, name)));
    }
    let result = process_batch(&records, &cfg);
    assert_eq!(result.lines.len(), 5);
    for (line, name) in result.lines.iter().zip(["a", "b", "c", "d", "e"]) {
        let expected = format!("[SEND] PID: 1000 Comm: {} Size: 64 bytes | Latency: 250 ns", name);
        assert_eq!(line, &expected.into_bytes());
    }
    assert_eq!(result.filtered, 0);
    assert_eq!(result.malformed, 0);
}

#[test]
fn batch_counts_drops_and_keeps_going() {
    let cfg = FilterConfig {
        target_tgid: Some(1),
        include_names: Vec::new(),
        exclude_names: Vec::new(),
    };
    let kept = encode_event(&event_with(1, "keep"));
    let dropped = encode_event(&event_with(2, "drop"));
    let records = vec![
        dropped.clone(),
        kept.clone(),
        vec![0u8; 5],
        dropped,
        kept,
    ];
    let result = process_batch(&records, &cfg);
    assert_eq!(result.lines.len(), 2);
    assert_eq!(result.filtered, 2);
    assert_eq!(result.malformed, 1);
}

#[test]
fn forced_pid_wins_over_scan_matches() {
    assert_eq!(find_target_tgid(Some(4242), &vec![1, 2, 3]), Some(4242));
}

#[test]
fn last_scan_match_is_taken() {
    assert_eq!(find_target_tgid(None, &vec![10, 20, 30]), Some(30));
    assert_eq!(find_target_tgid(None, &Vec::new()), None);
}
