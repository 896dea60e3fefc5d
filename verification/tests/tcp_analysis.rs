use tcbee::analysis::{
    bytes_in_flight, duplicate_acks, limitation_code, limitation_labels, loss_episodes, low32,
    retransmissions, sender_limitation_label, upper_window_int, usable_send_window,
};
use tcbee::tcp_seq::{is_pure_ack, tcp_seq_after, tcp_seq_before, TCP_ACK, TCP_PSH, TCP_SYN};

#[test]
fn seq_before_handles_wraparound() {
    assert!(tcp_seq_before(1, 2));
    assert!(!tcp_seq_before(2, 1));
    assert!(!tcp_seq_before(7, 7));
    // 0xFFFF_FFF0 lies just before 0x10 once the counter wrapped.
    assert!(tcp_seq_before(0xFFFF_FFF0, 0x10));
    assert!(tcp_seq_after(0x10, 0xFFFF_FFF0));
}

#[test]
fn pure_ack_flags() {
    assert!(is_pure_ack(TCP_ACK));
    assert!(!is_pure_ack(TCP_ACK | TCP_PSH));
    assert!(!is_pure_ack(TCP_SYN));
    assert!(!is_pure_ack(0));
}

#[test]
fn low32_reads_sequence_numbers() {
    assert_eq!(low32(5), 5);
    assert_eq!(low32(-1), u32::MAX);
    assert_eq!(low32(0x1_0000_0003), 3);
}

#[test]
fn bytes_in_flight_wraps() {
    let nxt = vec![(1u32, Some(1500)), (2, Some(10)), (3, None), (4, Some(20))];
    let una = vec![(1u32, Some(1000)), (2, Some(0xFFFF_FFF0)), (3, Some(5)), (4, Some(20))];
    let out = bytes_in_flight(&nxt, &una);
    assert_eq!(out, vec![(1, 500), (2, 0x1A), (4, 0)]);
}

#[test]
fn usable_send_window_values() {
    let una = vec![(0u8, Some(1000)), (1, Some(1000))];
    let wnd = vec![(0u8, Some(500)), (1, None)];
    let nxt = vec![(0u8, Some(1200)), (1, Some(1000))];
    assert_eq!(usable_send_window(&una, &wnd, &nxt), vec![(0, 300)]);
}

#[test]
fn usable_send_window_is_signed() {
    // USABLE_SND_WND = SND_UNA + SND_WND - SND_NXT = 1000 + 100 - 1200.
    let una = vec![(1u8, Some(1000))];
    let wnd = vec![(1u8, Some(100))];
    let nxt = vec![(1u8, Some(1200))];
    assert_eq!(usable_send_window(&una, &wnd, &nxt), vec![(1, -100)]);
    // Across sequence wraparound: the window starts just below 2^32.
    let una = vec![(2u8, Some(0xFFFF_FF00))];
    let wnd = vec![(2u8, Some(0x200))];
    let nxt = vec![(2u8, Some(0x50))];
    assert_eq!(usable_send_window(&una, &wnd, &nxt), vec![(2, 0xB0)]);
    // A window above 2^31 that is not overrun stays positive.
    let una = vec![(3u8, Some(0))];
    let wnd = vec![(3u8, Some(0x9000_0000))];
    let nxt = vec![(3u8, Some(0))];
    assert_eq!(usable_send_window(&una, &wnd, &nxt), vec![(3, 0x9000_0000)]);
}

#[test]
fn duplicate_acks_counts_runs() {
    let ack = vec![(0, Some(10)), (1, Some(10)), (2, Some(10)), (3, Some(11)), (4, Some(11))];
    let seq = vec![(0, Some(5)), (1, Some(5)), (2, Some(5)), (3, Some(5)), (4, Some(5))];
    let flags = vec![
        (0, Some(TCP_ACK)),
        (1, Some(TCP_ACK)),
        (2, Some(TCP_ACK | TCP_PSH)),
        (3, Some(TCP_ACK)),
        (4, Some(TCP_ACK)),
    ];
    let (events, counts) = duplicate_acks(&ack, &seq, &flags);
    assert_eq!(events, vec![1, 4]);
    assert_eq!(counts, vec![(0, 0), (1, 1), (2, 0), (3, 0), (4, 1)]);
}

#[test]
fn retransmissions_below_high_water() {
    let seq = vec![(0, Some(100)), (1, Some(200)), (2, Some(150)), (3, Some(300)), (4, None), (5, Some(250))];
    assert_eq!(retransmissions(&seq), vec![2, 5]);
}

#[test]
fn loss_episodes_grow_on_increase() {
    let total = vec![(0, Some(0)), (1, Some(0)), (2, Some(1)), (3, None), (4, Some(1)), (5, Some(3))];
    assert_eq!(loss_episodes(&total), vec![(0, 0), (1, 0), (2, 1), (4, 1), (5, 2)]);
}

#[test]
fn sender_limitation_labels_on_change() {
    assert_eq!(limitation_code(true, true), 2);
    assert_eq!(limitation_code(false, true), 1);
    assert_eq!(limitation_code(false, false), 0);
    assert_eq!(sender_limitation_label(1), "cwnd-limited");
    assert_eq!(sender_limitation_label(2), "rwnd-limited");
    assert_eq!(sender_limitation_label(0), "not-full");
    let labels = limitation_labels(&[(0, 0), (1, 0), (2, 1), (3, 2), (4, 2), (5, 0)]);
    let texts: Vec<(i32, &str)> = labels.iter().map(|(t, s)| (*t, s.as_str())).collect();
    assert_eq!(
        texts,
        vec![(0, "not-full"), (2, "cwnd-limited"), (3, "rwnd-limited"), (5, "not-full")]
    );
}

#[test]
fn upper_window_sums_integers() {
    let una = vec![(0, Some(100)), (1, None), (2, Some(-5))];
    let wnd = vec![(0, Some(20)), (1, Some(3)), (2, Some(5))];
    assert_eq!(upper_window_int(&una, &wnd), vec![(0, 120), (2, 0)]);
}

#[test]
fn usable_window_is_window_minus_flight() {
    let una = vec![(0u8, Some(1000)), (1, Some(0xFFFF_FF00)), (2, Some(7))];
    let wnd = vec![(0u8, Some(500)), (1, Some(4096)), (2, Some(100))];
    let nxt = vec![(0u8, Some(1200)), (1, Some(0x40)), (2, Some(300))];
    let usable = usable_send_window(&una, &wnd, &nxt);
    let flight = bytes_in_flight(&nxt, &una);
    assert_eq!(usable.len(), 3);
    for k in 0..3 {
        let w = wnd[k].1.unwrap();
        let expected = (w - flight[k].1).rem_euclid(1 << 32);
        assert_eq!(usable[k].1.rem_euclid(1 << 32), expected);
        assert_eq!(usable[k].1, w - flight[k].1);
    }
}

#[test]
fn increasing_sequence_numbers_are_not_retransmissions() {
    let seq = vec![(0, Some(1)), (1, Some(1)), (2, None), (3, Some(500)), (4, Some(0x7FFF_FFFF))];
    assert!(retransmissions(&seq).is_empty());
}

#[test]
fn duplicate_events_match_positive_counts() {
    let ack = vec![(0, Some(1)), (1, Some(1)), (2, Some(1)), (3, Some(1))];
    let seq = vec![(0, Some(9)), (1, Some(9)), (2, Some(9)), (3, Some(9))];
    let flags = vec![(0, Some(TCP_ACK)), (1, Some(TCP_ACK)), (2, Some(TCP_ACK)), (3, Some(TCP_ACK))];
    let (events, counts) = duplicate_acks(&ack, &seq, &flags);
    assert_eq!(events.len(), counts.iter().filter(|(_, c)| *c > 0).count());
    assert_eq!(counts, vec![(0, 0), (1, 1), (2, 2), (3, 3)]);
}
