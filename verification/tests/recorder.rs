use tcbee::runner::{
    anything_to_trace, plan_probes, BBRTracer, CubicTracer, CwndTracer, EBPFRunnerError,
    KernelTracer, ProbeStep, TCTracer, TracepointKind, TracepointTracer,
};
use tcbee::watcher::{
    counter_maps, flows_map, missing_map_message, selected_graph, views, GraphConfig, GraphKind, Metrics, Status, TuiAction, TuiEvent, TuiState,
    ViewLayout,
};
use tcbee::writer::{
    chunk_bytes, record_delimiter_bytes, CpuPool, FileCursor, GrowError, MIN_MMAP_GROWTH,
};

#[test]
fn nothing_to_trace_without_flags() {
    assert!(!anything_to_trace(false, false, false, false, false));
    assert!(anything_to_trace(false, false, true, false, false));
    assert!(anything_to_trace(true, false, false, false, false));
}

#[test]
fn probe_plan_order_and_graphs() {
    let (steps, graphs) = plan_probes(true, false, true, true, true);
    assert_eq!(
        steps,
        vec![
            ProbeStep::Headers,
            ProbeStep::Cwnd,
            ProbeStep::Tracepoint(TracepointKind::TcpProbe),
            ProbeStep::Tracepoint(TracepointKind::TcpRetransmitSynack),
            ProbeStep::Tracepoint(TracepointKind::TcpBadCsum),
            ProbeStep::Cubic,
            ProbeStep::Bbr,
        ]
    );
    assert!(graphs.events && graphs.packets && graphs.kernel && graphs.cubic && graphs.bbr);
    assert!(graphs.tracepoints);
    let tabs: Vec<&str> = graphs.tabs().iter().map(|g| g.title()).collect();
    assert_eq!(tabs, vec!["Events", "Packets", "Kernel", "Cubic", "BBR", "Tracepoints"]);

    let (steps, graphs) = plan_probes(false, true, false, false, false);
    assert_eq!(steps, vec![ProbeStep::Kernel]);
    assert_eq!(graphs.tabs(), vec![GraphKind::Events, GraphKind::Kernel]);

    let (steps, graphs) = plan_probes(false, false, false, false, false);
    assert!(steps.is_empty());
    assert_eq!(graphs.tabs(), vec![GraphKind::Events]);
}

#[test]
fn graph_selection() {
    let c = GraphConfig::new();
    assert!(c.tabs().is_empty());
    assert_eq!(selected_graph(&[], 0), GraphKind::Events);
    assert_eq!(selected_graph(&[GraphKind::Events, GraphKind::Bbr], 1), GraphKind::Bbr);
    let d = GraphConfig::default();
    assert!(!d.events);
}

#[test]
fn view_layouts() {
    assert_eq!(views(false, false, false), vec![("None", ViewLayout::PacketsOnly)]);
    assert_eq!(
        views(true, true, false),
        vec![
            ("Packets", ViewLayout::PacketsOnly),
            ("Calls", ViewLayout::CallsOnly),
            ("Split H", ViewLayout::SplitHorizontal),
            ("Split V", ViewLayout::SplitVertical),
        ]
    );
    assert_eq!(
        views(false, true, true),
        vec![
            ("Calls", ViewLayout::CallsOnly),
            ("BBR", ViewLayout::BBROnly),
            ("Cubic", ViewLayout::CubicOnly),
        ]
    );
}

#[test]
fn status_blocks() {
    let s = Status::new();
    assert_eq!(s.num_blocks(), 8);
    assert_eq!(s.titles().len(), s.num_blocks());
    assert_eq!(s.titles()[0], "Time Elapsed");
    assert_eq!(s.titles()[7], "TCP Bytes Received");
    let _ = Status::default();
    let m = Metrics {
        handled: 1,
        dropped: 2,
        ingress: 3,
        egress: 4,
        ingress_calls: 5,
        egress_calls: 6,
        tcp_bytes_sent: 7,
        tcp_bytes_received: 8,
    };
    assert_eq!(m.dropped, 2);
}

#[test]
fn tui_navigation() {
    let mut s = TuiState::new();
    assert_eq!(s.handle(TuiEvent::NextTab, 3, 10), TuiAction::Continue);
    assert_eq!(s.selected_tab, 1);
    s.handle(TuiEvent::NextTab, 3, 10);
    s.handle(TuiEvent::NextTab, 3, 10);
    assert_eq!(s.selected_tab, 0);
    s.handle(TuiEvent::PreviousTab, 3, 10);
    assert_eq!(s.selected_tab, 2);
    s.handle(TuiEvent::ClickTab(1), 3, 10);
    assert_eq!(s.selected_tab, 1);
    s.handle(TuiEvent::ScrollUp, 3, 10);
    assert_eq!(s.scroll_index, 0);
    for _ in 0..12 {
        s.handle(TuiEvent::ScrollDown, 3, 10);
    }
    assert_eq!(s.scroll_index, 10);
    s.handle(TuiEvent::Other, 3, 10);
    assert_eq!((s.selected_tab, s.scroll_index), (1, 10));
    assert_eq!(s.handle(TuiEvent::Quit, 3, 10), TuiAction::Stop);
    let mut empty = TuiState::new();
    empty.handle(TuiEvent::NextTab, 0, 0);
    empty.handle(TuiEvent::PreviousTab, 0, 0);
    assert_eq!(empty.selected_tab, 0);
}

#[test]
fn next_then_previous_tab_returns() {
    for tabs in 1..5usize {
        for start in 0..tabs {
            let mut s = TuiState { selected_tab: start, scroll_index: 0 };
            s.handle(TuiEvent::NextTab, tabs, 0);
            assert!(s.selected_tab < tabs);
            s.handle(TuiEvent::PreviousTab, tabs, 0);
            assert_eq!(s.selected_tab, start);
        }
    }
}

#[test]
fn tracer_hooks_and_queues() {
    assert_eq!(
        TCTracer::programs(),
        vec![("tc_ingress_packet_tracer", "ingress"), ("tc_egress_packet_tracer", "egress")]
    );
    let q = TCTracer::queues("/data/run");
    assert_eq!(q.len(), 4);
    assert_eq!(q[0], ("TCP4_PACKETS_INGRESS", "/data/run/tc4_ingress.tcp".to_string()));
    assert_eq!(q[1], ("TCP6_PACKETS_INGRESS", "/data/run/tc6_ingress.tcp".to_string()));
    assert_eq!(q[3], ("TCP6_PACKETS_EGRESS", "/data/run/tc6_egress.tcp".to_string()));
    assert_eq!(TCTracer::queues("/tmp/")[2].1, "/tmp/tc4_egress.tcp");
    assert_eq!(TCTracer::trace_name(), "TC Packet Tracer");
    assert_eq!(KernelTracer::programs()[0], ("sock_sendmsg", "__tcp_transmit_skb"));
    assert_eq!(KernelTracer::queues()[1], ("TCP_RECV_SOCK_EVENTS", "Socket Tracer tcp_recvmsg"));
    assert_eq!(CwndTracer::programs()[1], ("cwnd_sock_recvmsg", "tcp_recvmsg"));
    assert_eq!(CwndTracer::queues()[0], ("TCP_SEND_CWND_EVENTS", "CWND Tracer tcp_sendmsg"));
    assert_eq!(CubicTracer::programs()[0], ("cubic_cong_control", "cubictcp_cong_avoid"));
    assert_eq!(CubicTracer::queue(), ("CUBIC_EVENTS", "Congestion Algorithm Tracer - Cubic"));
    assert_eq!(BBRTracer::programs()[0], ("bbr_cong_control", "bbr_main"));
    assert_eq!(BBRTracer::queue(), ("BBR_EVENTS", "Congestion Algorithm Tracer - BBR"));
}

#[test]
fn runner_error_messages() {
    assert_eq!(
        TracepointTracer::missing_program("tcp_probe").message(),
        "Could not find an available kernel program with tcp_probe!"
    );
    assert_eq!(
        TracepointTracer::missing_queue("TCP_PROBE_QUEUE", "tcp_probe").message(),
        "Could not find queue with name: TCP_PROBE_QUEUE for tracepoint: tcp_probe!"
    );
    let e = EBPFRunnerError::TracepointKernelLoadError {
        name: "bbr_main".to_string(),
        orig_e: "Verifier rejected".to_string(),
    };
    assert_eq!(
        e.message(),
        "Could not load eBPF program 'bbr_main' into kernel! Original Error: Verifier rejected"
    );
}

#[test]
fn writer_delimiter_and_chunks() {
    assert_eq!(record_delimiter_bytes().len(), 4);
    assert_eq!(chunk_bytes(16, 1024), 16 * 1024);
    assert_eq!(chunk_bytes(0, 1024), 1024);
    assert_eq!(chunk_bytes(usize::MAX / 2, 1024), 1024 * 128);
}

#[test]
fn file_cursor_growth() {
    let c = FileCursor::open(0, 10);
    assert_eq!((c.position, c.capacity, c.growth), (0, MIN_MMAP_GROWTH, MIN_MMAP_GROWTH));
    let c = FileCursor::open(3 * MIN_MMAP_GROWTH, 0);
    assert_eq!(c.capacity, 3 * MIN_MMAP_GROWTH);
    let g = MIN_MMAP_GROWTH * 2;
    let mut c = FileCursor::open(10, g);
    assert_eq!(c.required_capacity(0), Ok(None));
    assert_eq!(c.required_capacity(g - 10), Ok(None));
    assert_eq!(c.required_capacity(g - 9), Ok(Some(2 * g)));
    assert_eq!(c.required_capacity(3 * g), Ok(Some(4 * g)));
    assert_eq!(c.required_capacity(usize::MAX), Err(GrowError::Overflow));
    assert_eq!(GrowError::Overflow.message(), "file size overflow");
    let near_end = FileCursor { position: usize::MAX - 10, capacity: usize::MAX - 5, growth: 0 };
    assert_eq!(near_end.required_capacity(5), Ok(None));
    assert_eq!(near_end.required_capacity(8), Err(GrowError::Overflow));
    let exact = FileCursor { position: 0, capacity: 0, growth: 100 };
    assert_eq!(exact.required_capacity(MIN_MMAP_GROWTH), Ok(Some(MIN_MMAP_GROWTH)));
    assert_eq!(exact.required_capacity(MIN_MMAP_GROWTH + 1), Ok(Some(2 * MIN_MMAP_GROWTH)));
    let need = c.required_capacity(g).unwrap().unwrap();
    c.grown(need);
    assert_eq!(c.append(g), (10, 10 + g));
    assert_eq!(c.position, 10 + g);
    assert_eq!(c.capacity, 2 * g);
}

#[test]
fn cpu_pool_round_robin() {
    let mut none = CpuPool::new();
    assert_eq!(none.assign(), None);
    let mut pool = CpuPool::new().with_cpu_affinity(vec![2, 5]);
    let got: Vec<Option<usize>> = (0..5).map(|_| pool.assign()).collect();
    assert_eq!(got, vec![Some(2), Some(5), Some(2), Some(5), Some(2)]);
}

#[test]
fn watched_counter_maps() {
    let maps = counter_maps();
    assert_eq!(maps.len(), 11);
    assert_eq!(maps[0], ("EVENTS_DROPPED", "Events/s", "Event Drops"));
    assert_eq!(maps[5], ("RECV_TCP_SOCK", "Bytes/s", "TCP Recvmsg"));
    assert_eq!(maps[10], ("TRACEPOINT_EVENTS", "Calls/s", "Tracepoint Events"));
    assert_eq!(flows_map(), "FLOWS");
    assert_eq!(missing_map_message("FLOWS"), "Could not find FLOWS map!");
}

#[test]
fn failed_registrations_keep_the_rotation() {
    let mut pool = CpuPool::new().with_cpu_affinity(vec![1, 2, 3]);
    assert_eq!(pool.register_job(true), Some(Some(1)));
    assert_eq!(pool.register_job(false), None);
    assert_eq!(pool.register_job(true), Some(Some(2)));
    assert_eq!(pool.register_job(true), Some(Some(3)));
    assert_eq!(pool.register_job(true), Some(Some(1)));
    let mut unpinned = CpuPool::new();
    assert_eq!(unpinned.register_job(true), Some(None));
}

#[test]
fn round_robin_position_never_overflows() {
    let mut pool = CpuPool { cpus: vec![4, 7], next_cpu: usize::MAX };
    assert_eq!(pool.assign(), Some(7));
    assert_eq!(pool.assign(), Some(4));
    assert_eq!(pool.assign(), Some(7));
    assert!(pool.next_cpu <= 2);
}
