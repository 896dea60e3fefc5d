//! What the recorder starts: the tracers chosen by the command line, the graphs
//! they feed, the kernel hooks and queues of each tracer, and the errors
//! reported while starting them.
use vstd::prelude::*;
use crate::watcher::GraphConfig;
use crate::paths::{prepend_string, spec_path_join};

verus! {

/// Errors while attaching the kernel probes.
#[derive(Debug)]
pub enum EBPFRunnerError {
    /// A probe's output queue is missing from the loaded program.
    QueueNotFoundError { name: String, trace: String },
    /// No kernel program of this name was loaded.
    InvalidProgramError { name: String },
    /// The kernel refused a program; `orig_e` is the refusal's debug text.
    TracepointKernelLoadError { name: String, orig_e: String },
}

/// The message of each error.
pub open spec fn spec_runner_error_message(e: EBPFRunnerError) -> Seq<char> {
    match e {
        EBPFRunnerError::QueueNotFoundError { name, trace } => "Could not find queue with name: "@
            + name@ + " for tracepoint: "@ + trace@ + "!"@,
        EBPFRunnerError::InvalidProgramError { name } => "Could not find an available kernel program with "@
            + name@ + "!"@,
        EBPFRunnerError::TracepointKernelLoadError { name, orig_e } => "Could not load eBPF program '"@
            + name@ + "' into kernel! Original Error: "@ + orig_e@,
    }
}

impl EBPFRunnerError {
    /// The message shown for the error.
    pub fn message(&self) -> (r: String)
        ensures
            r@ == spec_runner_error_message(*self),
    {
        match self {
            EBPFRunnerError::QueueNotFoundError { name, trace } => {
                let mut m = String::from_str("Could not find queue with name: ");
                m.append(name.as_str());
                m.append(" for tracepoint: ");
                m.append(trace.as_str());
                m.append("!");
                m
            },
            EBPFRunnerError::InvalidProgramError { name } => {
                let mut m = String::from_str("Could not find an available kernel program with ");
                m.append(name.as_str());
                m.append("!");
                m
            },
            EBPFRunnerError::TracepointKernelLoadError { name, orig_e } => {
                let mut m = String::from_str("Could not load eBPF program '");
                m.append(name.as_str());
                m.append("' into kernel! Original Error: ");
                m.append(orig_e.as_str());
                m
            },
        }
    }
}

/// The kernel tracepoints that are recorded.
#[derive(Clone, Copy, Debug, PartialEq, Eq, Structural)]
pub enum TracepointKind {
    TcpProbe,
    TcpRetransmitSynack,
    TcpBadCsum,
}

/// One tracer to start.
#[derive(Clone, Copy, Debug, PartialEq, Eq, Structural)]
pub enum ProbeStep {
    /// Packet headers on the interface (TC ingress and egress).
    Headers,
    /// TCP socket metrics from kernel functions.
    Kernel,
    /// Congestion window only, from kernel functions.
    Cwnd,
    /// One kernel tracepoint.
    Tracepoint(TracepointKind),
    /// Cubic congestion-control events.
    Cubic,
    /// BBR congestion-control events; its failure is reported but not fatal.
    Bbr,
}

/// The tracers the recorder starts, in order, for the chosen recordings.
pub open spec fn spec_probe_plan(headers: bool, kernel: bool, cwnd: bool, tracepoints: bool, algorithms: bool) -> Seq<ProbeStep> {
    let a: Seq<ProbeStep> = if headers {
        seq![ProbeStep::Headers]
    } else {
        Seq::empty()
    };
    let b = if kernel {
        a.push(ProbeStep::Kernel)
    } else {
        a
    };
    let c = if cwnd {
        b.push(ProbeStep::Cwnd)
    } else {
        b
    };
    let d = if tracepoints {
        c.push(ProbeStep::Tracepoint(TracepointKind::TcpProbe)).push(
            ProbeStep::Tracepoint(TracepointKind::TcpRetransmitSynack),
        ).push(ProbeStep::Tracepoint(TracepointKind::TcpBadCsum))
    } else {
        c
    };
    if algorithms {
        d.push(ProbeStep::Cubic).push(ProbeStep::Bbr)
    } else {
        d
    }
}

/// The graphs the terminal view offers for the chosen recordings: the event
/// graph always, and one graph per recorded kind of data.
pub open spec fn spec_graphs_for(headers: bool, kernel: bool, cwnd: bool, tracepoints: bool, algorithms: bool) -> GraphConfig {
    GraphConfig {
        events: true,
        packets: headers,
        kernel: kernel || cwnd,
        cubic: algorithms,
        bbr: algorithms,
        tracepoints,
    }
}

/// Decides which tracers to start, in which order, and which graphs the
/// terminal view shows for them.
pub fn plan_probes(headers: bool, kernel: bool, cwnd: bool, tracepoints: bool, algorithms: bool) -> (r: (
    Vec<ProbeStep>,
    GraphConfig,
))
    ensures
        r.0@ == spec_probe_plan(headers, kernel, cwnd, tracepoints, algorithms),
        r.1 == spec_graphs_for(headers, kernel, cwnd, tracepoints, algorithms),
{
    let mut steps: Vec<ProbeStep> = Vec::new();
    let mut graphs = GraphConfig::new();
    if headers {
        steps.push(ProbeStep::Headers);
        graphs.packets = true;
    }
    if kernel {
        steps.push(ProbeStep::Kernel);
        graphs.kernel = true;
    }
    if cwnd {
        steps.push(ProbeStep::Cwnd);
        graphs.kernel = true;
    }
    if tracepoints {
        steps.push(ProbeStep::Tracepoint(TracepointKind::TcpProbe));
        steps.push(ProbeStep::Tracepoint(TracepointKind::TcpRetransmitSynack));
        steps.push(ProbeStep::Tracepoint(TracepointKind::TcpBadCsum));
        graphs.tracepoints = true;
    }
    if algorithms {
        steps.push(ProbeStep::Cubic);
        graphs.cubic = true;
        steps.push(ProbeStep::Bbr);
        graphs.bbr = true;
    }
    graphs.events = true;
    assert(steps@ =~= spec_probe_plan(headers, kernel, cwnd, tracepoints, algorithms));
    (steps, graphs)
}

/// A recording needs at least one kind of data to trace.
pub fn anything_to_trace(headers: bool, kernel: bool, cwnd: bool, tracepoints: bool, algorithms: bool) -> (r: bool)
    ensures
        r == (headers || kernel || cwnd || tracepoints || algorithms),
        r == (spec_probe_plan(headers, kernel, cwnd, tracepoints, algorithms).len() > 0),
{
    headers || tracepoints || kernel || cwnd || algorithms
}

// ---------------------------------------------------------------------------
// The tracers and what each attaches.

/// A kernel program and the kernel function (or tracepoint) it hooks.
pub open spec fn hook(program: &'static str, target: &'static str) -> (Seq<char>, Seq<char>) {
    (program@, target@)
}

/// A queue of a tracer and how it is described when it is missing.
pub open spec fn queue(name: &'static str, trace: &'static str) -> (Seq<char>, Seq<char>) {
    (name@, trace@)
}

fn pairs_view(v: &Vec<(&'static str, &'static str)>) -> (r: Ghost<Seq<(Seq<char>, Seq<char>)>>)
    ensures
        r@ == v@.map_values(|p: (&'static str, &'static str)| (p.0@, p.1@)),
{
    Ghost(v@.map_values(|p: (&'static str, &'static str)| (p.0@, p.1@)))
}

/// Packet headers of the TC ingress and egress paths.
pub struct TCTracer {}

impl TCTracer {
    /// The classifier programs, in attach order, with the traffic direction they
    /// attach to.
    pub fn programs() -> (r: Vec<(&'static str, &'static str)>)
        ensures
            r@.map_values(|p: (&'static str, &'static str)| (p.0@, p.1@)) == seq![
                hook("tc_ingress_packet_tracer", "ingress"),
                hook("tc_egress_packet_tracer", "egress"),
            ],
    {
        let mut r: Vec<(&'static str, &'static str)> = Vec::new();
        r.push(("tc_ingress_packet_tracer", "ingress"));
        r.push(("tc_egress_packet_tracer", "egress"));
        let g = pairs_view(&r);
        assert(g@ =~= seq![
            hook("tc_ingress_packet_tracer", "ingress"),
            hook("tc_egress_packet_tracer", "egress"),
        ]);
        r
    }

    /// The file names the queues are recorded to, in registration order.
    pub open spec fn spec_queue_files() -> Seq<(Seq<char>, Seq<char>)> {
        seq![
            ("TCP4_PACKETS_INGRESS"@, "tc4_ingress.tcp"@),
            ("TCP6_PACKETS_INGRESS"@, "tc6_ingress.tcp"@),
            ("TCP4_PACKETS_EGRESS"@, "tc4_egress.tcp"@),
            ("TCP6_PACKETS_EGRESS"@, "tc6_egress.tcp"@),
        ]
    }

    /// The queues, in registration order, each with the file in the recording
    /// directory `dir` that it is written to.
    pub fn queues(dir: &str) -> (r: Vec<(&'static str, String)>)
        ensures
            r@.len() == 4,
            forall|i: int|
                0 <= i < 4 ==> (#[trigger] r@[i]).0@ == Self::spec_queue_files()[i].0 && r@[i].1@
                    == spec_path_join(dir@, Self::spec_queue_files()[i].1),
    {
        let mut r: Vec<(&'static str, String)> = Vec::new();
        r.push(("TCP4_PACKETS_INGRESS", prepend_string(String::from_str("tc4_ingress.tcp"), dir)));
        r.push(("TCP6_PACKETS_INGRESS", prepend_string(String::from_str("tc6_ingress.tcp"), dir)));
        r.push(("TCP4_PACKETS_EGRESS", prepend_string(String::from_str("tc4_egress.tcp"), dir)));
        r.push(("TCP6_PACKETS_EGRESS", prepend_string(String::from_str("tc6_egress.tcp"), dir)));
        r
    }

    /// How the queues are described when one is missing.
    pub fn trace_name() -> (r: &'static str)
        ensures
            r@ == "TC Packet Tracer"@,
    {
        "TC Packet Tracer"
    }
}

/// Packet headers via XDP; currently attaches nothing.
pub struct XDPTracer {}

/// TCP socket metrics from `__tcp_transmit_skb` and `tcp_rcv_established`.
pub struct KernelTracer {}

impl KernelTracer {
    /// The entry probes, in attach order, with the kernel functions they hook.
    pub fn programs() -> (r: Vec<(&'static str, &'static str)>)
        ensures
            r@.map_values(|p: (&'static str, &'static str)| (p.0@, p.1@)) == seq![
                hook("sock_sendmsg", "__tcp_transmit_skb"),
                hook("sock_recvmsg", "tcp_rcv_established"),
            ],
    {
        let mut r: Vec<(&'static str, &'static str)> = Vec::new();
        r.push(("sock_sendmsg", "__tcp_transmit_skb"));
        r.push(("sock_recvmsg", "tcp_rcv_established"));
        let g = pairs_view(&r);
        assert(g@ =~= seq![
            hook("sock_sendmsg", "__tcp_transmit_skb"),
            hook("sock_recvmsg", "tcp_rcv_established"),
        ]);
        r
    }

    /// The queues (outgoing first), with how each is described when missing.
    pub fn queues() -> (r: Vec<(&'static str, &'static str)>)
        ensures
            r@.map_values(|p: (&'static str, &'static str)| (p.0@, p.1@)) == seq![
                queue("TCP_SEND_SOCK_EVENTS", "Socket Tracer tcp_sendmsg"),
                queue("TCP_RECV_SOCK_EVENTS", "Socket Tracer tcp_recvmsg"),
            ],
    {
        let mut r: Vec<(&'static str, &'static str)> = Vec::new();
        r.push(("TCP_SEND_SOCK_EVENTS", "Socket Tracer tcp_sendmsg"));
        r.push(("TCP_RECV_SOCK_EVENTS", "Socket Tracer tcp_recvmsg"));
        let g = pairs_view(&r);
        assert(g@ =~= seq![
            queue("TCP_SEND_SOCK_EVENTS", "Socket Tracer tcp_sendmsg"),
            queue("TCP_RECV_SOCK_EVENTS", "Socket Tracer tcp_recvmsg"),
        ]);
        r
    }
}

/// The congestion window from `tcp_sendmsg` and `tcp_recvmsg`.
pub struct CwndTracer {}

impl CwndTracer {
    /// The entry probes, in attach order, with the kernel functions they hook.
    pub fn programs() -> (r: Vec<(&'static str, &'static str)>)
        ensures
            r@.map_values(|p: (&'static str, &'static str)| (p.0@, p.1@)) == seq![
                hook("cwnd_sock_sendmsg", "tcp_sendmsg"),
                hook("cwnd_sock_recvmsg", "tcp_recvmsg"),
            ],
    {
        let mut r: Vec<(&'static str, &'static str)> = Vec::new();
        r.push(("cwnd_sock_sendmsg", "tcp_sendmsg"));
        r.push(("cwnd_sock_recvmsg", "tcp_recvmsg"));
        let g = pairs_view(&r);
        assert(g@ =~= seq![
            hook("cwnd_sock_sendmsg", "tcp_sendmsg"),
            hook("cwnd_sock_recvmsg", "tcp_recvmsg"),
        ]);
        r
    }

    /// The queues (outgoing first), with how each is described when missing.
    pub fn queues() -> (r: Vec<(&'static str, &'static str)>)
        ensures
            r@.map_values(|p: (&'static str, &'static str)| (p.0@, p.1@)) == seq![
                queue("TCP_SEND_CWND_EVENTS", "CWND Tracer tcp_sendmsg"),
                queue("TCP_RECEIVE_CWND_EVENTS", "CWND Tracer tcp_recvmsg"),
            ],
    {
        let mut r: Vec<(&'static str, &'static str)> = Vec::new();
        r.push(("TCP_SEND_CWND_EVENTS", "CWND Tracer tcp_sendmsg"));
        r.push(("TCP_RECEIVE_CWND_EVENTS", "CWND Tracer tcp_recvmsg"));
        let g = pairs_view(&r);
        assert(g@ =~= seq![
            queue("TCP_SEND_CWND_EVENTS", "CWND Tracer tcp_sendmsg"),
            queue("TCP_RECEIVE_CWND_EVENTS", "CWND Tracer tcp_recvmsg"),
        ]);
        r
    }
}

/// Cubic congestion-control events.
pub struct CubicTracer {}

impl CubicTracer {
    /// The entry probes, in attach order, with the kernel functions they hook.
    pub fn programs() -> (r: Vec<(&'static str, &'static str)>)
        ensures
            r@.map_values(|p: (&'static str, &'static str)| (p.0@, p.1@)) == seq![
                hook("cubic_cong_control", "cubictcp_cong_avoid"),
                hook("cubic_cwnd_event", "cubictcp_cwnd_event"),
            ],
    {
        let mut r: Vec<(&'static str, &'static str)> = Vec::new();
        r.push(("cubic_cong_control", "cubictcp_cong_avoid"));
        r.push(("cubic_cwnd_event", "cubictcp_cwnd_event"));
        let g = pairs_view(&r);
        assert(g@ =~= seq![
            hook("cubic_cong_control", "cubictcp_cong_avoid"),
            hook("cubic_cwnd_event", "cubictcp_cwnd_event"),
        ]);
        r
    }

    /// The single queue both programs write to, and its description.
    pub fn queue() -> (r: (&'static str, &'static str))
        ensures
            (r.0@, r.1@) == queue("CUBIC_EVENTS", "Congestion Algorithm Tracer - Cubic"),
    {
        ("CUBIC_EVENTS", "Congestion Algorithm Tracer - Cubic")
    }
}

/// BBR congestion-control events.
pub struct BBRTracer {}

impl BBRTracer {
    /// The kprobes, in attach order, with the kernel functions they hook.
    pub fn programs() -> (r: Vec<(&'static str, &'static str)>)
        ensures
            r@.map_values(|p: (&'static str, &'static str)| (p.0@, p.1@)) == seq![
                hook("bbr_cong_control", "bbr_main"),
                hook("bbr_cwnd_event", "bbr_cwnd_event"),
            ],
    {
        let mut r: Vec<(&'static str, &'static str)> = Vec::new();
        r.push(("bbr_cong_control", "bbr_main"));
        r.push(("bbr_cwnd_event", "bbr_cwnd_event"));
        let g = pairs_view(&r);
        assert(g@ =~= seq![
            hook("bbr_cong_control", "bbr_main"),
            hook("bbr_cwnd_event", "bbr_cwnd_event"),
        ]);
        r
    }

    /// The single queue both programs write to, and its description.
    pub fn queue() -> (r: (&'static str, &'static str))
        ensures
            (r.0@, r.1@) == queue("BBR_EVENTS", "Congestion Algorithm Tracer - BBR"),
    {
        ("BBR_EVENTS", "Congestion Algorithm Tracer - BBR")
    }
}

/// Kernel tracepoints; the program, category, queue and file of each come from
/// the tracepoint's own description.
pub struct TracepointTracer {}

impl TracepointTracer {
    /// The error for a tracepoint whose program is missing.
    pub fn missing_program(name: &str) -> (r: EBPFRunnerError)
        ensures
            r matches EBPFRunnerError::InvalidProgramError { name: n } && n@ == name@,
    {
        EBPFRunnerError::InvalidProgramError { name: String::from_str(name) }
    }

    /// The error for a tracepoint whose queue is missing.
    pub fn missing_queue(queue: &str, name: &str) -> (r: EBPFRunnerError)
        ensures
            r matches EBPFRunnerError::QueueNotFoundError { name: q, trace: t } && q@ == queue@
                && t@ == name@,
    {
        EBPFRunnerError::QueueNotFoundError {
            name: String::from_str(queue),
            trace: String::from_str(name),
        }
    }
}

} // verus!
