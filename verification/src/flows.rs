//! The flows seen by the recorder: decoding of the address tuples the kernel
//! probes report, and the table of distinct flows shown in the terminal view.
use vstd::prelude::*;
use crate::filter::IpAddress;

verus! {

/// A TCP flow by its endpoints.
#[derive(Clone, Copy, Debug)]
pub struct Flow {
    pub src: IpAddress,
    pub dst: IpAddress,
    pub sport: u16,
    pub dport: u16,
}

/// An address as a sequence of bytes, tagged with its version.
pub open spec fn addr_key(a: IpAddress) -> (bool, Seq<u8>) {
    match a {
        IpAddress::V4(o) => (false, o@),
        IpAddress::V6(o) => (true, o@),
    }
}

/// What identifies a flow: both addresses and both ports.
pub open spec fn flow_key(f: Flow) -> ((bool, Seq<u8>), (bool, Seq<u8>), u16, u16) {
    (addr_key(f.src), addr_key(f.dst), f.sport, f.dport)
}

/// The probes store IPv4 addresses either IPv4-mapped (::ffff:a.b.c.d) ...
pub open spec fn spec_is_v4_mapped(a: Seq<u8>) -> bool {
    (forall|i: int| 0 <= i < 10 ==> a[i] == 0) && a[10] == 0xff && a[11] == 0xff
}

/// ... or in the first four bytes with the rest zero.
pub open spec fn spec_is_v4_compat(a: Seq<u8>) -> bool {
    forall|i: int| 4 <= i < 16 ==> a[i] == 0
}

/// The flow a probe tuple describes, and whether it is an IPv6 flow. The
/// address family is decided by the source address.
pub open spec fn spec_decode_flow(src: Seq<u8>, dst: Seq<u8>, sport: u16, dport: u16) -> (((bool, Seq<u8>), (bool, Seq<u8>), u16, u16), bool) {
    if spec_is_v4_mapped(src) {
        (((false, src.subrange(12, 16)), (false, dst.subrange(12, 16)), sport, dport), false)
    } else if spec_is_v4_compat(src) {
        (((false, src.subrange(0, 4)), (false, dst.subrange(0, 4)), sport, dport), false)
    } else {
        (((true, src), (true, dst), sport, dport), true)
    }
}

/// The address part of a 28-byte socket address as the tcp_probe tracepoint
/// reports it: the bytes after the 4-byte family-and-port header, as IPv6.
pub fn shorten_to_ipv6(arg: [u8; 28]) -> (r: [u8; 16])
    ensures
        r@ == arg@.subrange(4, 20),
{
    let r = [
        arg[4],
        arg[5],
        arg[6],
        arg[7],
        arg[8],
        arg[9],
        arg[10],
        arg[11],
        arg[12],
        arg[13],
        arg[14],
        arg[15],
        arg[16],
        arg[17],
        arg[18],
        arg[19],
    ];
    assert(r@ =~= arg@.subrange(4, 20));
    r
}

/// The IPv4 address part of a 28-byte socket address (bytes 4 to 7).
pub fn shorten_to_ipv4(arg: [u8; 28]) -> (r: [u8; 4])
    ensures
        r@ == arg@.subrange(4, 8),
{
    let r = [arg[4], arg[5], arg[6], arg[7]];
    assert(r@ =~= arg@.subrange(4, 8));
    r
}

fn all_zero(a: &[u8; 16], from: usize, to: usize) -> (r: bool)
    requires
        from <= to <= 16,
    ensures
        r == forall|i: int| from <= i < to ==> a@[i] == 0,
{
    let mut i = from;
    while i < to
        invariant
            from <= i <= to <= 16,
            forall|k: int| from <= k < i ==> a@[k] == 0,
        decreases to - i,
    {
        if a[i] != 0 {
            return false;
        }
        i = i + 1;
    }
    true
}

fn bytes4(a: &[u8; 16], at: usize) -> (r: [u8; 4])
    requires
        at + 4 <= 16,
    ensures
        r@ == a@.subrange(at as int, at + 4),
{
    let r = [a[at], a[at + 1], a[at + 2], a[at + 3]];
    assert(r@ =~= a@.subrange(at as int, at + 4));
    r
}

/// Decodes the address tuple reported by the kernel probes into a flow, and
/// tells whether the flow is an IPv6 flow.
pub fn decode_flow(src_ip: [u8; 16], dst_ip: [u8; 16], sport: u16, dport: u16) -> (r: (Flow, bool))
    ensures
        (flow_key(r.0), r.1) == spec_decode_flow(src_ip@, dst_ip@, sport, dport),
{
    let mapped = all_zero(&src_ip, 0, 10) && src_ip[10] == 0xff && src_ip[11] == 0xff;
    if mapped {
        let f = Flow {
            src: IpAddress::V4(bytes4(&src_ip, 12)),
            dst: IpAddress::V4(bytes4(&dst_ip, 12)),
            sport,
            dport,
        };
        (f, false)
    } else if all_zero(&src_ip, 4, 16) {
        let f = Flow {
            src: IpAddress::V4(bytes4(&src_ip, 0)),
            dst: IpAddress::V4(bytes4(&dst_ip, 0)),
            sport,
            dport,
        };
        (f, false)
    } else {
        (Flow { src: IpAddress::V6(src_ip), dst: IpAddress::V6(dst_ip), sport, dport }, true)
    }
}

fn same_addr(a: &IpAddress, b: &IpAddress) -> (r: bool)
    ensures
        r == (addr_key(*a) == addr_key(*b)),
{
    match (a, b) {
        (IpAddress::V4(x), IpAddress::V4(y)) => {
            let mut i: usize = 0;
            while i < 4
                invariant
                    *a == IpAddress::V4(*x),
                    *b == IpAddress::V4(*y),
                    i <= 4,
                    forall|k: int| 0 <= k < i ==> x@[k] == y@[k],
                decreases 4 - i,
            {
                if x[i] != y[i] {
                    assert(x@[i as int] != y@[i as int]);
                    return false;
                }
                i = i + 1;
            }
            assert(x@ =~= y@);
            true
        },
        (IpAddress::V6(x), IpAddress::V6(y)) => {
            let mut i: usize = 0;
            while i < 16
                invariant
                    *a == IpAddress::V6(*x),
                    *b == IpAddress::V6(*y),
                    i <= 16,
                    forall|k: int| 0 <= k < i ==> x@[k] == y@[k],
                decreases 16 - i,
            {
                if x[i] != y[i] {
                    assert(x@[i as int] != y@[i as int]);
                    return false;
                }
                i = i + 1;
            }
            assert(x@ =~= y@);
            true
        },
        _ => false,
    }
}

fn same_flow(a: &Flow, b: &Flow) -> (r: bool)
    ensures
        r == (flow_key(*a) == flow_key(*b)),
{
    a.sport == b.sport && a.dport == b.dport && same_addr(&a.src, &b.src) && same_addr(
        &a.dst,
        &b.dst,
    )
}

/// The distinct flows seen so far, each with its IP version, in the order they
/// were first seen.
pub struct FlowTracker {
    flows: Vec<(Flow, bool)>,
    num_flows: usize,
}

/// No flow occurs twice in a table.
pub open spec fn distinct_keys(s: Seq<(Flow, bool)>) -> bool {
    forall|i: int, j: int|
        0 <= i < j < s.len() ==> flow_key(#[trigger] s[i].0) != flow_key(#[trigger] s[j].0)
}

impl FlowTracker {
    /// The flows in the table, in the order they were first seen.
    pub closed spec fn entries(&self) -> Seq<(Flow, bool)> {
        self.flows@
    }

    /// The number of rows the table showed when it was last drawn.
    pub closed spec fn shown(&self) -> usize {
        self.num_flows
    }

    /// The table never holds the same flow twice.
    pub closed spec fn wf(&self) -> bool {
        distinct_keys(self.flows@)
    }

    /// An empty table.
    pub fn new() -> (r: FlowTracker)
        ensures
            r.wf(),
            r.entries() == Seq::<(Flow, bool)>::empty(),
            r.shown() == 0,
    {
        FlowTracker { flows: Vec::new(), num_flows: 0 }
    }

    /// The IPv4 address stored in the first four bytes of a flow address.
    pub fn shorten_to_ipv4(arg: [u8; 16]) -> (r: [u8; 4])
        ensures
            r@ == arg@.subrange(0, 4),
    {
        bytes4(&arg, 0)
    }

    /// Records a flow: a flow already in the table keeps its place and takes the
    /// new marker, a new flow is appended.
    pub fn insert(&mut self, flow: Flow, is_ipv6: bool)
        requires
            old(self).wf(),
        ensures
            final(self).wf(),
            final(self).shown() == old(self).shown(),
            (exists|i: int|
                0 <= i < old(self).entries().len() && flow_key(old(self).entries()[i].0)
                    == flow_key(flow)) ==> final(self).entries().len() == old(self).entries().len(),
            (forall|i: int|
                0 <= i < old(self).entries().len() ==> flow_key(old(self).entries()[i].0)
                    != flow_key(flow)) ==> final(self).entries() == old(self).entries().push(
                (flow, is_ipv6),
            ),
            forall|i: int|
                0 <= i < old(self).entries().len() ==> flow_key(#[trigger] final(self).entries()[i].0)
                    == flow_key(old(self).entries()[i].0),
            forall|i: int|
                0 <= i < final(self).entries().len() && flow_key(final(self).entries()[i].0)
                    == flow_key(flow) ==> #[trigger] final(self).entries()[i].1 == is_ipv6,
            forall|i: int|
                0 <= i < old(self).entries().len() && flow_key(old(self).entries()[i].0)
                    != flow_key(flow) ==> #[trigger] final(self).entries()[i] == old(self).entries()[i],
    {
        let mut i: usize = 0;
        while i < self.flows.len()
            invariant
                self.flows@ == old(self).flows@,
                self.num_flows == old(self).num_flows,
                distinct_keys(self.flows@),
                i <= self.flows@.len(),
                forall|k: int| 0 <= k < i ==> flow_key(self.flows@[k].0) != flow_key(flow),
            decreases self.flows@.len() - i,
        {
            if same_flow(&self.flows[i].0, &flow) {
                let ghost before = self.flows@;
                self.flows.set(i, (flow, is_ipv6));
                proof {
                    assert forall|a: int, b: int|
                        0 <= a < b < self.flows@.len() implies flow_key(#[trigger] self.flows@[a].0)
                        != flow_key(#[trigger] self.flows@[b].0) by {
                        assert(flow_key(before[a].0) != flow_key(before[b].0));
                    }
                    assert forall|k: int|
                        0 <= k < self.flows@.len() && flow_key(self.flows@[k].0) == flow_key(flow)
                        implies #[trigger] self.flows@[k].1 == is_ipv6 by {
                        if k != i {
                            if k < i {
                                assert(flow_key(before[k].0) != flow_key(before[i as int].0));
                            } else {
                                assert(flow_key(before[i as int].0) != flow_key(before[k].0));
                            }
                        }
                    }
                }
                return;
            }
            i = i + 1;
        }
        self.flows.push((flow, is_ipv6));
    }

    /// The number of distinct flows seen.
    pub fn len(&self) -> (r: usize)
        ensures
            r == self.entries().len(),
    {
        self.flows.len()
    }

    /// The flow at position `i` of the table, with its IPv6 marker.
    pub fn get(&self, i: usize) -> (r: (Flow, bool))
        requires
            i < self.entries().len(),
        ensures
            r == self.entries()[i as int],
    {
        self.flows[i]
    }

    /// The number of rows the table showed when it was last drawn (the limit of
    /// scrolling).
    pub fn num_flows(&self) -> (r: usize)
        ensures
            r == self.shown(),
    {
        self.num_flows
    }

    /// Updates the shown row count to the number of rows the table shows now.
    pub fn refresh_count(&mut self)
        ensures
            final(self).entries() == old(self).entries(),
            final(self).wf() == old(self).wf(),
            final(self).shown() == old(self).entries().len(),
    {
        self.num_flows = self.flows.len();
    }
}

/// An IPv4 flow written by the probes in IPv4-mapped form (::ffff:a.b.c.d)
/// decodes to the IPv4 flow with the same addresses and ports.
pub proof fn law_decode_mapped_v4(src: Seq<u8>, dst: Seq<u8>, sport: u16, dport: u16)
    requires
        src.len() == 4,
        dst.len() == 4,
    ensures
        ({
            let prefix = Seq::new(10, |i: int| 0u8) + seq![0xffu8, 0xffu8];
            spec_decode_flow(prefix + src, prefix + dst, sport, dport) == (
                ((false, src), (false, dst), sport, dport),
                false,
            )
        }),
{
    let prefix = Seq::new(10, |i: int| 0u8) + seq![0xffu8, 0xffu8];
    assert(spec_is_v4_mapped(prefix + src));
    assert((prefix + src).subrange(12, 16) == src);
    assert((prefix + dst).subrange(12, 16) == dst);
}

/// A flow whose source address is a genuine IPv6 address (neither IPv4-mapped
/// nor zero beyond its first four bytes) is kept as an IPv6 flow, unchanged.
pub proof fn law_decode_v6_unchanged(src: Seq<u8>, dst: Seq<u8>, sport: u16, dport: u16)
    requires
        !spec_is_v4_mapped(src),
        !spec_is_v4_compat(src),
    ensures
        spec_decode_flow(src, dst, sport, dport) == (((true, src), (true, dst), sport, dport), true),
{
}

} // verus!
