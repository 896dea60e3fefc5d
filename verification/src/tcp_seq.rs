//! TCP sequence-number arithmetic and TCP flag tests.
use vstd::prelude::*;

verus! {

pub const TCP_FIN: i64 = 0x01;
pub const TCP_SYN: i64 = 0x02;
pub const TCP_RST: i64 = 0x04;
pub const TCP_PSH: i64 = 0x08;
pub const TCP_ACK: i64 = 0x10;

/// Distance from `b` forward to `a` on the 32-bit sequence-number circle.
pub open spec fn seq_distance(a: u32, b: u32) -> int {
    (a - b) % 0x1_0000_0000int
}

/// `a` lies strictly before `b` in TCP sequence space (RFC 1982 style):
/// the forward distance from `b` to `a` has its top bit set.
pub open spec fn spec_seq_before(a: u32, b: u32) -> bool {
    seq_distance(a, b) >= 0x8000_0000
}

/// Sequence number `a` comes before `b`, taking 32-bit wraparound into account.
pub fn tcp_seq_before(a: u32, b: u32) -> (r: bool)
    ensures
        r == spec_seq_before(a, b),
{
    let d = a.wrapping_sub(b);
    d >= 0x8000_0000
}

/// Sequence number `a` comes after `b`, taking 32-bit wraparound into account.
pub fn tcp_seq_after(a: u32, b: u32) -> (r: bool)
    ensures
        r == spec_seq_before(b, a),
{
    tcp_seq_before(b, a)
}

/// The flag bits that make a segment more than a plain acknowledgement.
pub open spec fn non_ack_flags() -> i64 {
    TCP_FIN | TCP_SYN | TCP_RST | TCP_PSH
}

/// A segment is a pure ACK when its ACK bit is set and none of FIN, SYN, RST, PSH is.
pub open spec fn spec_is_pure_ack(flags: i64) -> bool {
    flags & TCP_ACK != 0 && flags & non_ack_flags() == 0
}

/// Tests whether a TCP flags field describes a pure acknowledgement.
pub fn is_pure_ack(flags: i64) -> (r: bool)
    ensures
        r == spec_is_pure_ack(flags),
{
    flags & TCP_ACK != 0 && flags & (TCP_FIN | TCP_SYN | TCP_RST | TCP_PSH) == 0
}

/// No sequence number lies before itself.
pub proof fn law_seq_before_irreflexive(a: u32)
    ensures
        !spec_seq_before(a, a),
{
}

/// Sequence-space order is asymmetric, except for two numbers exactly half the
/// circle apart, each of which then counts as lying before the other.
pub proof fn law_seq_before_asymmetric(a: u32, b: u32)
    requires
        seq_distance(a, b) != 0x8000_0000,
    ensures
        spec_seq_before(a, b) ==> !spec_seq_before(b, a),
{
}

/// Of two distinct sequence numbers not half the circle apart, exactly one comes
/// after the other.
pub proof fn law_seq_order_total(a: u32, b: u32)
    requires
        a != b,
        seq_distance(a, b) != 0x8000_0000,
    ensures
        spec_seq_before(a, b) != spec_seq_before(b, a),
{
}

} // verus!
