//! Derived TCP metrics computed sample by sample from recorded series.
//!
//! A recorded series is a sequence of `(timestamp, reading)` pairs. The reading
//! is the sample's integer value, or `None` for samples that carry no number
//! (text samples). Timestamps are carried through unchanged, so every analysis
//! is generic in their type.
use vstd::prelude::*;
use crate::tcp_seq::{spec_is_pure_ack, spec_seq_before, is_pure_ack, tcp_seq_before};

verus! {

/// Reduction modulo 2^32: the value a quantity takes in 32-bit sequence space.
pub open spec fn mod32(x: int) -> int {
    x % 0x1_0000_0000int
}

proof fn lemma_low_bits(x: i64)
    ensures
        (x as u32) as int == mod32(x as int),
{
    assert((x as u32) as int == (x as int) % 0x1_0000_0000int) by (bit_vector);
}

/// The low 32 bits of a stored reading, read as a TCP sequence number.
pub fn low32(x: i64) -> (r: u32)
    ensures
        r as int == mod32(x as int),
{
    proof {
        lemma_low_bits(x);
    }
    x as u32
}

/// Number of positions two series are walked together (the shorter length).
pub open spec fn min_len(a: int, b: int) -> int {
    if a <= b {
        a
    } else {
        b
    }
}

fn min_usize(a: usize, b: usize) -> (r: usize)
    ensures
        r as int == min_len(a as int, b as int),
{
    if a <= b {
        a
    } else {
        b
    }
}

// ---------------------------------------------------------------------------
// Bytes in flight: SND_NXT - SND_UNA in sequence space.

/// Result of the bytes-in-flight analysis over the first `n` sample pairs.
pub open spec fn bytes_in_flight_upto<T>(
    nxt: Seq<(T, Option<i64>)>,
    una: Seq<(T, Option<i64>)>,
    n: int,
) -> Seq<(T, i64)>
    decreases n,
{
    if n <= 0 {
        Seq::empty()
    } else {
        let prev = bytes_in_flight_upto(nxt, una, n - 1);
        match (nxt[n - 1].1, una[n - 1].1) {
            (Some(a), Some(b)) => prev.push((nxt[n - 1].0, mod32(a - b) as i64)),
            _ => prev,
        }
    }
}

/// BYTES_IN_FLIGHT = SND_NXT - SND_UNA, wrapped to 32-bit sequence space, for
/// every position where both series carry a number; the timestamp is SND_NXT's.
pub fn bytes_in_flight<T: Copy>(snd_nxt: &[(T, Option<i64>)], snd_una: &[(T, Option<i64>)]) -> (out:
    Vec<(T, i64)>)
    ensures
        out@ == bytes_in_flight_upto(
            snd_nxt@,
            snd_una@,
            min_len(snd_nxt@.len() as int, snd_una@.len() as int),
        ),
{
    let n = min_usize(snd_nxt.len(), snd_una.len());
    let mut out: Vec<(T, i64)> = Vec::new();
    let mut i: usize = 0;
    while i < n
        invariant
            n as int == min_len(snd_nxt@.len() as int, snd_una@.len() as int),
            i <= n,
            out@ == bytes_in_flight_upto(snd_nxt@, snd_una@, i as int),
        decreases n - i,
    {
        let (t, a) = snd_nxt[i];
        let (_, b) = snd_una[i];
        match (a, b) {
            (Some(x), Some(y)) => {
                let d = low32(x).wrapping_sub(low32(y));
                proof {
                    vstd::arithmetic::div_mod::lemma_sub_mod_noop(
                        x as int,
                        y as int,
                        0x1_0000_0000int,
                    );
                }
                out.push((t, d as i64));
            },
            _ => {},
        }
        i = i + 1;
    }
    out
}

// ---------------------------------------------------------------------------
// Usable send window: SND_UNA + SND_WND - SND_NXT in sequence space.

/// Result of the usable-send-window analysis over the first `n` sample triples.
pub open spec fn usable_send_window_upto<T>(
    una: Seq<(T, Option<i64>)>,
    wnd: Seq<(T, Option<i64>)>,
    nxt: Seq<(T, Option<i64>)>,
    n: int,
) -> Seq<(T, i64)>
    decreases n,
{
    if n <= 0 {
        Seq::empty()
    } else {
        let prev = usable_send_window_upto(una, wnd, nxt, n - 1);
        match (una[n - 1].1, wnd[n - 1].1, nxt[n - 1].1) {
            (Some(u), Some(w), Some(x)) => prev.push((una[n - 1].0, (mod32(w as int) - mod32(x - u)) as i64)),
            _ => prev,
        }
    }
}

/// USABLE_SND_WND = SND_UNA + SND_WND - SND_NXT wherever all three series carry
/// a number, computed as SND_WND minus the bytes in flight (SND_NXT - SND_UNA
/// in 32-bit sequence space, so wraparound is handled): it is negative exactly
/// when more bytes are in flight than the window allows. The timestamp is
/// SND_UNA's.
pub fn usable_send_window<T: Copy>(
    snd_una: &[(T, Option<i64>)],
    snd_wnd: &[(T, Option<i64>)],
    snd_nxt: &[(T, Option<i64>)],
) -> (out: Vec<(T, i64)>)
    ensures
        out@ == usable_send_window_upto(
            snd_una@,
            snd_wnd@,
            snd_nxt@,
            min_len(min_len(snd_una@.len() as int, snd_wnd@.len() as int), snd_nxt@.len() as int),
        ),
{
    let n = min_usize(min_usize(snd_una.len(), snd_wnd.len()), snd_nxt.len());
    let mut out: Vec<(T, i64)> = Vec::new();
    let mut i: usize = 0;
    while i < n
        invariant
            n as int == min_len(
                min_len(snd_una@.len() as int, snd_wnd@.len() as int),
                snd_nxt@.len() as int,
            ),
            i <= n,
            out@ == usable_send_window_upto(snd_una@, snd_wnd@, snd_nxt@, i as int),
        decreases n - i,
    {
        let (t, u) = snd_una[i];
        let (_, w) = snd_wnd[i];
        let (_, x) = snd_nxt[i];
        match (u, w, x) {
            (Some(u), Some(w), Some(x)) => {
                let flight = low32(x).wrapping_sub(low32(u));
                proof {
                    vstd::arithmetic::div_mod::lemma_sub_mod_noop(
                        x as int,
                        u as int,
                        0x1_0000_0000int,
                    );
                }
                let usable = low32(w) as i64 - flight as i64;
                out.push((t, usable));
            },
            _ => {},
        }
        i = i + 1;
    }
    out
}


// ---------------------------------------------------------------------------
// Duplicate ACK detection.

/// State of the duplicate-ACK scan after the first `n` sample triples:
/// the last pure ACK seen as (ack, seq), the current run length of repeats,
/// the timestamps of duplicate ACKs, and the per-sample duplicate counts.
pub open spec fn dup_ack_scan<T>(
    ack: Seq<(T, Option<i64>)>,
    seq: Seq<(T, Option<i64>)>,
    flags: Seq<(T, Option<i64>)>,
    n: int,
) -> (Option<(i64, i64)>, i64, Seq<T>, Seq<(T, i64)>)
    decreases n,
{
    if n <= 0 {
        (None, 0i64, Seq::empty(), Seq::empty())
    } else {
        let prev = dup_ack_scan(ack, seq, flags, n - 1);
        let t = ack[n - 1].0;
        match (ack[n - 1].1, seq[n - 1].1, flags[n - 1].1) {
            (Some(a), Some(s), Some(f)) => if !spec_is_pure_ack(f) {
                (prev.0, prev.1, prev.2, prev.3.push((t, 0i64)))
            } else if prev.0 == Some((a, s)) {
                let c = (prev.1 + 1) as i64;
                (prev.0, c, prev.2.push(t), prev.3.push((t, c)))
            } else {
                (Some((a, s)), 0i64, prev.2, prev.3.push((t, 0i64)))
            },
            _ => prev,
        }
    }
}

proof fn lemma_dup_ack_count_bound<T>(
    ack: Seq<(T, Option<i64>)>,
    seq: Seq<(T, Option<i64>)>,
    flags: Seq<(T, Option<i64>)>,
    n: int,
)
    requires
        0 <= n < i64::MAX,
    ensures
        0 <= dup_ack_scan(ack, seq, flags, n).1 <= n,
    decreases n,
{
    if n > 0 {
        lemma_dup_ack_count_bound(ack, seq, flags, n - 1);
    }
}

/// Marks repeated pure ACKs carrying the same ACK and SEQ numbers. Returns the
/// timestamps of the duplicates (DUP_ACK) and, for every complete sample, the
/// number of repeats in the current run (DUP_ACK_COUNT; 0 for non-pure ACKs).
pub fn duplicate_acks<T: Copy>(
    ack_num: &[(T, Option<i64>)],
    seq_num: &[(T, Option<i64>)],
    flags: &[(T, Option<i64>)],
) -> (out: (Vec<T>, Vec<(T, i64)>))
    requires
        ack_num@.len() < i64::MAX,
    ensures
        ({
            let s = dup_ack_scan(
                ack_num@,
                seq_num@,
                flags@,
                min_len(min_len(ack_num@.len() as int, seq_num@.len() as int), flags@.len() as int),
            );
            out.0@ == s.2 && out.1@ == s.3
        }),
{
    let n = min_usize(min_usize(ack_num.len(), seq_num.len()), flags.len());
    let mut last: Option<(i64, i64)> = None;
    let mut count: i64 = 0;
    let mut dup_ack: Vec<T> = Vec::new();
    let mut dup_count: Vec<(T, i64)> = Vec::new();
    let mut i: usize = 0;
    while i < n
        invariant
            n as int == min_len(
                min_len(ack_num@.len() as int, seq_num@.len() as int),
                flags@.len() as int,
            ),
            n <= ack_num@.len() < i64::MAX,
            i <= n,
            (last, count, dup_ack@, dup_count@) == dup_ack_scan(
                ack_num@,
                seq_num@,
                flags@,
                i as int,
            ),
        decreases n - i,
    {
        proof {
            lemma_dup_ack_count_bound(ack_num@, seq_num@, flags@, i as int);
        }
        let (t, a) = ack_num[i];
        let (_, s) = seq_num[i];
        let (_, f) = flags[i];
        match (a, s, f) {
            (Some(a), Some(s), Some(f)) => {
                if !is_pure_ack(f) {
                    dup_count.push((t, 0));
                } else {
                    let is_dup = match last {
                        Some((la, ls)) => la == a && ls == s,
                        None => false,
                    };
                    if is_dup {
                        count = count + 1;
                        dup_ack.push(t);
                    } else {
                        last = Some((a, s));
                        count = 0;
                    }
                    dup_count.push((t, count));
                }
            },
            _ => {},
        }
        i = i + 1;
    }
    (dup_ack, dup_count)
}

// ---------------------------------------------------------------------------
// Retransmission detection.

/// The sequence-number high-water mark after taking in `s`.
pub open spec fn raise_high_water(high: Option<u32>, s: u32) -> u32 {
    match high {
        None => s,
        Some(m) => if spec_seq_before(m, s) {
            s
        } else {
            m
        },
    }
}

/// State of the retransmission scan after the first `n` samples: the highest
/// sequence number seen so far and the timestamps of retransmission events.
pub open spec fn retransmission_scan<T>(seq: Seq<(T, Option<i64>)>, n: int) -> (Option<u32>, Seq<T>)
    decreases n,
{
    if n <= 0 {
        (None, Seq::empty())
    } else {
        let prev = retransmission_scan(seq, n - 1);
        match seq[n - 1].1 {
            Some(v) => {
                let s = mod32(v as int) as u32;
                let event = match prev.0 {
                    Some(m) => spec_seq_before(s, m),
                    None => false,
                };
                (
                    Some(raise_high_water(prev.0, s)),
                    if event {
                        prev.1.push(seq[n - 1].0)
                    } else {
                        prev.1
                    },
                )
            },
            None => prev,
        }
    }
}

/// Marks every sample whose sequence number lies before the high-water mark of
/// all earlier samples (RETRANSMISSION events), with 32-bit wraparound.
pub fn retransmissions<T: Copy>(seq_num: &[(T, Option<i64>)]) -> (out: Vec<T>)
    ensures
        out@ == retransmission_scan(seq_num@, seq_num@.len() as int).1,
{
    let mut high: Option<u32> = None;
    let mut out: Vec<T> = Vec::new();
    let mut i: usize = 0;
    while i < seq_num.len()
        invariant
            i <= seq_num@.len(),
            (high, out@) == retransmission_scan(seq_num@, i as int),
        decreases seq_num@.len() - i,
    {
        let (t, v) = seq_num[i];
        match v {
            Some(v) => {
                let s = low32(v);
                let event = match high {
                    Some(m) => tcp_seq_before(s, m),
                    None => false,
                };
                let new_high = match high {
                    None => s,
                    Some(m) => if tcp_seq_before(m, s) {
                        s
                    } else {
                        m
                    },
                };
                high = Some(new_high);
                if event {
                    out.push(t);
                }
            },
            None => {},
        }
        i = i + 1;
    }
    out
}

// ---------------------------------------------------------------------------
// Loss episodes.

/// State of the loss-episode scan after the first `n` samples: the last
/// total_retrans reading, the current episode id, and the labelled samples.
pub open spec fn loss_episode_scan<T>(total: Seq<(T, Option<i64>)>, n: int) -> (Option<i64>, i64, Seq<(T, i64)>)
    decreases n,
{
    if n <= 0 {
        (None, 0i64, Seq::empty())
    } else {
        let prev = loss_episode_scan(total, n - 1);
        match total[n - 1].1 {
            Some(v) => {
                let id = match prev.0 {
                    Some(last) => if v > last {
                        (prev.1 + 1) as i64
                    } else {
                        prev.1
                    },
                    None => prev.1,
                };
                (Some(v), id, prev.2.push((total[n - 1].0, id)))
            },
            None => prev,
        }
    }
}

proof fn lemma_loss_episode_bound<T>(total: Seq<(T, Option<i64>)>, n: int)
    requires
        0 <= n < i64::MAX,
    ensures
        0 <= loss_episode_scan(total, n).1 <= n,
    decreases n,
{
    if n > 0 {
        lemma_loss_episode_bound(total, n - 1);
    }
}

/// Labels every numeric sample with a LOSS_EPISODE_ID that starts at 0 and
/// grows by one whenever total_retrans increases over the previous reading.
pub fn loss_episodes<T: Copy>(total_retrans: &[(T, Option<i64>)]) -> (out: Vec<(T, i64)>)
    requires
        total_retrans@.len() < i64::MAX,
    ensures
        out@ == loss_episode_scan(total_retrans@, total_retrans@.len() as int).2,
{
    let mut last: Option<i64> = None;
    let mut id: i64 = 0;
    let mut out: Vec<(T, i64)> = Vec::new();
    let mut i: usize = 0;
    while i < total_retrans.len()
        invariant
            i <= total_retrans@.len() < i64::MAX,
            (last, id, out@) == loss_episode_scan(total_retrans@, i as int),
        decreases total_retrans@.len() - i,
    {
        proof {
            lemma_loss_episode_bound(total_retrans@, i as int);
        }
        let (t, v) = total_retrans[i];
        match v {
            Some(v) => {
                match last {
                    Some(l) => {
                        if v > l {
                            id = id + 1;
                        }
                    },
                    None => {},
                }
                last = Some(v);
                out.push((t, id));
            },
            None => {},
        }
        i = i + 1;
    }
    out
}


// ---------------------------------------------------------------------------
// Sender limitation.

/// Sender-limitation code: 2 when the receive window is exhausted, otherwise 1
/// when the congestion window is (nearly) full, otherwise 0.
pub open spec fn spec_limitation_code(rwnd_exhausted: bool, cwnd_full: bool) -> i64 {
    if rwnd_exhausted {
        2
    } else if cwnd_full {
        1
    } else {
        0
    }
}

/// Classifies one sample: `rwnd_exhausted` tells whether the usable receive
/// window is at most one MSS, `cwnd_full` whether the congestion window is at
/// least 95% used.
pub fn limitation_code(rwnd_exhausted: bool, cwnd_full: bool) -> (r: i64)
    ensures
        r == spec_limitation_code(rwnd_exhausted, cwnd_full),
{
    if rwnd_exhausted {
        2
    } else if cwnd_full {
        1
    } else {
        0
    }
}

/// Text shown for a sender-limitation code.
pub open spec fn spec_limitation_label(limit: i64) -> Seq<char> {
    if limit == 1 {
        "cwnd-limited"@
    } else if limit == 2 {
        "rwnd-limited"@
    } else {
        "not-full"@
    }
}

/// Text shown for a sender-limitation code.
pub fn sender_limitation_label(limit: i64) -> (r: String)
    ensures
        r@ == spec_limitation_label(limit),
{
    if limit == 1 {
        String::from_str("cwnd-limited")
    } else if limit == 2 {
        String::from_str("rwnd-limited")
    } else {
        String::from_str("not-full")
    }
}

/// The samples at which the limitation code differs from the previous one
/// (the first sample always counts), over the first `n` samples.
pub open spec fn limitation_changes<T>(limits: Seq<(T, i64)>, n: int) -> (Option<i64>, Seq<(T, i64)>)
    decreases n,
{
    if n <= 0 {
        (None, Seq::empty())
    } else {
        let prev = limitation_changes(limits, n - 1);
        if prev.0 == Some(limits[n - 1].1) {
            prev
        } else {
            (Some(limits[n - 1].1), prev.1.push(limits[n - 1]))
        }
    }
}

/// Emits a SENDER_LIMITATION_LABEL sample wherever the limitation code changes.
pub fn limitation_labels<T: Copy>(limits: &[(T, i64)]) -> (out: Vec<(T, String)>)
    ensures
        ({
            let ch = limitation_changes(limits@, limits@.len() as int).1;
            &&& out@.len() == ch.len()
            &&& forall|k: int|
                0 <= k < ch.len() ==> #[trigger] out@[k].0 == ch[k].0 && out@[k].1@
                    == spec_limitation_label(ch[k].1)
        }),
{
    let mut last: Option<i64> = None;
    let mut out: Vec<(T, String)> = Vec::new();
    let mut i: usize = 0;
    while i < limits.len()
        invariant
            i <= limits@.len(),
            last == limitation_changes(limits@, i as int).0,
            out@.len() == limitation_changes(limits@, i as int).1.len(),
            forall|k: int|
                0 <= k < out@.len() ==> #[trigger] out@[k].0 == limitation_changes(
                    limits@,
                    i as int,
                ).1[k].0 && out@[k].1@ == spec_limitation_label(
                    limitation_changes(limits@, i as int).1[k].1,
                ),
        decreases limits@.len() - i,
    {
        let (t, code) = limits[i];
        let same = match last {
            Some(l) => l == code,
            None => false,
        };
        let ghost prev = limitation_changes(limits@, i as int);
        if !same {
            let ghost before = out@;
            let label = sender_limitation_label(code);
            assert(t == limits@[i as int].0 && code == limits@[i as int].1);
            out.push((t, label));
            last = Some(code);
            proof {
                let next = limitation_changes(limits@, i + 1);
                assert(next.1 == prev.1.push(limits@[i as int]));
                assert(out@[before.len() as int].0 == next.1[before.len() as int].0);
                assert(out@[before.len() as int].1@ == spec_limitation_label(next.1[before.len() as int].1));
                assert forall|k: int| 0 <= k < out@.len() implies #[trigger] out@[k].0 == next.1[k].0
                    && out@[k].1@ == spec_limitation_label(next.1[k].1) by {
                    if k < before.len() {
                        assert(out@[k] == before[k]);
                        assert(next.1[k] == prev.1[k]);
                    }
                }
            }
        } else {
            assert(limitation_changes(limits@, i + 1) == prev);
        }
        i = i + 1;
    }
    out
}

// ---------------------------------------------------------------------------
// Upper window edge: SND_UNA + SND_WND.

/// Pairwise sums of the integer samples over the first `n` positions; positions
/// where either sample is not an integer are skipped.
pub open spec fn upper_window_upto<T>(
    una: Seq<(T, Option<i64>)>,
    wnd: Seq<(T, Option<i64>)>,
    n: int,
) -> Seq<(T, int)>
    decreases n,
{
    if n <= 0 {
        Seq::empty()
    } else {
        let prev = upper_window_upto(una, wnd, n - 1);
        match (una[n - 1].1, wnd[n - 1].1) {
            (Some(a), Some(b)) => prev.push((una[n - 1].0, a + b)),
            _ => prev,
        }
    }
}

/// Every pairwise sum of integer samples fits in an `i64`.
pub open spec fn upper_window_sums_fit<T>(una: Seq<(T, Option<i64>)>, wnd: Seq<(T, Option<i64>)>) -> bool {
    forall|i: int|
        0 <= i < min_len(una.len() as int, wnd.len() as int) ==> match (
            #[trigger] una[i].1,
            wnd[i].1,
        ) {
            (Some(a), Some(b)) => i64::MIN <= a + b <= i64::MAX,
            _ => true,
        }
}

/// UPPER_WND = SND_UNA + SND_WND for integer series: the sum at every position
/// where both samples are integers, stamped with SND_UNA's timestamp.
pub fn upper_window_int<T: Copy>(snd_una: &[(T, Option<i64>)], snd_wnd: &[(T, Option<i64>)]) -> (out:
    Vec<(T, i64)>)
    requires
        upper_window_sums_fit(snd_una@, snd_wnd@),
    ensures
        ({
            let s = upper_window_upto(
                snd_una@,
                snd_wnd@,
                min_len(snd_una@.len() as int, snd_wnd@.len() as int),
            );
            &&& out@.len() == s.len()
            &&& forall|k: int|
                0 <= k < s.len() ==> #[trigger] out@[k].0 == s[k].0 && out@[k].1 == s[k].1
        }),
{
    let n = min_usize(snd_una.len(), snd_wnd.len());
    let mut out: Vec<(T, i64)> = Vec::new();
    let mut i: usize = 0;
    while i < n
        invariant
            n as int == min_len(snd_una@.len() as int, snd_wnd@.len() as int),
            i <= n,
            upper_window_sums_fit(snd_una@, snd_wnd@),
            out@.len() == upper_window_upto(snd_una@, snd_wnd@, i as int).len(),
            forall|k: int|
                0 <= k < out@.len() ==> #[trigger] out@[k].0 == upper_window_upto(
                    snd_una@,
                    snd_wnd@,
                    i as int,
                )[k].0 && out@[k].1 == upper_window_upto(snd_una@, snd_wnd@, i as int)[k].1,
        decreases n - i,
    {
        let (t, a) = snd_una[i];
        let (_, b) = snd_wnd[i];
        let ghost prev = upper_window_upto(snd_una@, snd_wnd@, i as int);
        match (a, b) {
            (Some(x), Some(y)) => {
                assert(match (snd_una@[i as int].1, snd_wnd@[i as int].1) {
                    (Some(a), Some(b)) => i64::MIN <= a + b <= i64::MAX,
                    _ => true,
                });
                out.push((t, x + y));
                assert(upper_window_upto(snd_una@, snd_wnd@, i + 1) == prev.push((t, x + y)));
            },
            _ => {
                assert(upper_window_upto(snd_una@, snd_wnd@, i + 1) == prev);
            },
        }
        i = i + 1;
    }
    out
}


// ---------------------------------------------------------------------------
// Laws.

/// Loss-episode ids start at 0, never decrease, and grow by at most one from
/// one labelled sample to the next.
pub proof fn law_loss_episode_ids_step<T>(total: Seq<(T, Option<i64>)>, n: int)
    requires
        0 <= n <= total.len(),
        n < i64::MAX,
    ensures
        ({
            let out = loss_episode_scan(total, n).2;
            &&& forall|k: int|
                0 < k < out.len() ==> out[k - 1].1 <= #[trigger] out[k].1 <= out[k - 1].1 + 1
            &&& forall|k: int| 0 <= k < out.len() ==> 0 <= #[trigger] out[k].1 <= loss_episode_scan(total, n).1
            &&& out.len() > 0 ==> out[out.len() - 1].1 == loss_episode_scan(total, n).1
        }),
    decreases n,
{
    if n > 0 {
        law_loss_episode_ids_step(total, n - 1);
        lemma_loss_episode_bound(total, n - 1);
        let prev = loss_episode_scan(total, n - 1);
        let cur = loss_episode_scan(total, n);
        if let Some(v) = total[n - 1].1 {
            assert(cur.2 == prev.2.push((total[n - 1].0, cur.1)));
            assert forall|k: int| 0 < k < cur.2.len() implies cur.2[k - 1].1 <= #[trigger] cur.2[k].1
                <= cur.2[k - 1].1 + 1 by {
                if k < cur.2.len() - 1 {
                    assert(cur.2[k] == prev.2[k]);
                    assert(cur.2[k - 1] == prev.2[k - 1]);
                }
            }
        }
    }
}

/// The first labelled sample always opens episode 0.
pub proof fn law_loss_episode_starts_at_zero<T>(total: Seq<(T, Option<i64>)>, n: int)
    requires
        0 <= n <= total.len(),
    ensures
        loss_episode_scan(total, n).2.len() > 0 ==> loss_episode_scan(total, n).2[0].1 == 0,
        loss_episode_scan(total, n).0 is None ==> loss_episode_scan(total, n).1 == 0,
        loss_episode_scan(total, n).0 is None <==> loss_episode_scan(total, n).2.len() == 0,
    decreases n,
{
    if n > 0 {
        law_loss_episode_starts_at_zero(total, n - 1);
        let prev = loss_episode_scan(total, n - 1);
        if let Some(v) = total[n - 1].1 {
            if prev.2.len() > 0 {
                assert(loss_episode_scan(total, n).2[0] == prev.2[0]);
            }
        }
    }
}

/// The number of duplicate-ACK events equals the number of samples whose
/// duplicate count is positive.
pub open spec fn positive_counts<T>(counts: Seq<(T, i64)>) -> int
    decreases counts.len(),
{
    if counts.len() == 0 {
        0
    } else {
        positive_counts(counts.drop_last()) + if counts.last().1 > 0 {
            1int
        } else {
            0int
        }
    }
}

/// Every DUP_ACK event comes with exactly one positive DUP_ACK_COUNT sample,
/// and the other samples count 0.
pub proof fn law_dup_ack_events_match_counts<T>(
    ack: Seq<(T, Option<i64>)>,
    seq: Seq<(T, Option<i64>)>,
    flags: Seq<(T, Option<i64>)>,
    n: int,
)
    requires
        0 <= n <= min_len(min_len(ack.len() as int, seq.len() as int), flags.len() as int),
        n < i64::MAX,
    ensures
        dup_ack_scan(ack, seq, flags, n).2.len() == positive_counts(dup_ack_scan(ack, seq, flags, n).3),
    decreases n,
{
    if n > 0 {
        law_dup_ack_events_match_counts(ack, seq, flags, n - 1);
        lemma_dup_ack_count_bound(ack, seq, flags, n - 1);
        let prev = dup_ack_scan(ack, seq, flags, n - 1);
        let cur = dup_ack_scan(ack, seq, flags, n);
        if cur.3.len() > prev.3.len() {
            assert(cur.3.drop_last() == prev.3);
        }
    }
}

/// USABLE_SND_WND is exactly SND_UNA + SND_WND - SND_NXT for readings of
/// 32-bit sequence numbers and window whenever SND_NXT has not wrapped past
/// SND_UNA (SND_UNA <= SND_NXT).
pub proof fn law_usable_window_exact(u: i64, w: i64, x: i64)
    requires
        0 <= u <= x < 0x1_0000_0000int,
        0 <= w < 0x1_0000_0000int,
    ensures
        mod32(w as int) - mod32(x - u) == u + w - x,
{
    vstd::arithmetic::div_mod::lemma_small_mod(w as nat, 0x1_0000_0000nat);
    vstd::arithmetic::div_mod::lemma_small_mod((x - u) as nat, 0x1_0000_0000nat);
}

/// USABLE_SND_WND agrees with SND_UNA + SND_WND - SND_NXT taken in 32-bit
/// sequence space: always modulo 2^32, and exactly whenever the window is not
/// overrun (the usable window is not negative).
pub proof fn law_usable_window_in_sequence_space(u: i64, w: i64, x: i64)
    ensures
        mod32(mod32(w as int) - mod32(x - u)) == mod32(u + w - x),
        mod32(w as int) - mod32(x - u) >= 0 ==> mod32(w as int) - mod32(x - u) == mod32(u + w - x),
{
    vstd::arithmetic::div_mod::lemma_sub_mod_noop(w as int, x - u, 0x1_0000_0000int);
    vstd::arithmetic::div_mod::lemma_mod_twice(x - u, 0x1_0000_0000int);
    vstd::arithmetic::div_mod::lemma_mod_twice(w as int, 0x1_0000_0000int);
    vstd::arithmetic::div_mod::lemma_sub_mod_noop(mod32(w as int), mod32(x - u), 0x1_0000_0000int);
    vstd::arithmetic::div_mod::lemma_sub_mod_noop(w as int, mod32(x - u), 0x1_0000_0000int);
    let d = mod32(w as int) - mod32(x - u);
    if d >= 0 {
        vstd::arithmetic::div_mod::lemma_small_mod(d as nat, 0x1_0000_0000nat);
    }
}

/// Over whole series: when every sample of SND_UNA, SND_WND and SND_NXT
/// carries a number, the k-th USABLE_SND_WND sample is the k-th SND_WND reading
/// (as a 32-bit value) minus the k-th BYTES_IN_FLIGHT sample.
pub proof fn law_usable_window_series<T>(
    una: Seq<(T, Option<i64>)>,
    wnd: Seq<(T, Option<i64>)>,
    nxt: Seq<(T, Option<i64>)>,
    n: int,
)
    requires
        0 <= n <= una.len(),
        una.len() == wnd.len() == nxt.len(),
        forall|i: int| 0 <= i < una.len() ==> (#[trigger] una[i].1) is Some && wnd[i].1 is Some && nxt[i].1 is Some,
    ensures
        usable_send_window_upto(una, wnd, nxt, n).len() == n,
        bytes_in_flight_upto(nxt, una, n).len() == n,
        forall|k: int|
            0 <= k < n ==> (#[trigger] usable_send_window_upto(una, wnd, nxt, n)[k]).1 == mod32(
                wnd[k].1.unwrap() as int,
            ) - bytes_in_flight_upto(nxt, una, n)[k].1,
    decreases n,
{
    if n > 0 {
        law_usable_window_series(una, wnd, nxt, n - 1);
        let i = n - 1;
        assert(una[i].1 is Some && wnd[i].1 is Some && nxt[i].1 is Some);
        let u = una[i].1.unwrap();
        let w = wnd[i].1.unwrap();
        let x = nxt[i].1.unwrap();
        assert(0 <= mod32(x - u) < 0x1_0000_0000int);
        assert(0 <= mod32(w as int) < 0x1_0000_0000int);
        assert forall|k: int|
            0 <= k < n implies (#[trigger] usable_send_window_upto(una, wnd, nxt, n)[k]).1 == mod32(
            wnd[k].1.unwrap() as int,
        ) - bytes_in_flight_upto(nxt, una, n)[k].1 by {
            if k < n - 1 {
                assert(usable_send_window_upto(una, wnd, nxt, n)[k] == usable_send_window_upto(
                    una,
                    wnd,
                    nxt,
                    n - 1,
                )[k]);
                assert(bytes_in_flight_upto(nxt, una, n)[k] == bytes_in_flight_upto(nxt, una, n - 1)[k]);
            }
        }
    }
}

/// A series whose readings never decrease and stay below 2^31 (so that no
/// wraparound is involved) shows no retransmission.
pub proof fn law_no_retransmission_when_increasing<T>(seq: Seq<(T, Option<i64>)>, n: int)
    requires
        0 <= n <= seq.len(),
        forall|i: int|
            0 <= i < seq.len() ==> (#[trigger] seq[i].1 matches Some(v) ==> 0 <= v < 0x8000_0000),
        forall|i: int, j: int|
            0 <= i < j < seq.len() ==> (#[trigger] seq[i].1 matches Some(a) ==> (
            #[trigger] seq[j].1 matches Some(b) ==> a <= b)),
    ensures
        retransmission_scan(seq, n).1.len() == 0,
        (retransmission_scan(seq, n).0 matches Some(m) ==> exists|i: int|
            0 <= i < n && seq[i].1 == Some(m as i64)),
    decreases n,
{
    if n > 0 {
        law_no_retransmission_when_increasing(seq, n - 1);
        let prev = retransmission_scan(seq, n - 1);
        if let Some(v) = seq[n - 1].1 {
            assert(0 <= v < 0x8000_0000);
            assert(mod32(v as int) == v) by {
                vstd::arithmetic::div_mod::lemma_small_mod(v as nat, 0x1_0000_0000nat);
            }
            if let Some(m) = prev.0 {
                let i = choose|i: int| 0 <= i < n - 1 && seq[i].1 == Some(m as i64);
                assert(seq[i].1 matches Some(a) ==> (seq[n - 1].1 matches Some(b) ==> a <= b));
                assert(0 <= m <= v);
                vstd::arithmetic::div_mod::lemma_small_mod((v - m) as nat, 0x1_0000_0000nat);
                assert(!spec_seq_before(v as u32, m));
                if spec_seq_before(m, v as u32) {
                    assert(seq[n - 1].1 == Some((v as u32) as i64));
                } else {
                    assert(seq[i].1 == Some(m as i64));
                }
            } else {
                assert(seq[n - 1].1 == Some((v as u32) as i64));
            }
        }
    }
}

// ---------------------------------------------------------------------------
// What the detectors are for.

/// The largest reading among the first `n` samples, if any sample carries one.
pub open spec fn reading_max<T>(seq: Seq<(T, Option<i64>)>, n: int) -> Option<int>
    decreases n,
{
    if n <= 0 {
        None
    } else {
        match (reading_max(seq, n - 1), seq[n - 1].1) {
            (Some(m), Some(v)) => Some(if v > m {
                v as int
            } else {
                m
            }),
            (None, Some(v)) => Some(v as int),
            (m, None) => m,
        }
    }
}

/// The timestamps, in order, of the samples among the first `n` whose reading
/// is smaller than some earlier reading.
pub open spec fn below_an_earlier_reading<T>(seq: Seq<(T, Option<i64>)>, n: int) -> Seq<T>
    decreases n,
{
    if n <= 0 {
        Seq::empty()
    } else {
        let prev = below_an_earlier_reading(seq, n - 1);
        match (seq[n - 1].1, reading_max(seq, n - 1)) {
            (Some(v), Some(m)) => if v < m {
                prev.push(seq[n - 1].0)
            } else {
                prev
            },
            _ => prev,
        }
    }
}

/// Between sequence numbers less than 2^31 apart from 0, sequence-space order
/// is numeric order.
proof fn lemma_seq_before_small(a: u32, b: u32)
    requires
        a < 0x8000_0000,
        b < 0x8000_0000,
    ensures
        spec_seq_before(a, b) <==> a < b,
{
    let d = a - b;
    if a < b {
        vstd::arithmetic::div_mod::lemma_mod_add_multiples_vanish(d, 0x1_0000_0000int);
        vstd::arithmetic::div_mod::lemma_small_mod((d + 0x1_0000_0000int) as nat, 0x1_0000_0000nat);
    } else {
        vstd::arithmetic::div_mod::lemma_small_mod(d as nat, 0x1_0000_0000nat);
    }
}

/// While sequence numbers stay below 2^31 (no wraparound), a sample is a
/// retransmission exactly when its sequence number is below the highest one
/// seen before it, and the high-water mark is that highest sequence number.
pub proof fn law_retransmission_is_below_earlier_maximum<T>(seq: Seq<(T, Option<i64>)>, n: int)
    requires
        0 <= n <= seq.len(),
        forall|i: int|
            0 <= i < seq.len() ==> (#[trigger] seq[i].1 matches Some(v) ==> 0 <= v < 0x8000_0000),
    ensures
        retransmission_scan(seq, n).1 == below_an_earlier_reading(seq, n),
        match (retransmission_scan(seq, n).0, reading_max(seq, n)) {
            (Some(h), Some(m)) => h as int == m && 0 <= m < 0x8000_0000,
            (None, None) => true,
            _ => false,
        },
    decreases n,
{
    if n > 0 {
        law_retransmission_is_below_earlier_maximum(seq, n - 1);
        if let Some(v) = seq[n - 1].1 {
            assert(0 <= v < 0x8000_0000);
            vstd::arithmetic::div_mod::lemma_small_mod(v as nat, 0x1_0000_0000nat);
            let s = mod32(v as int) as u32;
            assert(s as int == v);
            if let Some(h) = retransmission_scan(seq, n - 1).0 {
                lemma_seq_before_small(s, h);
                lemma_seq_before_small(h, s);
            }
        }
    }
}

/// The high-water mark only moves forward: after a sample it is either the
/// mark it had or the sample's sequence number, and it moves only to a
/// sequence number that lies after the old mark. The sample is a
/// retransmission exactly when its sequence number lies before the old mark.
pub proof fn law_high_water_never_retreats<T>(seq: Seq<(T, Option<i64>)>, n: int)
    requires
        0 <= n < seq.len(),
    ensures
        match (seq[n].1, retransmission_scan(seq, n).0) {
            (Some(v), Some(m)) => {
                let s = mod32(v as int) as u32;
                &&& retransmission_scan(seq, n + 1).0 == Some(m) || (retransmission_scan(
                    seq,
                    n + 1,
                ).0 == Some(s) && spec_seq_before(m, s))
                &&& (retransmission_scan(seq, n + 1).1.len() == retransmission_scan(seq, n).1.len()
                    + 1 <==> spec_seq_before(s, m))
            },
            (Some(v), None) => retransmission_scan(seq, n + 1).0 == Some(mod32(v as int) as u32)
                && retransmission_scan(seq, n + 1).1 == retransmission_scan(seq, n).1,
            (None, _) => retransmission_scan(seq, n + 1) == retransmission_scan(seq, n),
        },
{
}

/// The last complete pure ACK among the first `n` samples, as (ACK, SEQ).
pub open spec fn last_pure_ack<T>(
    ack: Seq<(T, Option<i64>)>,
    seq: Seq<(T, Option<i64>)>,
    flags: Seq<(T, Option<i64>)>,
    n: int,
) -> Option<(i64, i64)>
    decreases n,
{
    if n <= 0 {
        None
    } else {
        match (ack[n - 1].1, seq[n - 1].1, flags[n - 1].1) {
            (Some(a), Some(s), Some(f)) => if spec_is_pure_ack(f) {
                Some((a, s))
            } else {
                last_pure_ack(ack, seq, flags, n - 1)
            },
            _ => last_pure_ack(ack, seq, flags, n - 1),
        }
    }
}

proof fn lemma_scan_remembers_last_pure_ack<T>(
    ack: Seq<(T, Option<i64>)>,
    seq: Seq<(T, Option<i64>)>,
    flags: Seq<(T, Option<i64>)>,
    n: int,
)
    requires
        0 <= n,
    ensures
        dup_ack_scan(ack, seq, flags, n).0 == last_pure_ack(ack, seq, flags, n),
    decreases n,
{
    if n > 0 {
        lemma_scan_remembers_last_pure_ack(ack, seq, flags, n - 1);
    }
}

/// A pure ACK is a duplicate exactly when both its ACK and its SEQ number equal
/// those of the last pure ACK before it: then it adds one DUP_ACK event and a
/// positive count; otherwise (a different ACK or SEQ number, or no earlier pure
/// ACK) its count is 0 and no event is added. Samples that are not pure ACKs
/// count 0 and add no event.
pub proof fn law_duplicate_needs_same_ack_and_seq<T>(
    ack: Seq<(T, Option<i64>)>,
    seq: Seq<(T, Option<i64>)>,
    flags: Seq<(T, Option<i64>)>,
    n: int,
)
    requires
        0 <= n < min_len(min_len(ack.len() as int, seq.len() as int), flags.len() as int),
        n + 1 < i64::MAX,
    ensures
        ({
            let before = dup_ack_scan(ack, seq, flags, n);
            let after = dup_ack_scan(ack, seq, flags, n + 1);
            match (ack[n].1, seq[n].1, flags[n].1) {
                (Some(a), Some(s), Some(f)) => {
                    &&& after.3.len() == before.3.len() + 1
                    &&& after.3.last().0 == ack[n].0
                    &&& (spec_is_pure_ack(f) && last_pure_ack(ack, seq, flags, n) == Some((a, s)))
                        ==> after.3.last().1 > 0 && after.2 == before.2.push(ack[n].0)
                    &&& !(spec_is_pure_ack(f) && last_pure_ack(ack, seq, flags, n) == Some((a, s)))
                        ==> after.3.last().1 == 0 && after.2 == before.2
                },
                _ => after == before,
            }
        }),
{
    lemma_scan_remembers_last_pure_ack(ack, seq, flags, n);
    lemma_dup_ack_count_bound(ack, seq, flags, n);
}

/// The (ACK, SEQ) pairs of the complete pure ACKs among the first `n` samples.
pub open spec fn pure_ack_pairs<T>(
    ack: Seq<(T, Option<i64>)>,
    seq: Seq<(T, Option<i64>)>,
    flags: Seq<(T, Option<i64>)>,
    n: int,
) -> Seq<(i64, i64)>
    decreases n,
{
    if n <= 0 {
        Seq::empty()
    } else {
        let prev = pure_ack_pairs(ack, seq, flags, n - 1);
        match (ack[n - 1].1, seq[n - 1].1, flags[n - 1].1) {
            (Some(a), Some(s), Some(f)) => if spec_is_pure_ack(f) {
                prev.push((a, s))
            } else {
                prev
            },
            _ => prev,
        }
    }
}

/// How many equal pairs end the sequence (0 for an empty one).
pub open spec fn trailing_run(p: Seq<(i64, i64)>) -> int
    decreases p.len(),
{
    if p.len() == 0 {
        0
    } else if p.len() >= 2 && p[p.len() - 2] == p.last() {
        trailing_run(p.drop_last()) + 1
    } else {
        1
    }
}

proof fn lemma_scan_counts_trailing_run<T>(
    ack: Seq<(T, Option<i64>)>,
    seq: Seq<(T, Option<i64>)>,
    flags: Seq<(T, Option<i64>)>,
    n: int,
)
    requires
        0 <= n < i64::MAX,
    ensures
        ({
            let p = pure_ack_pairs(ack, seq, flags, n);
            let sc = dup_ack_scan(ack, seq, flags, n);
            &&& p.len() == 0 ==> sc.0 is None && sc.1 == 0
            &&& p.len() > 0 ==> sc.0 == Some(p.last()) && sc.1 == trailing_run(p) - 1
        }),
    decreases n,
{
    if n > 0 {
        lemma_scan_counts_trailing_run(ack, seq, flags, n - 1);
        lemma_dup_ack_count_bound(ack, seq, flags, n - 1);
        let p = pure_ack_pairs(ack, seq, flags, n - 1);
        match (ack[n - 1].1, seq[n - 1].1, flags[n - 1].1) {
            (Some(a), Some(s), Some(f)) => {
                if spec_is_pure_ack(f) {
                    let q = p.push((a, s));
                    assert(q.drop_last() == p);
                    if p.len() > 0 {
                        assert(q[q.len() - 2] == p.last());
                    }
                }
            },
            _ => {},
        }
    }
}

/// DUP_ACK_COUNT of a pure ACK is the number of pure ACKs with the same ACK
/// and SEQ numbers directly before it (other samples in between do not break
/// the run): 0 for the first of a run, 1 for the first duplicate, and so on.
pub proof fn law_duplicate_count_is_run_length<T>(
    ack: Seq<(T, Option<i64>)>,
    seq: Seq<(T, Option<i64>)>,
    flags: Seq<(T, Option<i64>)>,
    n: int,
)
    requires
        0 <= n < min_len(min_len(ack.len() as int, seq.len() as int), flags.len() as int),
        n + 1 < i64::MAX,
    ensures
        match (ack[n].1, seq[n].1, flags[n].1) {
            (Some(a), Some(s), Some(f)) => spec_is_pure_ack(f) ==> dup_ack_scan(
                ack,
                seq,
                flags,
                n + 1,
            ).3.last().1 == trailing_run(pure_ack_pairs(ack, seq, flags, n + 1)) - 1,
            _ => true,
        },
{
    lemma_scan_counts_trailing_run(ack, seq, flags, n + 1);
}

/// An exhausted receive window makes the sender rwnd-limited whatever the
/// congestion window; otherwise a (nearly) full congestion window makes it
/// cwnd-limited, and else it is not limited. Each code has its own label.
pub proof fn law_limitation_classes(rwnd_exhausted: bool, cwnd_full: bool)
    ensures
        rwnd_exhausted ==> spec_limitation_code(rwnd_exhausted, cwnd_full) == 2,
        !rwnd_exhausted && cwnd_full ==> spec_limitation_code(rwnd_exhausted, cwnd_full) == 1,
        !rwnd_exhausted && !cwnd_full ==> spec_limitation_code(rwnd_exhausted, cwnd_full) == 0,
        spec_limitation_label(2) == "rwnd-limited"@,
        spec_limitation_label(1) == "cwnd-limited"@,
        spec_limitation_label(0) == "not-full"@,
{
}

} // verus!
