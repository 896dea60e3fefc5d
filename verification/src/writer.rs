//! Bookkeeping of the recorder's output writers: sizes of the memory-mapped
//! output files, how they grow, where records go, and which CPU each writer
//! thread is pinned to.
use vstd::prelude::*;

verus! {

#[verifier::external_type_specification]
#[verifier::external_body]
pub struct ExIoError(std::io::Error);

/// Errors of the writer threads.
#[derive(Debug)]
pub enum WriterError {
    Io(std::io::Error),
    WorkerPanicked,
}

/// Output files never grow by less than this many bytes.
pub const MIN_MMAP_GROWTH: usize = 65536;

/// The marker written after every record.
pub open spec fn record_delimiter() -> Seq<u8> {
    seq![0xffu8, 0xffu8, 0xffu8, 0xffu8]
}

/// The marker written after every record: four 0xFF bytes.
pub fn record_delimiter_bytes() -> (r: [u8; 4])
    ensures
        r@ == record_delimiter(),
{
    let r = [0xffu8; 4];
    assert(r@ =~= record_delimiter());
    r
}

/// Why a file cannot take more data.
#[derive(Clone, Copy, Debug, PartialEq, Eq, Structural)]
pub enum GrowError {
    /// The new size does not fit in the address space.
    Overflow,
}

impl GrowError {
    /// The message the error is reported with.
    pub fn message(&self) -> (r: &'static str)
        ensures
            r@ == "file size overflow"@,
    {
        "file size overflow"
    }
}

/// The growth step actually used.
pub open spec fn effective_growth(growth: usize) -> int {
    if growth >= MIN_MMAP_GROWTH {
        growth as int
    } else {
        MIN_MMAP_GROWTH as int
    }
}

/// What `required_capacity` gives: nothing to do for an empty write or one
/// that fits; otherwise the capacity grown by the fewest whole growth steps that
/// holds the data, or an overflow error when the data's end or that capacity
/// does not fit in the address space.
pub open spec fn spec_required_capacity(
    position: usize,
    capacity: usize,
    growth: usize,
    additional: usize,
) -> Result<Option<usize>, GrowError> {
    let required = position + additional;
    let g = effective_growth(growth);
    if additional == 0 {
        Ok(None)
    } else if required > usize::MAX {
        Err(GrowError::Overflow)
    } else if required <= capacity {
        Ok(None)
    } else {
        let least = capacity + g * ((required - capacity + g - 1) / g);
        if least <= usize::MAX {
            Ok(Some(least as usize))
        } else {
            Err(GrowError::Overflow)
        }
    }
}

/// When `k` whole steps of `g` fall short of `need`, the fewest steps that
/// reach it are more than `k`.
proof fn lemma_least_steps_above(need: int, g: int, k: int)
    requires
        g >= 1,
        k >= 0,
        need > g * k,
    ensures
        g * ((need + g - 1) / g) >= g * (k + 1),
{
    vstd::arithmetic::div_mod::lemma_fundamental_div_mod(need + g - 1, g);
    let q = (need + g - 1) / g;
    let r = (need + g - 1) % g;
    assert(q >= k + 1) by (nonlinear_arith)
        requires
            need + g - 1 == g * q + r,
            0 <= r < g,
            need > g * k,
            g >= 1,
    ;
    assert(g * q >= g * (k + 1)) by (nonlinear_arith)
        requires
            q >= k + 1,
            g >= 1,
    ;
}

/// The size of a memory-mapped output file and the end of the data written
/// into it.
pub struct FileCursor {
    pub position: usize,
    pub capacity: usize,
    pub growth: usize,
}

/// The file layout when an output file is opened: growth is at least
/// `MIN_MMAP_GROWTH`; the capacity is the existing length, or one growth step
/// for a shorter file; writing continues at the end of the existing data.
pub open spec fn spec_open_cursor(existing_len: usize, chunk_size: usize) -> FileCursor {
    let growth = if chunk_size >= MIN_MMAP_GROWTH {
        chunk_size
    } else {
        MIN_MMAP_GROWTH
    };
    FileCursor {
        position: existing_len,
        capacity: if existing_len >= growth {
            existing_len
        } else {
            growth
        },
        growth,
    }
}

impl FileCursor {
    /// The layout of an output file that already holds `existing_len` bytes;
    /// the file is then resized exactly when its length differs from the
    /// capacity.
    pub fn open(existing_len: usize, chunk_size: usize) -> (r: FileCursor)
        ensures
            r == spec_open_cursor(existing_len, chunk_size),
            r.position <= r.capacity,
            r.capacity > 0,
    {
        let growth = if chunk_size >= MIN_MMAP_GROWTH {
            chunk_size
        } else {
            MIN_MMAP_GROWTH
        };
        let capacity = if existing_len >= growth {
            existing_len
        } else {
            growth
        };
        FileCursor { position: existing_len, capacity, growth }
    }

    /// The capacity needed to append `additional` bytes: `None` when the file is
    /// large enough, otherwise the smallest capacity reached by whole growth
    /// steps that holds the data; an error when that size does not fit.
    pub fn required_capacity(&self, additional: usize) -> (r: Result<Option<usize>, GrowError>)
        ensures
            r == spec_required_capacity(self.position, self.capacity, self.growth, additional),
            r matches Ok(Some(c)) ==> c >= self.position + additional && c > self.capacity,
    {
        if additional == 0 {
            return Ok(None);
        }
        let required = match self.position.checked_add(additional) {
            Some(v) => v,
            None => {
                return Err(GrowError::Overflow);
            },
        };
        if required <= self.capacity {
            return Ok(None);
        }
        let growth = if self.growth >= MIN_MMAP_GROWTH {
            self.growth
        } else {
            MIN_MMAP_GROWTH
        };
        let ghost g = growth as int;
        let ghost need = required - self.capacity;
        let mut new_capacity = self.capacity;
        let ghost mut k: int = 0;
        assert(g * 0 == 0) by (nonlinear_arith);
        while required > new_capacity
            invariant
                g == growth as int,
                g == effective_growth(self.growth),
                growth >= MIN_MMAP_GROWTH,
                additional > 0,
                required == self.position + additional,
                required > self.capacity,
                need == required - self.capacity,
                k >= 0,
                new_capacity == self.capacity + g * k,
                k == 0 || g * (k - 1) < need,
            decreases usize::MAX - new_capacity,
        {
            proof {
                assert(g * (k + 1) == g * k + g) by (nonlinear_arith);
            }
            new_capacity = match new_capacity.checked_add(growth) {
                Some(v) => v,
                None => {
                    proof {
                        // The loop had not reached `required`, so even the least
                        // whole-step capacity lies beyond the address space.
                        lemma_least_steps_above(need, g, k);
                        assert(new_capacity + growth > usize::MAX);
                    }
                    return Err(GrowError::Overflow);
                },
            };
            proof {
                k = k + 1;
            }
        }
        proof {
            if k == 0 {
                assert(false);
            }
            assert((k - 1) * g == g * (k - 1) && k * g == g * k) by (nonlinear_arith);
            assert(g * (k - 1) >= 0) by (nonlinear_arith)
                requires
                    g >= 1,
                    k >= 1,
            ;
            crate::sampling::lemma_count_steps(need, g, k);
        }
        Ok(Some(new_capacity))
    }

    /// After the file was grown to `new_capacity` bytes.
    pub fn grown(&mut self, new_capacity: usize)
        requires
            new_capacity >= old(self).capacity,
        ensures
            final(self).position == old(self).position,
            final(self).growth == old(self).growth,
            final(self).capacity == new_capacity,
    {
        self.capacity = new_capacity;
    }

    /// Where the next `len` bytes go: the byte range they occupy, after which
    /// the data ends at the range's end. The file must be large enough.
    pub fn append(&mut self, len: usize) -> (r: (usize, usize))
        requires
            old(self).position + len <= old(self).capacity,
        ensures
            r.0 == old(self).position,
            r.1 == old(self).position + len,
            final(self).position == r.1,
            final(self).capacity == old(self).capacity,
            final(self).growth == old(self).growth,
    {
        let start = self.position;
        let end = start + len;
        self.position = end;
        (start, end)
    }
}

/// The size of the chunks an output file grows by: one entry size (at least 1
/// byte) times the writer's buffer length, or 128 buffer lengths when that
/// product does not fit; never less than the buffer length.
pub open spec fn spec_chunk_bytes(entry_size: usize, buffer_size: usize) -> int {
    let e = if entry_size >= 1 {
        entry_size as int
    } else {
        1
    };
    let c = if e * buffer_size <= usize::MAX {
        e * buffer_size
    } else {
        buffer_size * 128
    };
    if c >= buffer_size {
        c
    } else {
        buffer_size as int
    }
}

/// Chunk size of an output file for records of `entry_size` bytes.
pub fn chunk_bytes(entry_size: usize, buffer_size: usize) -> (r: usize)
    requires
        buffer_size * 128 <= usize::MAX,
    ensures
        r == spec_chunk_bytes(entry_size, buffer_size),
{
    let e = if entry_size >= 1 {
        entry_size
    } else {
        1
    };
    let c = match e.checked_mul(buffer_size) {
        Some(v) => v,
        None => buffer_size * 128,
    };
    if c >= buffer_size {
        c
    } else {
        buffer_size
    }
}

/// Round-robin assignment of writer threads to CPUs.
pub struct CpuPool {
    pub cpus: Vec<usize>,
    pub next_cpu: usize,
}

impl CpuPool {
    /// No pinning.
    pub fn new() -> (r: CpuPool)
        ensures
            r.cpus@.len() == 0,
            r.next_cpu == 0,
    {
        CpuPool { cpus: Vec::new(), next_cpu: 0 }
    }

    /// Pin writer threads to these CPUs, in turn.
    pub fn with_cpu_affinity(self, cpus: Vec<usize>) -> (r: CpuPool)
        ensures
            r.cpus == cpus,
            r.next_cpu == self.next_cpu,
    {
        CpuPool { cpus, next_cpu: self.next_cpu }
    }

    /// The CPU for the next writer thread: none without a pool, otherwise the
    /// pool's CPUs in turn.
    pub fn assign(&mut self) -> (r: Option<usize>)
        ensures
            final(self).cpus == old(self).cpus,
            old(self).cpus@.len() == 0 ==> r is None && final(self).next_cpu == old(self).next_cpu,
            old(self).cpus@.len() > 0 ==> r == Some(
                old(self).cpus@[(old(self).next_cpu as int) % (old(self).cpus@.len() as int)],
            ) && final(self).next_cpu == rr_step(old(self).next_cpu as int, old(self).cpus@.len() as int),
    {
        if self.cpus.len() == 0 {
            None
        } else {
            let id = self.cpus[self.next_cpu % self.cpus.len()];
            self.next_cpu = self.next_cpu % self.cpus.len() + 1;
            Some(id)
        }
    }
}

impl CpuPool {
    /// A writer registration: a CPU is taken from the pool only when the
    /// registration's job could be created; a failed registration (`None`)
    /// leaves the round-robin position where it was.
    pub fn register_job(&mut self, job_created: bool) -> (r: Option<Option<usize>>)
        ensures
            final(self).cpus == old(self).cpus,
            !job_created ==> r is None && final(self).next_cpu == old(self).next_cpu,
            job_created && old(self).cpus@.len() == 0 ==> r == Some(None::<usize>)
                && final(self).next_cpu == old(self).next_cpu,
            job_created && old(self).cpus@.len() > 0 ==> r == Some(
                Some(old(self).cpus@[(old(self).next_cpu as int) % (old(self).cpus@.len() as int)]),
            ) && final(self).next_cpu == rr_step(old(self).next_cpu as int, old(self).cpus@.len() as int),
    {
        if !job_created {
            return None;
        }
        Some(self.assign())
    }
}

/// The round-robin position after one more CPU was handed out of a pool of
/// `len` CPUs (kept below `len + 1`, so it never overflows).
pub open spec fn rr_step(n: int, len: int) -> int {
    n % len + 1
}

/// The round-robin position after `k` CPUs were handed out, starting at `n`.
pub open spec fn rr_after(n: int, len: int, k: nat) -> int
    decreases k,
{
    if k == 0 {
        n
    } else {
        rr_step(rr_after(n, len, (k - 1) as nat), len)
    }
}

/// Round-robin pinning: after `k` successful registrations on a pool whose
/// position was `n`, the next registration is pinned to `cpus[(n + k) % len]`
/// (failed registrations do not move the position); the CPUs thus come back
/// after one pass over the pool.
pub proof fn law_round_robin(cpus: Seq<usize>, n: int, k: nat)
    requires
        cpus.len() > 0,
        n >= 0,
    ensures
        rr_after(n, cpus.len() as int, k) % (cpus.len() as int) == (n + k) % (cpus.len() as int),
        cpus[(n + k + cpus.len()) % (cpus.len() as int)] == cpus[(n + k) % (cpus.len() as int)],
    decreases k,
{
    let len = cpus.len() as int;
    if k > 0 {
        law_round_robin(cpus, n, (k - 1) as nat);
        let a = rr_after(n, len, (k - 1) as nat);
        vstd::arithmetic::div_mod::lemma_add_mod_noop(a, 1, len);
        vstd::arithmetic::div_mod::lemma_mod_twice(a, len);
        vstd::arithmetic::div_mod::lemma_add_mod_noop(a % len, 1, len);
        vstd::arithmetic::div_mod::lemma_add_mod_noop(n + k - 1, 1, len);
        vstd::arithmetic::div_mod::lemma_add_mod_noop((n + k - 1) % len, 1, len);
        vstd::arithmetic::div_mod::lemma_mod_twice(n + k - 1, len);
    }
    vstd::arithmetic::div_mod::lemma_mod_add_multiples_vanish(n + k, len);
}

} // verus!
