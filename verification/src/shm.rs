//! The shared-memory allocator: a pool of exactly the requested byte size,
//! and the collision-resistant random name under which the real region is
//! created and immediately unlinked.
//!
//! The region itself must come from the operating system so the compositor
//! can map it too; those system calls live in the unverified shell.  What is
//! verified here is the allocator's contract — a pool is exactly as large as
//! requested and starts zeroed — and the rendering of the random name.

use vstd::prelude::*;

verus! {

/// A shared-memory allocation failed.
#[derive(Clone, Copy, PartialEq, Eq, Structural, Debug)]
pub enum AllocationError {
    /// Only positive sizes can be allocated.
    SizeNotPositive,
}

/// A pool of bytes backing one frame, handed to the render callback and then
/// to the compositor.
#[derive(Debug)]
pub struct ShmPool {
    pub data: Vec<u8>,
}

impl ShmPool {
    /// Allocates a pool of exactly `size` bytes, zero-filled.  Succeeds for
    /// every positive size; the returned extent is never smaller than
    /// requested.
    pub fn allocate(size: i32) -> (r: Result<ShmPool, AllocationError>)
        ensures
            match r {
                Ok(p) => {
                    &&& size > 0
                    &&& p.data@.len() == size
                    &&& forall|i: int| 0 <= i < p.data@.len() ==> p.data@[i] == 0
                },
                Err(e) => size <= 0 && e == AllocationError::SizeNotPositive,
            },
    {
        if size <= 0 {
            return Err(AllocationError::SizeNotPositive);
        }
        let n = size as usize;
        let mut data: Vec<u8> = Vec::new();
        let mut i: usize = 0;
        while i < n
            invariant
                i <= n,
                data@.len() == i,
                forall|j: int| 0 <= j < i ==> data@[j] == 0,
            decreases n - i,
        {
            data.push(0);
            i = i + 1;
        }
        Ok(ShmPool { data })
    }
}

/// The decimal digits of `n`, most significant first, as bytes of text.
pub open spec fn spec_decimal(n: u64) -> Seq<u8>
    decreases n,
{
    if n < 10 {
        seq![(48 + n) as u8]
    } else {
        spec_decimal(n / 10).push((48 + n % 10) as u8)
    }
}

/// Every byte of a decimal rendering is an ASCII digit, and there is at least
/// one — so the name is non-empty and holds no terminator byte.
pub proof fn lemma_decimal_is_digits(n: u64)
    ensures
        spec_decimal(n).len() >= 1,
        forall|i: int| 0 <= i < spec_decimal(n).len() ==> 48 <= #[trigger] spec_decimal(n)[i] <= 57,
    decreases n,
{
    if n >= 10 {
        lemma_decimal_is_digits(n / 10);
    }
}

/// Appends the decimal digits of `n` to `out`.
fn push_decimal(n: u64, out: &mut Vec<u8>)
    ensures
        final(out)@ == old(out)@ + spec_decimal(n),
    decreases n,
{
    if n < 10 {
        out.push(48 + n as u8);
        proof {
            assert(final(out)@ =~= old(out)@ + spec_decimal(n));
        }
    } else {
        push_decimal(n / 10, out);
        out.push(48 + (n % 10) as u8);
        proof {
            assert(final(out)@ =~= old(out)@ + spec_decimal(n));
        }
    }
}

/// Relies on `rand::random`: one value drawn from the thread-local generator,
/// as the allocator's collision-resistant name source.  Nothing is promised
/// of the value.
#[verifier::external_body]
fn random_u64() -> u64 {
    rand::random::<u64>()
}

/// A freshly drawn region name: the decimal rendering of a random value.
/// The name is non-empty ASCII digits, so it embeds in any file-system-like
/// namespace and holds no terminator byte.
pub fn fresh_region_name() -> (name: Vec<u8>)
    ensures
        exists|n: u64| name@ == spec_decimal(n),
        name@.len() >= 1,
        forall|i: int| 0 <= i < name@.len() ==> 48 <= #[trigger] name@[i] <= 57,
{
    let n = random_u64();
    let mut name: Vec<u8> = Vec::new();
    push_decimal(n, &mut name);
    proof {
        assert(name@ =~= spec_decimal(n));
        lemma_decimal_is_digits(n);
    }
    name
}

/// Renders a value as decimal text, exposing the allocator's name format.
pub fn decimal_digits(n: u64) -> (r: Vec<u8>)
    ensures
        r@ == spec_decimal(n),
{
    let mut out: Vec<u8> = Vec::new();
    push_decimal(n, &mut out);
    proof {
        assert(out@ =~= spec_decimal(n));
    }
    out
}

} // verus!
