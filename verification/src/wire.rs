use vstd::prelude::*;

use vstd::arithmetic::div_mod::lemma_fundamental_div_mod;
use vstd::arithmetic::div_mod::lemma_fundamental_div_mod_converse;
use vstd::arithmetic::mul::lemma_mul_inequality;

verus! {

/// A point in time: whole seconds since a fixed epoch plus a sub-second
/// remainder in nanoseconds. Well-formed values keep `nanos` below one
/// second.
#[derive(Clone, Copy, PartialEq, Eq, Structural, Debug, Hash)]
pub struct Timestamp {
    pub seconds: u64,
    pub nanos: u32,
}

/// Nanoseconds in one second.
pub const NANOS_PER_SECOND: u32 = 1_000_000_000;

impl Timestamp {
    /// A timestamp is well formed when its sub-second part is a proper
    /// remainder.
    pub open spec fn wf(self) -> bool {
        self.nanos < NANOS_PER_SECOND
    }

    /// The absolute time this value stands for, as total nanoseconds
    /// since the epoch.
    pub open spec fn total_nanos(self) -> int {
        self.seconds * NANOS_PER_SECOND + self.nanos
    }

    /// The timestamp for an absolute time given in nanoseconds.
    pub open spec fn of_total_nanos(n: int) -> Timestamp {
        Timestamp { seconds: (n / (NANOS_PER_SECOND as int)) as u64, nanos: (n % (
        NANOS_PER_SECOND as int)) as u32 }
    }

    /// Converts to the native absolute form, total nanoseconds since the
    /// epoch, with no loss of precision.
    pub fn as_nanos(self) -> (r: u128)
        ensures
            r == self.total_nanos(),
    {
        proof {
            lemma_mul_inequality(
                self.seconds as int,
                u64::MAX as int,
                NANOS_PER_SECOND as int,
            );
        }
        (self.seconds as u128) * (NANOS_PER_SECOND as u128) + (self.nanos as u128)
    }

    /// Converts back from the native absolute form. Every instant whose
    /// second count fits in 64 bits is representable exactly.
    pub fn from_nanos(n: u128) -> (r: Timestamp)
        requires
            n / (NANOS_PER_SECOND as u128) <= u64::MAX,
        ensures
            r == Timestamp::of_total_nanos(n as int),
            r.wf(),
            r.total_nanos() == n,
    {
        let seconds: u64 = (n / (NANOS_PER_SECOND as u128)) as u64;
        let nanos: u32 = (n % (NANOS_PER_SECOND as u128)) as u32;
        proof {
            lemma_fundamental_div_mod(n as int, NANOS_PER_SECOND as int);
        }
        Timestamp { seconds, nanos }
    }
}

/// Converting a well-formed timestamp to total nanoseconds and back is the
/// identity, and so is the round trip starting from a nanosecond count.
pub proof fn lemma_timestamp_round_trip(t: Timestamp, n: int)
    ensures
        t.wf() ==> Timestamp::of_total_nanos(t.total_nanos()) == t,
        0 <= n ==> Timestamp::of_total_nanos(n).wf(),
        0 <= n && n / (NANOS_PER_SECOND as int) <= u64::MAX
            ==> Timestamp::of_total_nanos(n).total_nanos() == n,
{
    if t.wf() {
        lemma_fundamental_div_mod_converse(
            t.total_nanos(),
            NANOS_PER_SECOND as int,
            t.seconds as int,
            t.nanos as int,
        );
    }
    if 0 <= n {
        lemma_fundamental_div_mod(n, NANOS_PER_SECOND as int);
    }
}

/// A 128-bit random value split into two 64-bit halves for wire
/// transport.
#[derive(Clone, Copy, PartialEq, Eq, Structural, Debug, Hash)]
pub struct Nonce {
    pub upper_half: u64,
    pub lower_half: u64,
}

/// The wire form of a 128-bit value: high half and low half.
pub open spec fn nonce_of_u128(n: u128) -> Nonce {
    Nonce { upper_half: (n >> 64) as u64, lower_half: n as u64 }
}

/// The 128-bit value a wire nonce recomposes to:
/// `upper_half << 64 | lower_half`.
pub open spec fn u128_of_nonce(nonce: Nonce) -> u128 {
    (((nonce.upper_half as u128) << 64) | (nonce.lower_half as u128)) as u128
}

impl Nonce {
    /// Splits a native 128-bit value into its two wire halves.
    pub fn from_u128(n: u128) -> (r: Nonce)
        ensures
            r == nonce_of_u128(n),
    {
        let upper_half = (n >> 64) as u64;
        let lower_half = n as u64;
        Nonce { upper_half, lower_half }
    }

    /// Recomposes the native 128-bit value from the two halves.
    pub fn as_u128(self) -> (r: u128)
        ensures
            r == u128_of_nonce(self),
    {
        ((self.upper_half as u128) << 64) | (self.lower_half as u128)
    }
}

impl From<u128> for Nonce {
    fn from(n: u128) -> (r: Nonce) {
        Nonce::from_u128(n)
    }
}

impl vstd::std_specs::convert::FromSpecImpl<u128> for Nonce {
    open spec fn obeys_from_spec() -> bool {
        true
    }

    open spec fn from_spec(n: u128) -> Nonce {
        nonce_of_u128(n)
    }
}

impl From<Nonce> for u128 {
    fn from(nonce: Nonce) -> (r: u128) {
        nonce.as_u128()
    }
}

impl vstd::std_specs::convert::FromSpecImpl<Nonce> for u128 {
    open spec fn obeys_from_spec() -> bool {
        true
    }

    open spec fn from_spec(nonce: Nonce) -> u128 {
        u128_of_nonce(nonce)
    }
}

/// Splitting a 128-bit value into wire halves and recomposing them is the
/// identity, in both directions.
pub proof fn lemma_nonce_round_trip(n: u128, nonce: Nonce)
    ensures
        u128_of_nonce(nonce_of_u128(n)) == n,
        nonce_of_u128(u128_of_nonce(nonce)) == nonce,
{
    assert(((((n >> 64) as u64 as u128) << 64) | (n as u64 as u128)) == n) by (bit_vector);
    let u = nonce.upper_half;
    let l = nonce.lower_half;
    assert(((((u as u128) << 64) | (l as u128)) >> 64) as u64 == u) by (bit_vector);
    assert((((u as u128) << 64) | (l as u128)) as u64 == l) by (bit_vector);
}

} // verus!
