use vstd::prelude::*;

verus! {

/// Identity of one participant in the collaboration system: `owner_id`
/// names the hosting instance, `id` a connection within that instance.
///
/// The total order is lexicographic on `(owner_id, id)`, and a peer id
/// packs losslessly into a `u64` whose high 32 bits are `owner_id` and
/// whose low 32 bits are `id`. The pair `(0, 0)` is reserved for the
/// non-networked, same-process peer.
#[derive(Clone, Copy, PartialEq, Eq, Structural, Hash, Debug, Ord)]
pub struct PeerId {
    pub owner_id: u32,
    pub id: u32,
}

/// The peer id whose packed form is the 64-bit value `v`.
pub open spec fn peer_id_of_u64(v: u64) -> PeerId {
    PeerId { owner_id: (v >> 32) as u32, id: v as u32 }
}

/// The packed 64-bit form of a peer id: high half `owner_id`, low half `id`.
pub open spec fn u64_of_peer_id(p: PeerId) -> u64 {
    (((p.owner_id as u64) << 32) | (p.id as u64)) as u64
}

impl PeerId {
    pub fn from_u64(peer_id: u64) -> (r: Self)
        ensures
            r == peer_id_of_u64(peer_id),
    {
        let owner_id = (peer_id >> 32) as u32;
        let id = peer_id as u32;
        PeerId { owner_id, id }
    }

    pub fn as_u64(self) -> (r: u64)
        ensures
            r == u64_of_peer_id(self),
    {
        ((self.owner_id as u64) << 32) | (self.id as u64)
    }
}

/// Packing a peer id into a `u64` and unpacking are mutually inverse:
/// every `u64` round-trips through `from_u64`/`as_u64`, and every peer id
/// round-trips the other way.
pub proof fn lemma_peer_id_u64_round_trip(v: u64, p: PeerId)
    ensures
        u64_of_peer_id(peer_id_of_u64(v)) == v,
        peer_id_of_u64(u64_of_peer_id(p)) == p,
{
    assert(((((v >> 32) as u32 as u64) << 32) | (v as u32 as u64)) == v) by (bit_vector);
    let o = p.owner_id;
    let i = p.id;
    assert(((((o as u64) << 32) | (i as u64)) >> 32) as u32 == o) by (bit_vector);
    assert((((o as u64) << 32) | (i as u64)) as u32 == i) by (bit_vector);
}

/// The character for one decimal digit.
pub open spec fn dec_digit(d: nat) -> char {
    if d == 0 {
        '0'
    } else if d == 1 {
        '1'
    } else if d == 2 {
        '2'
    } else if d == 3 {
        '3'
    } else if d == 4 {
        '4'
    } else if d == 5 {
        '5'
    } else if d == 6 {
        '6'
    } else if d == 7 {
        '7'
    } else if d == 8 {
        '8'
    } else {
        '9'
    }
}

/// The base-ten rendering of a number: no sign, no leading zeros, and a
/// single `'0'` for zero.
pub open spec fn dec_digits(n: nat) -> Seq<char>
    decreases n,
{
    if n < 10 {
        seq![dec_digit(n)]
    } else {
        dec_digits(n / 10) + seq![dec_digit(n % 10)]
    }
}

impl PeerId {
    /// The canonical textual form `"{owner_id}/{id}"`, both numbers in
    /// base ten.
    ///
    /// Relies on `core::fmt`'s documented rendering of unsigned integers:
    /// base ten, no sign, no leading zeros.
    #[verifier::external_body]
    pub fn to_display_string(&self) -> (r: String)
        ensures
            r@ == dec_digits(self.owner_id as nat) + seq!['/'] + dec_digits(self.id as nat),
    {
        format!("{}/{}", self.owner_id, self.id)
    }
}

impl PartialOrd for PeerId {
    fn partial_cmp(&self, other: &Self) -> (r: Option<core::cmp::Ordering>) {
        if self.owner_id < other.owner_id {
            Some(core::cmp::Ordering::Less)
        } else if self.owner_id > other.owner_id {
            Some(core::cmp::Ordering::Greater)
        } else if self.id < other.id {
            Some(core::cmp::Ordering::Less)
        } else if self.id > other.id {
            Some(core::cmp::Ordering::Greater)
        } else {
            Some(core::cmp::Ordering::Equal)
        }
    }
}

impl vstd::std_specs::cmp::PartialOrdSpecImpl for PeerId {
    open spec fn obeys_partial_cmp_spec() -> bool {
        true
    }

    open spec fn partial_cmp_spec(&self, other: &Self) -> Option<core::cmp::Ordering> {
        if self.owner_id < other.owner_id {
            Some(core::cmp::Ordering::Less)
        } else if self.owner_id > other.owner_id {
            Some(core::cmp::Ordering::Greater)
        } else if self.id < other.id {
            Some(core::cmp::Ordering::Less)
        } else if self.id > other.id {
            Some(core::cmp::Ordering::Greater)
        } else {
            Some(core::cmp::Ordering::Equal)
        }
    }
}

/// The reserved same-process peer: messages carrying it never crossed the
/// network.
pub open spec fn ssh_peer_id() -> PeerId {
    PeerId { owner_id: 0, id: 0 }
}

/// The reserved same-process peer, as a runtime value.
pub fn ssh_peer() -> (r: PeerId)
    ensures
        r == ssh_peer_id(),
{
    PeerId { owner_id: 0, id: 0 }
}

/// The project id under which the same-process peer's project is addressed.
pub const SSH_PROJECT_ID: u64 = 0;

} // verus!
