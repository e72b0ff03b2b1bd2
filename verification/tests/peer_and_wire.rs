use proto::peer::{ssh_peer, PeerId};
use proto::wire::{Nonce, Timestamp, NANOS_PER_SECOND};

#[test]
fn test_converting_peer_id_from_and_to_u64() {
    let peer_id = PeerId { owner_id: 10, id: 3 };
    assert_eq!(PeerId::from_u64(peer_id.as_u64()), peer_id);
    let peer_id = PeerId {
        owner_id: u32::MAX,
        id: 3,
    };
    assert_eq!(PeerId::from_u64(peer_id.as_u64()), peer_id);
    let peer_id = PeerId {
        owner_id: 10,
        id: u32::MAX,
    };
    assert_eq!(PeerId::from_u64(peer_id.as_u64()), peer_id);
    let peer_id = PeerId {
        owner_id: u32::MAX,
        id: u32::MAX,
    };
    assert_eq!(PeerId::from_u64(peer_id.as_u64()), peer_id);
}

#[test]
fn peer_id_u64_round_trip_starts_from_u64() {
    for v in [
        0u64,
        1,
        0xffff_ffff,
        0x1_0000_0000,
        0xdead_beef_0123_4567,
        u64::MAX,
    ] {
        assert_eq!(PeerId::from_u64(v).as_u64(), v);
    }
    let p = PeerId::from_u64(0xdead_beef_0123_4567);
    assert_eq!(p.owner_id, 0xdead_beef);
    assert_eq!(p.id, 0x0123_4567);
}

#[test]
fn peer_id_orders_lexicographically() {
    let a = PeerId { owner_id: 1, id: 9 };
    let b = PeerId { owner_id: 2, id: 0 };
    let c = PeerId { owner_id: 2, id: 1 };
    assert!(a < b);
    assert!(b < c);
    assert!(a < c);
    assert!(c > a);
    assert!(a <= a && a >= a);
    assert_eq!(a.partial_cmp(&a), Some(std::cmp::Ordering::Equal));
}

#[test]
fn peer_id_canonical_text_is_owner_slash_id() {
    let p = PeerId { owner_id: 10, id: 3 };
    assert_eq!(p.to_display_string(), "10/3");
    let zero = PeerId { owner_id: 0, id: 0 };
    assert_eq!(zero.to_display_string(), "0/0");
    let top = PeerId {
        owner_id: u32::MAX,
        id: u32::MAX,
    };
    assert_eq!(top.to_display_string(), "4294967295/4294967295");
}

#[test]
fn ssh_peer_is_the_zero_pair() {
    let p = ssh_peer();
    assert_eq!(p, PeerId { owner_id: 0, id: 0 });
    assert_eq!(p.as_u64(), 0);
}

#[test]
fn nonce_round_trips_through_u128() {
    for n in [
        0u128,
        1,
        u64::MAX as u128,
        (u64::MAX as u128) + 1,
        0x0123_4567_89ab_cdef_fedc_ba98_7654_3210,
        u128::MAX,
    ] {
        assert_eq!(Nonce::from_u128(n).as_u128(), n);
        let nonce: Nonce = Nonce::from(n);
        assert_eq!(u128::from(nonce), n);
    }
}

#[test]
fn nonce_splits_into_halves() {
    let n: u128 = 0x0123_4567_89ab_cdef_fedc_ba98_7654_3210;
    let nonce = Nonce::from_u128(n);
    assert_eq!(nonce.upper_half, 0x0123_4567_89ab_cdef);
    assert_eq!(nonce.lower_half, 0xfedc_ba98_7654_3210);
    let back = Nonce {
        upper_half: nonce.upper_half,
        lower_half: nonce.lower_half,
    };
    assert_eq!(back.as_u128(), n);
}

#[test]
fn timestamp_round_trips_through_nanos() {
    let t = Timestamp {
        seconds: 1_700_000_000,
        nanos: 123_456_789,
    };
    let n = t.as_nanos();
    assert_eq!(n, 1_700_000_000u128 * 1_000_000_000 + 123_456_789);
    assert_eq!(Timestamp::from_nanos(n), t);
    let zero = Timestamp {
        seconds: 0,
        nanos: 0,
    };
    assert_eq!(zero.as_nanos(), 0);
    assert_eq!(Timestamp::from_nanos(0), zero);
    let top = Timestamp {
        seconds: u64::MAX,
        nanos: NANOS_PER_SECOND - 1,
    };
    assert_eq!(Timestamp::from_nanos(top.as_nanos()), top);
}
