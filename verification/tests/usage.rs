use hal_buffer::usage;
use hal_buffer::Usage;

fn flag(bits: u16) -> Usage {
    Usage::from_bits(bits).unwrap()
}

const ALL_FLAGS: [u16; 9] = [
    usage::TRANSFER_SRC,
    usage::TRANSFER_DST,
    usage::UNIFORM,
    usage::STORAGE,
    usage::UNIFORM_TEXEL,
    usage::STORAGE_TEXEL,
    usage::INDEX,
    usage::INDIRECT,
    usage::VERTEX,
];

#[test]
fn usage_bits_round_trip() {
    for &b in ALL_FLAGS.iter() {
        assert_eq!(flag(b).bits(), b);
    }
    assert_eq!(Usage::empty().bits(), 0);
    assert_eq!(Usage::all().bits(), usage::USAGE_MASK);
}

#[test]
fn usage_from_bits_rejects_unnamed_bits() {
    assert_eq!(Usage::from_bits(0x200), None);
    assert_eq!(Usage::from_bits(0x1000), None);
    assert_eq!(Usage::from_bits(0xffff), None);
    assert_eq!(Usage::from_bits(usage::VERTEX | 0x8000), None);
    assert!(Usage::from_bits(usage::USAGE_MASK).is_some());
}

#[test]
fn usage_bit_independence() {
    // Setting any named bit neither sets nor clears any other named bit.
    for &set_bit in ALL_FLAGS.iter() {
        for &other in ALL_FLAGS.iter() {
            if set_bit == other {
                continue;
            }
            let without = Usage::empty().union(flag(set_bit));
            assert!(!without.intersects(flag(other)));
            let with = flag(other).union(flag(set_bit));
            assert!(with.intersects(flag(other)));
            assert!(with.contains(flag(other)));
        }
    }
}

#[test]
fn usage_union_and_intersection() {
    let a = flag(usage::TRANSFER_SRC | usage::VERTEX);
    let b = flag(usage::VERTEX | usage::INDEX);
    assert_eq!(a.union(b).bits(), usage::TRANSFER_SRC | usage::VERTEX | usage::INDEX);
    assert_eq!(a.intersection(b).bits(), usage::VERTEX);
    assert_eq!(a.intersection(Usage::empty()).bits(), 0);
    assert_eq!(a.union(Usage::empty()), a);
    assert!(Usage::all().contains(a));
    assert!(!a.contains(Usage::all()));
}

#[test]
fn can_transfer_iff_transfer_bits() {
    assert!(!Usage::empty().can_transfer());
    assert!(flag(usage::TRANSFER_SRC).can_transfer());
    assert!(flag(usage::TRANSFER_DST).can_transfer());
    assert!(flag(usage::TRANSFER_SRC | usage::TRANSFER_DST).can_transfer());
    assert!(flag(usage::TRANSFER_DST | usage::STORAGE).can_transfer());
    // Every combination excluding both transfer bits reports false.
    let non_transfer = usage::UNIFORM
        | usage::STORAGE
        | usage::UNIFORM_TEXEL
        | usage::STORAGE_TEXEL
        | usage::INDEX
        | usage::INDIRECT
        | usage::VERTEX;
    for bits in 0..=usage::USAGE_MASK {
        if bits & non_transfer == bits {
            assert!(!flag(bits).can_transfer());
        }
    }
}
