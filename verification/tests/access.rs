use hal_buffer::access;
use hal_buffer::Access;
use hal_buffer::State;

fn flag(bits: u16) -> Access {
    Access::from_bits(bits).unwrap()
}

const ALL_FLAGS: [u16; 12] = [
    access::TRANSFER_READ,
    access::TRANSFER_WRITE,
    access::INDEX_BUFFER_READ,
    access::VERTEX_BUFFER_READ,
    access::CONSTANT_BUFFER_READ,
    access::INDIRECT_COMMAND_READ,
    access::SHADER_READ,
    access::SHADER_WRITE,
    access::HOST_READ,
    access::HOST_WRITE,
    access::MEMORY_READ,
    access::MEMORY_WRITE,
];

#[test]
fn access_bits_round_trip() {
    for &b in ALL_FLAGS.iter() {
        assert_eq!(flag(b).bits(), b);
    }
    assert_eq!(Access::empty().bits(), 0);
    assert_eq!(Access::all().bits(), access::ACCESS_MASK);
}

#[test]
fn access_from_bits_rejects_unnamed_bits() {
    // 0x4 and 0x8 are gaps in the access namespace.
    assert_eq!(Access::from_bits(0x4), None);
    assert_eq!(Access::from_bits(0x8), None);
    assert_eq!(Access::from_bits(0x4000), None);
    assert_eq!(Access::from_bits(0xffff), None);
    assert!(Access::from_bits(access::ACCESS_MASK).is_some());
}

#[test]
fn access_set_operations() {
    let reads = flag(access::TRANSFER_READ | access::SHADER_READ);
    let writes = flag(access::TRANSFER_WRITE | access::SHADER_WRITE);
    assert!(!reads.intersects(writes));
    assert_eq!(reads.intersection(writes).bits(), 0);
    let both = reads.union(writes);
    assert!(both.contains(reads));
    assert!(both.contains(writes));
    assert_eq!(
        both.bits(),
        access::TRANSFER_READ | access::SHADER_READ | access::TRANSFER_WRITE
            | access::SHADER_WRITE
    );
}

#[test]
fn state_is_access() {
    // The buffer-state alias names the same flag set.
    let state: State = flag(access::HOST_WRITE);
    assert!(state.intersects(flag(access::HOST_WRITE)));
    assert_eq!(state, Access::from_bits(access::HOST_WRITE).unwrap());
}
