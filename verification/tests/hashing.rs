use dyn_hash::hash_erased;
use dyn_hash::hashable::Hashable;
use dyn_hash::hashable::Pair;
use dyn_hash::hasher::Accumulator;
use dyn_hash::hasher::Hasher;
use dyn_hash::DynHash;

#[test]
fn accumulator_records_bytes_in_order() {
    let mut acc = Accumulator::new();
    acc.write(&[1, 2]);
    acc.write(&[3]);
    assert_eq!(acc.data, vec![1, 2, 3]);
}

#[test]
fn u64_contributes_its_little_endian_bytes() {
    let mut acc = Accumulator::new();
    0x0102030405060708u64.hash(&mut acc);
    assert_eq!(acc.data, vec![8, 7, 6, 5, 4, 3, 2, 1]);
}

#[test]
fn u8_and_bool_contribute_one_byte() {
    let mut acc = Accumulator::new();
    9u8.hash(&mut acc);
    true.hash(&mut acc);
    false.hash(&mut acc);
    assert_eq!(acc.data, vec![9, 1, 0]);
}

#[test]
fn known_digest_of_one_byte() {
    // The 64-bit FNV-1a digest of the single byte 0x61.
    let mut acc = Accumulator::new();
    0x61u8.hash(&mut acc);
    assert_eq!(acc.finish(), 0xaf63dc4c8601ec8c);
}

#[test]
fn digest_of_nothing_is_the_offset_basis() {
    let acc = Accumulator::new();
    assert_eq!(acc.finish(), 0xcbf29ce484222325);
}

#[test]
fn adapter_forwards_exactly() {
    // Forwarding equivalence: the adapter operation and the native generic
    // hashing operation leave identical accumulator states.
    let value = 0xfeedu64;
    let mut native = Accumulator::new();
    value.hash(&mut native);
    let mut adapted = Accumulator::new();
    value.dyn_hash(&mut adapted);
    assert_eq!(native.data, adapted.data);
    assert_eq!(native.finish(), adapted.finish());
}

#[test]
fn erased_hashing_is_transparent() {
    // Dispatch transparency: hashing through an erased reference equals
    // hashing the concrete value directly.
    let concrete = 77u64;
    let erased: Box<u64> = Box::new(77u64);
    let mut direct = Accumulator::new();
    concrete.hash(&mut direct);
    let mut through = Accumulator::new();
    hash_erased(&erased, &mut through);
    assert_eq!(direct.data, through.data);
}

#[test]
fn equal_values_behind_erased_references_hash_alike() {
    let left: Box<u64> = Box::new(42);
    let right: Box<u64> = Box::new(42);
    let mut acc_left = Accumulator::new();
    let mut acc_right = Accumulator::new();
    left.dyn_hash(&mut acc_left);
    right.dyn_hash(&mut acc_right);
    assert_eq!(acc_left.finish(), acc_right.finish());
}

#[test]
fn different_values_behind_erased_references_hash_apart() {
    let left: Box<u64> = Box::new(1);
    let right: Box<u64> = Box::new(2);
    let mut acc_left = Accumulator::new();
    let mut acc_right = Accumulator::new();
    left.dyn_hash(&mut acc_left);
    right.dyn_hash(&mut acc_right);
    assert_ne!(acc_left.finish(), acc_right.finish());
}

#[test]
fn container_hash_composes_its_fields() {
    // An outer container hashes as the composition of its fields'
    // contributions, in order.
    let container = Pair { first: Box::new(5u64), second: 7u64 };
    let mut whole = Accumulator::new();
    container.hash(&mut whole);
    let mut by_fields = Accumulator::new();
    5u64.hash(&mut by_fields);
    7u64.hash(&mut by_fields);
    assert_eq!(whole.data, by_fields.data);
    assert_eq!(whole.finish(), by_fields.finish());
}

#[test]
fn container_hashing_is_deterministic() {
    // Idempotent composition: two runs from identically initialized
    // accumulators end in identical states.
    let container = Pair { first: Box::new(11u64), second: true };
    let mut first_run = Accumulator::new();
    container.hash(&mut first_run);
    let mut second_run = Accumulator::new();
    container.hash(&mut second_run);
    assert_eq!(first_run.data, second_run.data);
    assert_eq!(first_run.finish(), second_run.finish());
}

fn digest_after_move(container: Pair<Box<u64>, u64>) -> u64 {
    let mut acc = Accumulator::new();
    container.hash(&mut acc);
    acc.finish()
}

#[test]
fn hash_survives_moving_the_container() {
    // A container fit to cross an execution-context boundary hashes the
    // same after being moved as before.
    let container = Pair { first: Box::new(3u64), second: 9u64 };
    let mut before = Accumulator::new();
    container.hash(&mut before);
    let after = digest_after_move(container);
    assert_eq!(before.finish(), after);
}

#[test]
fn nested_containers_compose() {
    let inner = Pair { first: 1u64, second: 2u8 };
    let outer = Pair { first: inner, second: Box::new(false) };
    let mut acc = Accumulator::new();
    outer.hash(&mut acc);
    let mut manual = Accumulator::new();
    1u64.hash(&mut manual);
    2u8.hash(&mut manual);
    false.hash(&mut manual);
    assert_eq!(acc.data, manual.data);
}
