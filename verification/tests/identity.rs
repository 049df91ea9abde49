use qp_hd::protocol_id::{DimensionObservation, LockedStructure, QuantumId};

fn obs(structural_value: u128, activations: u64) -> DimensionObservation {
    DimensionObservation { dimension: 9, structural_value, activations }
}

#[test]
fn density_is_structural_value_per_activation() {
    let q = QuantumId::new();
    assert_eq!(q.density(&obs(100, 0)), None);
    assert_eq!(q.density(&obs(100, 3)), Some(33));
    assert_eq!(q.density(&obs(0, 5)), Some(0));
    assert_eq!(q.density(&obs(u128::MAX, 1)), Some(u128::MAX));
}

#[test]
fn locked_debt_is_min_of_density_and_tau() {
    let q = QuantumId::new();
    assert_eq!(q.locked_debt(&obs(100, 3), 10), Some(10));
    assert_eq!(q.locked_debt(&obs(100, 3), 50), Some(33));
    assert_eq!(q.locked_debt(&obs(100, 0), 50), None);
}

#[test]
fn max_lendable_is_structural_value() {
    let q = QuantumId::new();
    assert_eq!(q.max_lendable(&obs(100, 0)), Some(100));
    assert_eq!(q.max_lendable(&obs(7, 3)), Some(7));
}

#[test]
fn density_never_exceeds_lendable() {
    let q = QuantumId::new();
    for (s, a) in [(0u128, 1u64), (5, 2), (1000, 7), (u128::MAX, 3)] {
        let o = obs(s, a);
        let d = q.density(&o).unwrap();
        assert!(d <= q.max_lendable(&o).unwrap());
        assert!(d * (a as u128) <= s);
    }
}

#[test]
fn locked_structure_holds_its_slice() {
    let slice = LockedStructure { dimension: 4, structural_value: 12 };
    let copy = slice;
    assert_eq!(copy.dimension, 4);
    assert_eq!(copy.structural_value, 12);
}
