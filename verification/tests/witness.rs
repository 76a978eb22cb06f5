use cs_witnessable::compose_witness2;
use cs_witnessable::compose_witness3;
use cs_witnessable::BoolVar;
use cs_witnessable::ByteVar;
use cs_witnessable::CSWitnessable;
use cs_witnessable::FieldScalar;
use cs_witnessable::FieldVar;

fn scalar(l0: u64) -> FieldScalar {
    FieldScalar { l0, l1: 0, l2: 0, l3: 0 }
}

#[test]
fn unit_always_extracts_to_unit() {
    assert_eq!(().create_witness(), Some(()));
    assert_eq!(<() as CSWitnessable>::placeholder_witness(), ());
}

#[test]
fn placeholder_is_deterministic() {
    let a = <[Vec<FieldVar>; 2] as CSWitnessable>::placeholder_witness();
    let b = <[Vec<FieldVar>; 2] as CSWitnessable>::placeholder_witness();
    assert_eq!(a, b);
    let c = BoolVar::placeholder_witness();
    let d = BoolVar::placeholder_witness();
    assert_eq!(c, d);
}

#[test]
fn field_scalar_zero_is_all_zero_limbs() {
    let z = FieldScalar::zero();
    assert_eq!(z, FieldScalar { l0: 0, l1: 0, l2: 0, l3: 0 });
    assert_eq!(FieldVar::placeholder_witness(), z);
}

#[test]
fn leaf_placeholders_are_zero_like() {
    assert_eq!(BoolVar::placeholder_witness(), false);
    assert_eq!(ByteVar::placeholder_witness(), 0u8);
}

#[test]
fn leaf_accessor_reports_assignment() {
    assert_eq!(BoolVar::new(true).get_value(), Some(true));
    assert_eq!(BoolVar::unassigned().get_value(), None);
    assert_eq!(ByteVar::new(7).get_value(), Some(7));
    assert_eq!(FieldVar::new(scalar(9)).get_value(), Some(scalar(9)));
}

#[test]
fn fixed_array_of_bools_extracts() {
    let arr = [BoolVar::new(true), BoolVar::new(false), BoolVar::new(true)];
    assert_eq!(arr.create_witness(), Some([true, false, true]));
}

#[test]
fn fixed_array_absent_element_short_circuits() {
    let arr = [BoolVar::new(true), BoolVar::unassigned(), BoolVar::new(true)];
    assert_eq!(arr.create_witness(), None);
}

#[test]
fn fixed_array_placeholder_has_static_arity() {
    let p = <[BoolVar; 3] as CSWitnessable>::placeholder_witness();
    assert_eq!(p, [false, false, false]);
}

#[test]
fn zero_arity_fixed_array_extracts() {
    let arr: [ByteVar; 0] = [];
    assert_eq!(arr.create_witness(), Some([]));
}

#[test]
fn empty_growable_byte_sequence_extracts_empty() {
    let v: Vec<ByteVar> = vec![];
    assert_eq!(v.create_witness(), Some(vec![]));
}

#[test]
fn growable_sequence_keeps_length_and_order() {
    let v = vec![ByteVar::new(1), ByteVar::new(2), ByteVar::new(3)];
    let w = v.create_witness().unwrap();
    assert_eq!(w.len(), 3);
    assert_eq!(w, vec![1u8, 2, 3]);
}

#[test]
fn growable_sequence_short_circuits_on_absent() {
    let v = vec![ByteVar::new(1), ByteVar::unassigned(), ByteVar::new(3)];
    assert_eq!(v.create_witness(), None);
}

#[test]
fn growable_placeholder_is_empty_regardless_of_length() {
    let p = <Vec<ByteVar> as CSWitnessable>::placeholder_witness();
    assert_eq!(p.len(), 0);
}

#[test]
fn nested_fixed_of_growable_of_field_extracts() {
    let a: [Vec<FieldVar>; 2] = [
        vec![FieldVar::new(scalar(1)), FieldVar::new(scalar(2))],
        vec![FieldVar::new(scalar(3))],
    ];
    let w = a.create_witness().unwrap();
    assert_eq!(w, [vec![scalar(1), scalar(2)], vec![scalar(3)]]);
}

#[test]
fn nested_extraction_short_circuits_on_inner_absent() {
    let a: [Vec<FieldVar>; 2] = [
        vec![FieldVar::new(scalar(1))],
        vec![FieldVar::unassigned(), FieldVar::new(scalar(3))],
    ];
    assert_eq!(a.create_witness(), None);
}

#[test]
fn nested_placeholder_mirrors_shape() {
    let p = <[Vec<ByteVar>; 4] as CSWitnessable>::placeholder_witness();
    assert_eq!(p, [vec![], vec![], vec![], vec![]]);
    let q = <[[ByteVar; 2]; 2] as CSWitnessable>::placeholder_witness();
    assert_eq!(q, [[0u8, 0], [0, 0]]);
}

#[test]
fn repeated_extraction_is_stable() {
    let v = vec![BoolVar::new(true), BoolVar::new(false)];
    assert_eq!(v.create_witness(), v.create_witness());
    assert_eq!(v.create_witness(), Some(vec![true, false]));
}

#[test]
fn composition_helper_short_circuits_like_sequences() {
    assert_eq!(compose_witness2(Some(7u8), Some(true)), Some((7u8, true)));
    assert_eq!(compose_witness2(Some(7u8), None::<bool>), None);
    assert_eq!(compose_witness2(None::<u8>, Some(true)), None);
    assert_eq!(
        compose_witness3(Some(1u8), Some(false), Some(vec![2u8])),
        Some((1u8, false, vec![2u8]))
    );
    assert_eq!(compose_witness3(Some(1u8), None::<bool>, Some(2u8)), None);
}
