use soa_iter::expr::{gen_zip_iter, gen_zip_tuple, gen_zip_type, ChainExpr, TypeExpr, ValExpr};
use soa_iter::synth::{FieldDesc, GenError, IntoIterTarget, RecordDesc, Visibility};

fn type_pairs(e: &TypeExpr) -> usize {
    match e {
        TypeExpr::Cursor(_) => 0,
        TypeExpr::Group(inner) => type_pairs(inner),
        TypeExpr::Zip(left, right) => 1 + type_pairs(left) + type_pairs(right),
    }
}

fn val_pairs(e: &ValExpr) -> usize {
    match e {
        ValExpr::Cursor(_) => 0,
        ValExpr::Pair(left, right) => 1 + val_pairs(left) + val_pairs(right),
    }
}

fn field(name: &str, ty: &str) -> FieldDesc {
    FieldDesc { name: name.to_string(), ty: ty.to_string() }
}

#[test]
fn fold_single_field_shapes() {
    let t = gen_zip_type(1);
    assert_eq!(t, TypeExpr::Group(Box::new(TypeExpr::Cursor(0))));
    let v = gen_zip_tuple(1);
    assert_eq!(v, ValExpr::Cursor(0));
    assert_eq!(type_pairs(&t), 0);
    assert_eq!(val_pairs(&v), 0);
}

#[test]
fn fold_two_field_shapes() {
    let t = gen_zip_type(2);
    assert_eq!(
        t,
        TypeExpr::Zip(Box::new(TypeExpr::Cursor(0)), Box::new(TypeExpr::Cursor(1)))
    );
    let v = gen_zip_tuple(2);
    assert_eq!(
        v,
        ValExpr::Pair(Box::new(ValExpr::Cursor(0)), Box::new(ValExpr::Cursor(1)))
    );
}

#[test]
fn fold_three_fields_nest_left() {
    let t = gen_zip_type(3);
    assert_eq!(
        t,
        TypeExpr::Zip(
            Box::new(TypeExpr::Zip(
                Box::new(TypeExpr::Cursor(0)),
                Box::new(TypeExpr::Cursor(1))
            )),
            Box::new(TypeExpr::Cursor(2))
        )
    );
    let v = gen_zip_tuple(3);
    assert_eq!(
        v,
        ValExpr::Pair(
            Box::new(ValExpr::Pair(
                Box::new(ValExpr::Cursor(0)),
                Box::new(ValExpr::Cursor(1))
            )),
            Box::new(ValExpr::Cursor(2))
        )
    );
}

#[test]
fn fold_pair_counts_match() {
    let mut n: usize = 1;
    while n <= 6 {
        let t = gen_zip_type(n);
        let v = gen_zip_tuple(n);
        assert_eq!(type_pairs(&t), n - 1);
        assert_eq!(val_pairs(&v), n - 1);
        n += 1;
    }
}

#[test]
fn chain_orders_columns() {
    let c: ChainExpr = gen_zip_iter(4);
    assert_eq!(c.head, 0);
    assert_eq!(c.zips, vec![1, 2, 3]);

    let single = gen_zip_iter(1);
    assert_eq!(single.head, 0);
    assert!(single.zips.is_empty());
}

#[test]
fn derive_public_emits_conversions() {
    let desc = RecordDesc {
        name: "Point".to_string(),
        visibility: Visibility::Public,
        fields: vec![field("x", "i64"), field("y", "i64")],
    };
    let g = soa_iter::synth::derive(&desc).unwrap();
    assert_eq!(g.n_fields, 2);
    assert_eq!(g.zip_type, gen_zip_type(2));
    assert_eq!(g.zip_tuple, gen_zip_tuple(2));
    assert_eq!(g.zip_iter.head, 0);
    assert_eq!(g.zip_iter.zips, vec![1]);
    assert_eq!(
        g.into_iter_targets,
        vec![
            IntoIterTarget::ContainerByValue,
            IntoIterTarget::ContainerByRef,
            IntoIterTarget::ContainerByMutRef,
            IntoIterTarget::SliceByValue,
            IntoIterTarget::SliceByRef,
            IntoIterTarget::SliceMutByValue,
        ]
    );
}

#[test]
fn derive_internal_skips_conversions() {
    let desc = RecordDesc {
        name: "Sample".to_string(),
        visibility: Visibility::Internal,
        fields: vec![field("a", "u32"), field("b", "bool"), field("c", "u8")],
    };
    let g = soa_iter::synth::derive(&desc).unwrap();
    assert_eq!(g.n_fields, 3);
    assert!(g.into_iter_targets.is_empty());
    assert_eq!(type_pairs(&g.zip_type), 2);
    assert_eq!(val_pairs(&g.zip_tuple), 2);
}

#[test]
fn derive_rejects_empty_fields() {
    let desc = RecordDesc {
        name: "Empty".to_string(),
        visibility: Visibility::Public,
        fields: Vec::new(),
    };
    assert!(matches!(soa_iter::synth::derive(&desc), Err(GenError::EmptyFieldList)));
}
