use coil_typecheck::kind::Kind;

#[test]
fn kind_display_round_trips() {
    assert_eq!(Kind::Type.to_string(), "*");
    assert_eq!(Kind::Constraint.to_string(), "Constraint");
    assert_eq!(Kind::constructor(1).to_string(), "* -> *");
    assert_eq!(Kind::constraint_constructor(1).to_string(), "* -> Constraint");
    assert_eq!(Kind::constructor(2).to_string(), "* -> * -> *");
    assert_eq!(Kind::arrow(Kind::constructor(1), Kind::Type).to_string(), "(* -> *) -> *");
}

#[test]
fn kind_argument_kinds_follow_tree_shape() {
    let binary = Kind::constructor(2);
    assert_eq!(binary.arity(), 2);
    assert_eq!(binary.argument_kinds(), vec![Kind::Type, Kind::Type]);
    assert_eq!(binary.result_kind(), &Kind::Type);

    let higher_order = Kind::arrow(Kind::constructor(1), Kind::Type);
    assert_eq!(higher_order.arity(), 1);
    assert_eq!(higher_order.argument_kinds(), vec![Kind::constructor(1)]);

    let predicate = Kind::constraint_constructor(1);
    assert_eq!(predicate.arity(), 1);
    assert_eq!(predicate.argument_kinds(), vec![Kind::Type]);
    assert_eq!(predicate.result_kind(), &Kind::Constraint);
    assert!(predicate.is_constraint_constructor_kind());
}

#[test]
fn kinds_tell_types_from_constructors() {
    assert!(Kind::Type.is_type());
    assert!(!Kind::Type.is_constructor_kind());
    assert!(Kind::constructor(3).is_constructor_kind());
    assert!(Kind::constructor(3).is_arrow());
    assert!(Kind::Constraint.is_constraint());
    assert!(!Kind::constructor(1).is_constraint_constructor_kind());
    assert_eq!(Kind::constructor(0), Kind::Type);
    assert_eq!(Kind::constructor(2).clone(), Kind::constructor(2));
}
