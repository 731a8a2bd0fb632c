use coil_typecheck::aggregate_arith::AggregateOp;
use coil_typecheck::ast::{Expression, Output};
use coil_typecheck::env::{instantiate_with_kinds, Env, Scheme, TyVarCounter};
use coil_typecheck::id::IdTable;
use coil_typecheck::infer::Checker;
use coil_typecheck::maps::NameMap;
use coil_typecheck::report::Span;
use coil_typecheck::subst::{apply_ty, compose, Subst};
use coil_typecheck::text::{number, parse_index, same_text, signed_number};
use coil_typecheck::tree::ArrayLength;
use coil_typecheck::ty::{
    array, array_fixed, constructor, fun, int_ty, option_app_ty, option_ty, string, tuple, Ty,
    TyVarId,
};
use coil_typecheck::unify::{unify_with, UnifyError};

fn var(n: u32) -> Ty {
    Ty::Var(TyVarId(n))
}

fn out(expr: Expression) -> Output {
    Output { span: Span { start: 0, end: 1 }, expr: Box::new(expr) }
}

#[test]
fn unified_types_are_equal_under_the_result() {
    let a = fun(var(0), tuple(vec![var(1), int_ty()]));
    let b = fun(string(), tuple(vec![var(0), var(2)]));
    let s = unify_with(&Subst::empty(), &a, &b).ok().unwrap();
    assert_eq!(apply_ty(&s, &a), apply_ty(&s, &b));
    assert_eq!(apply_ty(&s, &a), fun(string(), tuple(vec![string(), int_ty()])));
}

#[test]
fn unification_binds_no_more_than_it_must() {
    let s = unify_with(&Subst::empty(), &var(0), &var(1)).ok().unwrap();
    assert_eq!(apply_ty(&s, &var(0)), apply_ty(&s, &var(1)));
    assert!(matches!(apply_ty(&s, &var(0)), Ty::Var(_)));
    assert_eq!(apply_ty(&s, &var(2)), var(2));
}

#[test]
fn equal_types_unify_without_a_binding() {
    let t = fun(var(3), int_ty());
    let s = unify_with(&Subst::empty(), &t, &t).ok().unwrap();
    assert!(s.get(TyVarId(3)).is_none());
}

#[test]
fn a_variable_does_not_unify_with_a_type_around_it() {
    match unify_with(&Subst::empty(), &var(0), &tuple(vec![var(0), int_ty()])) {
        Err(UnifyError::Occurs { var: v, .. }) => assert_eq!(v, TyVarId(0)),
        other => panic!("expected an occurs check, got {:?}", other),
    }
}

#[test]
fn different_heads_do_not_unify() {
    match unify_with(&Subst::empty(), &tuple(vec![int_ty()]), &tuple(vec![string()])) {
        Err(UnifyError::Mismatch { left, right }) => {
            assert_eq!(left, int_ty());
            assert_eq!(right, string());
        }
        other => panic!("expected a mismatch, got {:?}", other),
    }
    assert!(unify_with(&Subst::empty(), &tuple(vec![int_ty()]), &int_ty()).is_err());
}

#[test]
fn enums_unify_with_their_nominal_forms() {
    let s = unify_with(&Subst::empty(), &option_ty(var(0)), &option_app_ty(int_ty())).ok().unwrap();
    assert_eq!(apply_ty(&s, &var(0)), int_ty());
    let refined = constructor(option_ty(string()), 1, 1);
    let s = unify_with(&Subst::empty(), &refined, &option_app_ty(var(4))).ok().unwrap();
    assert_eq!(apply_ty(&s, &var(4)), string());
}

#[test]
fn open_array_lengths_unify_with_any() {
    assert!(unify_with(&Subst::empty(), &array(int_ty()), &array_fixed(int_ty(), 3)).is_ok());
    assert!(
        unify_with(&Subst::empty(), &array_fixed(int_ty(), 2), &array_fixed(int_ty(), 3)).is_err()
    );
    assert_eq!(
        array_fixed(int_ty(), 2),
        Ty::Array { element: Box::new(int_ty()), length: ArrayLength::Static(2) }
    );
}

#[test]
fn composed_substitutions_apply_one_after_the_other() {
    let mut first = Subst::empty();
    first.insert(TyVarId(0), tuple(vec![var(1), var(2)]));
    let mut second = Subst::empty();
    second.insert(TyVarId(1), int_ty());
    let both = compose(&second, &first);
    let t = fun(var(0), var(1));
    assert_eq!(apply_ty(&both, &t), apply_ty(&second, &apply_ty(&first, &t)));
    assert_eq!(apply_ty(&both, &t), fun(tuple(vec![int_ty(), var(2)]), int_ty()));
}

#[test]
fn instances_of_a_scheme_share_no_variable() {
    let mut counter = TyVarCounter::new();
    let v = counter.fresh();
    let scheme = Scheme::poly(vec![v], vec![], fun(Ty::Var(v), Ty::Var(v)));
    let (a, _, kinds) = instantiate_with_kinds(&scheme, &mut counter);
    let (b, _, _) = instantiate_with_kinds(&scheme, &mut counter);
    assert_eq!(a, fun(var(1), var(1)));
    assert_eq!(b, fun(var(2), var(2)));
    assert_eq!(kinds.len(), 1);
    let mono = Scheme::mono(var(0));
    let (c, constraints, _) = instantiate_with_kinds(&mono, &mut counter);
    assert_eq!(c, var(0));
    assert!(constraints.is_empty());
}

#[test]
fn inner_frames_hide_and_restore() {
    let mut env = Env::new();
    env.push();
    env.insert_top("x".to_string(), Scheme::mono(int_ty()));
    env.push();
    env.insert_top("x".to_string(), Scheme::mono(string()));
    assert_eq!(env.lookup("x").unwrap().ty, string());
    env.pop();
    assert_eq!(env.lookup("x").unwrap().ty, int_ty());
    assert!(env.lookup("y").is_none());
}

#[test]
fn a_second_program_starts_from_empty_tables() {
    let mut c = Checker::new();
    let one = out(Expression::Program(vec![out(Expression::Integer(1))]));
    assert_eq!(c.check_program(&one), int_ty());
    assert_eq!(c.id_table().len(), 2);
    let empty = out(Expression::Program(vec![]));
    let _ = c.check_program(&empty);
    assert_eq!(c.id_table().len(), 1);
    assert_eq!(c.out.cache.len(), 1);
}

#[test]
fn messages_are_taken_once() {
    let mut c = Checker::new();
    let bad = out(Expression::Program(vec![out(Expression::Identifier("nope".to_string()))]));
    let _ = c.check_program(&bad);
    assert_eq!(c.messages().len(), 1);
    assert_eq!(c.take_messages().len(), 1);
    assert!(c.messages().is_empty());
}

#[test]
fn codegen_inference_gives_the_ids_back() {
    let mut c = Checker::new();
    let e = out(Expression::Add(out(Expression::Integer(1)), out(Expression::Integer(2))));
    let at = c.out.next_id_idx;
    assert_eq!(c.infer_for_codegen(&e), int_ty());
    assert_eq!(c.out.next_id_idx, at);
}

#[test]
fn a_new_checker_knows_its_builtins() {
    let c = Checker::new();
    assert_eq!(c.tag_for("Option", "None"), Some(0));
    assert_eq!(c.tag_for("Option", "Some"), Some(1));
    assert_eq!(c.arity_for("Option", "Some"), Some(1));
    assert_eq!(c.arity_for("Option", "None"), Some(0));
    assert_eq!(c.tag_for("Result", "Err"), Some(1));
    assert_eq!(c.tag_for("FFIType", "Int"), c.tag_for("ffi::types", "Int"));
    assert_eq!(c.tag_for("Nope", "Int"), None);
    assert_eq!(c.payload_tys_for("Option", "None").len(), 0);
    assert_eq!(c.payload_tys_for("Option", "Some")[0].0, "0");
    assert_eq!(c.dict_arity_for("nothing"), 0);
    assert!(Checker::is_builtin_class("Num"));
    assert!(!Checker::is_builtin_class("Into"));
    assert_eq!(
        c.instance_method_fqn("Num", &[int_ty()], "add"),
        Some("Num__int__add")
    );
    assert_eq!(c.instance_method_fqn("Num", &[string()], "add"), None);
}

#[test]
fn classes_are_named_by_their_types() {
    assert_eq!(Checker::class_name_of_ty(&Ty::Con("Cell".to_string())), Some("Cell"));
    let applied = Ty::App(Box::new(Ty::Con("Cell".to_string())), vec![int_ty()]);
    assert_eq!(Checker::class_name_of_ty(&applied), Some("Cell"));
    assert_eq!(Checker::class_name_of_ty(&var(0)), None);
    let c = Checker::new();
    assert!(!c.ty_is_class(&applied));
}

#[test]
fn operators_are_read_back() {
    for op in ["+", "-", "*", "/", "%"] {
        let read = AggregateOp::from_str(op);
        if let Some(o) = read {
            assert_eq!(o.as_str(), op);
        }
    }
    assert!(AggregateOp::from_str("+").is_some());
    assert!(AggregateOp::from_str("no").is_none());
}

#[test]
fn numbers_are_written_in_decimal() {
    assert_eq!(number(0), "0");
    assert_eq!(number(1203), "1203");
    assert_eq!(signed_number(-45), "-45");
    assert_eq!(parse_index("17"), Some(17));
    assert_eq!(parse_index("x"), None);
    assert!(same_text("abc", "abc"));
    assert!(!same_text("abc", "abd"));
}

#[test]
fn maps_keep_the_latest_value_of_a_key() {
    let mut m: NameMap<usize> = NameMap::new();
    m.insert("a".to_string(), 1);
    m.insert("b".to_string(), 2);
    m.insert("a".to_string(), 3);
    assert_eq!(m.get("a"), Some(&3));
    assert_eq!(m.len(), 2);
    m.remove("a");
    assert!(!m.contains_key("a"));
    assert!(m.contains_key("b"));
}

#[test]
fn later_expressions_keep_earlier_messages() {
    let mut c = Checker::new();
    c.infer(&out(Expression::Identifier("first".to_string())));
    let said = c.messages().len();
    assert_eq!(said, 1);
    c.infer(&out(Expression::Identifier("second".to_string())));
    assert_eq!(c.messages().len(), 2);
    assert!(c.messages()[0].message().contains("first"));
    assert!(c.messages()[1].message().contains("second"));
}

#[test]
fn programs_keep_messages_that_were_there() {
    let mut c = Checker::new();
    c.infer(&out(Expression::Identifier("early".to_string())));
    let stray = out(Expression::Identifier("late".to_string()));
    c.check_program(&out(Expression::Program(vec![stray])));
    assert!(c.messages()[0].message().contains("early"));
    assert!(c.messages()[1].message().contains("late"));
}

#[test]
fn a_block_closes_its_frame() {
    let mut c = Checker::new();
    let bound = out(Expression::Variable("inner".to_string(), None));
    let value = out(Expression::Integer(1));
    let read = out(Expression::Identifier("inner".to_string()));
    let let_inner = out(Expression::Fragment(vec![bound, value]));
    let t = c.infer(&out(Expression::Block(vec![let_inner, read])));
    assert_eq!(apply_ty(c.subst(), &t), int_ty());
    assert!(c.messages().is_empty());
    assert!(c.env().lookup("inner").is_none());
}

#[test]
fn resolved_types_stay_resolved() {
    let mut s = unify_with(&Subst::empty(), &var(0), &tuple(vec![var(1), var(2)])).ok().unwrap();
    s = unify_with(&s, &var(1), &fun(var(2), var(3))).ok().unwrap();
    s = unify_with(&s, &var(2), &int_ty()).ok().unwrap();
    let once = apply_ty(&s, &var(0));
    assert_eq!(once, tuple(vec![fun(int_ty(), var(3)), int_ty()]));
    assert_eq!(apply_ty(&s, &once), once);
}

#[test]
fn the_type_of_a_program_is_resolved() {
    let mut c = Checker::new();
    let bound = out(Expression::Variable("x".to_string(), None));
    let value = out(Expression::Integer(1));
    let read = out(Expression::Identifier("x".to_string()));
    let t = c.check_program(&out(Expression::Program(vec![
        out(Expression::Fragment(vec![bound, value])),
        read,
    ])));
    assert_eq!(t, int_ty());
    assert_eq!(apply_ty(c.subst(), &t), t);
}

#[test]
fn typed_nodes_are_found_by_their_ids() {
    let mut c = Checker::new();
    let sum = out(Expression::Add(out(Expression::Integer(1)), out(Expression::Integer(2))));
    let _ = c.check_program(&out(Expression::Program(vec![sum])));
    let ids = c.id_table().ids().to_vec();
    assert_eq!(ids.len(), 4);
    for id in ids {
        assert_eq!(c.lookup_at(id), Some(int_ty()));
    }
}

#[test]
fn codegen_inference_keeps_recorded_types() {
    let mut c = Checker::new();
    let sum = out(Expression::Add(out(Expression::Integer(1)), out(Expression::Integer(2))));
    let _ = c.check_program(&out(Expression::Program(vec![sum])));
    c.out.next_id_idx = 0;
    let text = out(Expression::Group(out(Expression::String("t".to_string()))));
    assert_eq!(c.infer_for_codegen(&text), string());
    for id in c.id_table().ids().to_vec() {
        assert_eq!(c.lookup_at(id), Some(int_ty()));
    }
}

#[test]
fn a_class_named_as_a_value_is_reported_without_a_place() {
    let mut c = Checker::new();
    let bare = Output {
        span: Span { start: 4, end: 8 },
        expr: Box::new(Expression::Type("Into".to_string())),
    };
    let _ = c.infer(&bare);
    assert_eq!(c.messages().len(), 1);
    assert_eq!(c.messages()[0].range(), Span { start: 0, end: 0 });
}

#[test]
fn tables_of_ids_start_empty_and_copy() {
    let mut table = IdTable::default();
    assert!(table.is_empty());
    let first = table.push();
    let copy = table.clone();
    let second = table.push();
    assert_eq!(copy.ids().to_vec(), vec![first]);
    assert_eq!(table.ids().to_vec(), vec![first, second]);
    assert_eq!((first.raw(), second.raw()), (0, 1));
}
