use coil_typecheck::generics::{Generics, InstanceDef, TypeClassDef, TypeClassMethodDef};
use coil_typecheck::kind::Kind;
use coil_typecheck::maps::NameMap;
use coil_typecheck::ty::{float, int_ty, string, Ty, TyVarId};

fn method(name: &str, has_default: bool) -> TypeClassMethodDef {
    TypeClassMethodDef { name: name.to_string(), has_default }
}

fn class(name: &str, supers: Vec<String>, methods: Vec<TypeClassMethodDef>) -> TypeClassDef {
    TypeClassDef {
        name: name.to_string(),
        type_params: vec!["T".to_string()],
        param_kinds: vec![Kind::Type],
        superclasses: supers,
        assoc_types: vec![],
        methods,
    }
}

fn class_def() -> TypeClassDef {
    class("Num", vec![], vec![method("add", false), method("zero", true)])
}

fn instance(class: &str, args: Vec<Ty>) -> InstanceDef {
    InstanceDef {
        class: class.to_string(),
        args,
        method_fqns: NameMap::new(),
        assoc_tys: NameMap::new(),
    }
}

#[test]
fn flattened_methods_subclass_then_superclass() {
    let mut generics = Generics::new();
    generics
        .typeclasses
        .insert("Equal".to_string(), class("Equal", vec![], vec![method("eq_val", false)]));
    generics.typeclasses.insert(
        "Ordered".to_string(),
        class("Ordered", vec!["Equal".to_string()], vec![method("lt_val", false)]),
    );
    let ordered = generics.typeclass("Ordered").unwrap();
    let flat: Vec<(String, String)> = ordered
        .flattened_methods(&generics)
        .into_iter()
        .map(|(c, m)| (c.to_string(), m.name.clone()))
        .collect();
    assert_eq!(
        flat,
        vec![
            ("Ordered".to_string(), "lt_val".to_string()),
            ("Equal".to_string(), "eq_val".to_string()),
        ]
    );
    assert!(ordered.has_superclass("Equal", &generics));
    assert!(!ordered.has_superclass("Num", &generics));
}

#[test]
fn flattened_methods_visit_a_shared_superclass_once() {
    let mut generics = Generics::new();
    generics.typeclasses.insert("A".to_string(), class("A", vec![], vec![method("a", false)]));
    for (name, m) in [("B", "b"), ("C", "c")] {
        generics.typeclasses.insert(
            name.to_string(),
            class(name, vec!["A".to_string()], vec![method(m, false)]),
        );
    }
    generics.typeclasses.insert(
        "D".to_string(),
        class("D", vec!["B".to_string(), "C".to_string(), "D".to_string()], vec![method("d", true)]),
    );
    let d = generics.typeclass("D").unwrap();
    let flat: Vec<String> =
        d.flattened_methods(&generics).into_iter().map(|(_, m)| m.name.clone()).collect();
    assert_eq!(flat, vec!["d", "b", "a", "c"]);
    assert!(d.has_superclass("A", &generics));
}

#[test]
fn has_overlapping_instance_detects_exact_class_and_args() {
    let mut generics = Generics::new();
    generics.instances.clear();
    generics.instances.push(instance("Num", vec![int_ty()]));

    assert!(generics.has_overlapping_instance("Num", &[int_ty()]));
    assert!(!generics.has_overlapping_instance("Num", &[float()]));
    assert!(!generics.has_overlapping_instance("Show", &[int_ty()]));
}

#[test]
fn missing_required_methods_ignores_default_methods() {
    let mut method_fqns = NameMap::new();
    method_fqns.insert("zero".to_string(), "Num__int__zero".to_string());

    assert_eq!(
        Generics::missing_required_methods(&class_def(), &method_fqns),
        vec!["add".to_string()]
    );
}

#[test]
fn unknown_instance_methods_reports_methods_not_in_class() {
    let unknown = Generics::unknown_instance_methods(&class_def(), &["add", "foo"]);

    assert_eq!(unknown, vec!["foo".to_string()]);
}

#[test]
fn fill_default_method_fqns_registers_omitted_defaults() {
    let mut method_fqns = NameMap::new();
    method_fqns.insert("add".to_string(), "Num__int__add".to_string());

    Generics::fill_default_method_fqns(&class_def(), &mut method_fqns);

    assert_eq!(method_fqns.get("add").unwrap(), "Num__int__add");
    assert_eq!(method_fqns.get("zero").unwrap(), "Num__default__zero");
}

#[test]
fn find_instance_matches_multi_arg_class() {
    let mut generics = Generics::new();
    let mut convert = instance("Convert", vec![int_ty(), int_ty()]);
    convert.method_fqns.insert("cast".to_string(), "Convert__int_int__cast".to_string());
    generics.instances.push(convert);

    assert!(generics.find_instance("Convert", &[int_ty(), int_ty()]).is_some());
    assert!(generics.find_instance("Convert", &[int_ty(), float()]).is_none());
    assert!(generics.find_instance("Convert", &[int_ty()]).is_none());
}

#[test]
fn relaxed_search_unifies_the_arguments() {
    let mut generics = Generics::new();
    generics.instances.clear();
    let v = Ty::Var(TyVarId(7));
    generics.instances.push(instance("Box", vec![Ty::Tuple(vec![v, int_ty()])]));
    let want = [Ty::Tuple(vec![string(), int_ty()])];
    assert!(generics.find_instance("Box", &want).is_none());
    assert!(generics.find_instance_relaxed("Box", &want).is_some());
    let other = [Ty::Tuple(vec![string(), string()])];
    assert!(generics.find_instance_relaxed("Box", &other).is_none());
}

#[test]
fn prelude_into_trait_is_registered() {
    let g = Generics::new();
    assert!(g.typeclass("From").is_none(), "From must not be registered");
    let into = g.typeclass("Into").expect("Into");
    assert_eq!(into.type_params, vec!["Self".to_string(), "T".to_string()]);
    assert_eq!(into.methods.len(), 1);
    assert_eq!(into.methods[0].name, "into");
}

#[test]
fn builtin_instances_name_their_functions() {
    let g = Generics::new();
    assert!(g.has_instance("Num", &int_ty()));
    assert!(!g.has_instance("Num", &string()));
    let show = g.find_instance("Show", &[int_ty()]).unwrap();
    assert_eq!(show.method_fqns.get("show").unwrap(), "Show__int__show");
}
