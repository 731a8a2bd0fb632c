//! What classes and their instances leave behind, and what is refused of them.
use crate::ast::{Expression, Output, TypeParam};
use crate::env::SchemeV;
use crate::generics::{self, ClassV, MethodV};
use crate::infer::CheckerV;
use crate::infer::traits::{self, InstFrameV};
use crate::infer::kinds;
use crate::kind::Kind;
use crate::report::{ErrorCode, Span};
use crate::text;
use crate::tree::{Head, Tree};
use crate::ty::TyVarId;
use vstd::prelude::*;

verus! {

/// A class whose name is taken is reported and leaves the classes as they are.
pub proof fn second_classes_are_refused(
    c: CheckerV,
    name: Seq<char>,
    params: Seq<TypeParam>,
    methods: Seq<Output>,
    range: Span,
)
    requires
        ({
            let b = c.class_members(name, methods, 0, Seq::empty(), Seq::empty()).0;
            b.reg.generics.typeclasses.contains_key(name) && (!traits::builtin_class(name)
                || b.scope.bindings.contains_key(name))
        }),
    ensures
        ({
            let b = c.class_members(name, methods, 0, Seq::empty(), Seq::empty()).0;
            let (d, f) = c.open_class(name, params, methods, range);
            &&& f is None
            &&& d.messages.len() == b.messages.len() + 1
            &&& d.messages.last().range == range
            &&& d.reg == b.reg
        }),
{
}

/// A class is kept with its type parameters, their kinds, the classes above it
/// and its own members.
pub proof fn classes_are_kept(c: CheckerV, name: Seq<char>, def: ClassV, other: Seq<char>)
    ensures
        c.add_class(name, def).reg.generics.typeclasses.contains_key(name),
        c.add_class(name, def).reg.generics.typeclasses[name] == def,
        c.add_class(name, def).reg.generics.class_modules.contains_key(name),
        c.add_class(name, def).reg.generics.class_modules[name] == c.scope.module,
        other != name ==> (c.add_class(name, def).reg.generics.typeclasses.contains_key(other)
            <==> c.reg.generics.typeclasses.contains_key(other)),
        other != name && c.reg.generics.typeclasses.contains_key(other) ==> c.add_class(
            name,
            def,
        ).reg.generics.typeclasses[other] == c.reg.generics.typeclasses[other],
        c.add_class(name, def).messages == c.messages,
{
}

/// The classes above a class of one parameter are the bounds of that parameter.
pub proof fn superclasses_are_the_bounds(params: Seq<TypeParam>, i: int)
    ensures
        params.len() == 1 ==> traits::super_names(params).len() == params[0].bounds@.len(),
        params.len() == 1 && 0 <= i < params[0].bounds@.len() ==> traits::super_names(params)[i]
            == params[0].bounds@[i]@,
        params.len() != 1 ==> traits::super_names(params).len() == 0,
{
}

/// A method scheme is found under its class and name.
pub proof fn method_schemes_are_kept(
    c: CheckerV,
    class: Seq<char>,
    method: Seq<char>,
    scheme: SchemeV,
    other: (Seq<char>, Seq<char>),
)
    ensures
        c.add_method_scheme(class, method, scheme).reg.method_schemes.contains_key((class, method)),
        c.add_method_scheme(class, method, scheme).reg.method_schemes[(class, method)] == scheme,
        other != (class, method) ==> (c.add_method_scheme(
            class,
            method,
            scheme,
        ).reg.method_schemes.contains_key(other) <==> c.reg.method_schemes.contains_key(other)),
        c.add_method_scheme(class, method, scheme).messages == c.messages,
{
}

/// A method of a class is generic in the class's own variables, which come first,
/// and asks for an instance of the class on them.
pub proof fn method_schemes_ask_for_the_class(
    c: CheckerV,
    class: Seq<char>,
    vars: Seq<TyVarId>,
    kinds: Seq<Kind>,
    params: Seq<TypeParam>,
    args: Output,
    declared: Option<Output>,
    k: int,
)
    ensures
        ({
            let s = c.method_signature(class, vars, kinds, params, args, declared).1;
            &&& s.constraints.len() == 1
            &&& s.constraints[0] is Node && s.constraints[0].head() == Head::Pred(class)
            &&& s.constraints[0].kids().len() == vars.len()
            &&& 0 <= k < vars.len() ==> s.constraints[0].kids()[k] == Tree::Var(vars[k])
            &&& s.bounds.len() >= vars.len()
            &&& 0 <= k < vars.len() ==> s.bounds[k] == vars[k]
        }),
{
}

/// An instance of a class that is not there is reported, and none is added.
pub proof fn instances_of_unknown_classes_are_refused(
    c: CheckerV,
    class: Seq<char>,
    exprs: Seq<Output>,
    args: Seq<Tree>,
    methods: Seq<Output>,
    range: Span,
)
    requires
        !c.reg.generics.typeclasses.contains_key(class),
    ensures
        c.open_instance(class, exprs, args, methods, range).0.messages.len() > c.messages.len(),
        c.open_instance(class, exprs, args, methods, range).0.messages[c.messages.len() as int].range
            == range,
        c.open_instance(class, exprs, args, methods, range).1.stub is None,
        c.open_instance(class, exprs, args, methods, range).0.reg == c.reg,
{
    let d = c.say(ErrorCode::GenericTypeError, "Unknown trait `"@ + class + "`"@, range);
    assert(d.messages[c.messages.len() as int].range == range);
}

proof fn overlap_from(c: CheckerV, class: Seq<char>, args: Seq<Tree>, at: nat)
    ensures
        match c.overlapping(class, args, at) {
            Some(i) => at <= i < c.reg.generics.instances.len()
                && c.reg.generics.instances[i as int].class == class
                && c.reg.generics.instances[i as int].args == args,
            None => forall|i: int|
                at <= i < c.reg.generics.instances.len() ==> !((
                #[trigger] c.reg.generics.instances[i]).class == class
                    && c.reg.generics.instances[i].args == args),
        },
    decreases c.reg.generics.instances.len() - at,
{
    if at < c.reg.generics.instances.len() {
        overlap_from(c, class, args, at + 1);
    }
}

/// A second instance of a class for the same types is found.
pub proof fn overlapping_instances_are_found(c: CheckerV, class: Seq<char>, args: Seq<Tree>)
    ensures
        c.overlapping(class, args, 0) is Some <==> exists|i: int|
            0 <= i < c.reg.generics.instances.len() && (
            #[trigger] c.reg.generics.instances[i]).class == class
                && c.reg.generics.instances[i].args == args,
{
    overlap_from(c, class, args, 0);
    if let Some(i) = c.overlapping(class, args, 0) {
        assert(c.reg.generics.instances[i as int].class == class);
    }
}

proof fn heads_keep_registry(c: CheckerV, def: ClassV, args: Seq<Tree>, range: Span, at: nat)
    ensures
        c.validate_instance_head_kinds(def, args, range, at).reg == c.reg,
        c.validate_instance_head_kinds(def, args, range, at).scope == c.scope,
        c.validate_instance_head_kinds(def, args, range, at).subst == c.subst,
        c.messages.is_prefix_of(c.validate_instance_head_kinds(def, args, range, at).messages),
    decreases args.len() - at,
{
    if at < args.len() {
        let want = def.kind_at(at as int);
        let t = args[at as int];
        let actual = c.kind_of_type_argument(t);
        let d = if !(want is Arrow) {
            c
        } else if t is Node && t.head() is App {
            c.say(
                ErrorCode::GenericTypeError,
                "Instance of constructor-kinded class `"@ + def.name
                    + "` expects a type constructor (kind `"@ + want.text_spec()
                    + "`) as argument "@ + text::decimal(at + 1) + ", found applied type `"@
                    + t.text() + "`"@,
                range,
            )
        } else if actual != want {
            c.say(
                ErrorCode::GenericTypeError,
                "Instance of constructor-kinded class `"@ + def.name + "` expects argument "@
                    + text::decimal(at + 1) + " to have kind `"@ + want.text_spec()
                    + "`, found kind `"@ + actual.text_spec() + "`"@,
                range,
            )
        } else {
            c
        };
        heads_keep_registry(d, def, args, range, at + 1);
    }
}

/// An instance is added only where its class is known, the module may give it and
/// no other one is there for the same types; it then comes last, with its class
/// and types. Otherwise it is reported, and none is added.
pub proof fn accepted_instances_are_added_last(
    c: CheckerV,
    class: Seq<char>,
    exprs: Seq<Output>,
    args: Seq<Tree>,
    methods: Seq<Output>,
    range: Span,
)
    requires
        c.reg.generics.typeclasses.contains_key(class),
        c.reg.generics.instances.len() <= usize::MAX,
    ensures
        ({
            let (d, f) = c.open_instance(class, exprs, args, methods, range);
            let before = c.reg.generics.instances;
            let twice = exists|i: int|
                0 <= i < before.len() && (#[trigger] before[i]).class == class && before[i].args
                    == args;
            let allowed = c.instance_satisfies_orphan_rule(class, exprs, args);
            &&& allowed && !twice ==> d.reg.generics.instances.len() == before.len() + 1
                && d.reg.generics.instances.drop_last() == before
                && d.reg.generics.instances.last().class == class
                && d.reg.generics.instances.last().args == args && f.stub == Some(
                before.len() as usize,
            )
            &&& !allowed || twice ==> d.reg.generics.instances == before && f.stub is None
                && d.messages.len() > c.messages.len()
            &&& f.args == args
            &&& f.def == Some(c.reg.generics.typeclasses[class])
        }),
{
    let def = c.reg.generics.typeclasses[class];
    heads_keep_registry(c, def, args, range, 0);
    let b = c.validate_instance_head_kinds(def, args, range, 0);
    assert(b.instance_satisfies_orphan_rule(class, exprs, args)
        == c.instance_satisfies_orphan_rule(class, exprs, args)) by {
        assert forall|i: int| 0 <= i < tys_len(exprs, args) implies b.resolve(
            #[trigger] args[i],
        ) == c.resolve(args[i]) by {}
        assert forall|n: Option<Seq<char>>| b.owns_type(n) == #[trigger] c.owns_type(n) by {}
    }
    let e = if c.instance_satisfies_orphan_rule(class, exprs, args) {
        b
    } else {
        b.report(b.orphan(class, args, range))
    };
    assert(e.reg == c.reg);
    overlapping_instances_are_found(e, class, args);
    let d = c.open_instance(class, exprs, args, methods, range).0;
    if c.instance_satisfies_orphan_rule(class, exprs, args) && e.overlapping(class, args, 0)
        is None {
        assert(d.reg.generics.instances.drop_last() =~= c.reg.generics.instances);
    }
}

spec fn tys_len(exprs: Seq<Output>, args: Seq<Tree>) -> nat {
    if exprs.len() < args.len() {
        exprs.len()
    } else {
        args.len()
    }
}

/// A module may give instances of its own classes.
pub proof fn own_classes_may_have_instances(
    c: CheckerV,
    class: Seq<char>,
    exprs: Seq<Output>,
    args: Seq<Tree>,
)
    requires
        c.reg.generics.class_modules.contains_key(class),
        c.reg.generics.class_modules[class] == c.scope.module,
    ensures
        c.instance_satisfies_orphan_rule(class, exprs, args),
{
}

/// A module may not give an instance of another module's class for a type that is
/// not its own.
pub proof fn foreign_instances_are_refused(
    c: CheckerV,
    class: Seq<char>,
    exprs: Seq<Output>,
    args: Seq<Tree>,
    name: String,
    i: int,
)
    requires
        !(c.reg.generics.class_modules.contains_key(class)
            && c.reg.generics.class_modules[class] == c.scope.module),
        0 <= i < exprs.len(),
        i < args.len(),
        *exprs[i].expr == Expression::Type(name),
        args[i].subst(c.subst) is Node,
        !(c.reg.generics.nominal_type_modules.contains_key(
            kinds::ctor_name(name@),
        ) && c.reg.generics.nominal_type_modules[kinds::ctor_name(name@)]
            == c.scope.module),
    ensures
        !c.instance_satisfies_orphan_rule(class, exprs, args),
{
    assert(!(c.resolve(args[i]) is Var));
}

proof fn each_is_said(
    c: CheckerV,
    names: Seq<Seq<char>>,
    before: Seq<char>,
    after: Seq<char>,
    range: Span,
    at: nat,
)
    requires
        at <= names.len(),
    ensures
        ({
            let d = c.say_each(names, before, after, range, at);
            &&& d == (CheckerV { messages: d.messages, ..c })
            &&& d.messages.len() == c.messages.len() + names.len() - at
        }),
    decreases names.len() - at,
{
    if at < names.len() {
        each_is_said(
            c.say(ErrorCode::GenericTypeError, before + names[at as int] + after, range),
            names,
            before,
            after,
            range,
            at + 1,
        );
    }
}

proof fn missing_is_found(methods: Seq<MethodV>, fqns: Map<Seq<char>, Seq<char>>, i: int)
    requires
        0 <= i < methods.len(),
        !methods[i].has_default,
        !fqns.contains_key(methods[i].name),
    ensures
        generics::missing_methods(methods, fqns).len() > 0,
    decreases methods.len(),
{
    if i < methods.len() - 1 {
        assert(methods.drop_last()[i] == methods[i]);
        missing_is_found(methods.drop_last(), fqns, i);
    }
}

proof fn unknown_is_found(names: Seq<Seq<char>>, known: Seq<Seq<char>>, i: int)
    requires
        0 <= i < names.len(),
        !known.contains(names[i]),
    ensures
        generics::unknown_names(names, known).len() > 0,
    decreases names.len(),
{
    if i < names.len() - 1 {
        assert(names.drop_last()[i] == names[i]);
        unknown_is_found(names.drop_last(), known, i);
    }
}

/// An instance that has a method which its class does not declare, or that had a
/// fault before, is not complete: it is left without class and types, so that it
/// answers for nothing, and the made-up method is reported.
pub proof fn faulty_instances_answer_for_nothing(
    c: CheckerV,
    f: InstFrameV,
    class: Seq<char>,
    def: ClassV,
    range: Span,
    i: int,
)
    requires
        f.def == Some(def),
        f.stub matches Some(s) && s < c.reg.generics.instances.len(),
        f.faulty || (0 <= i < f.names.len() && forall|j: int|
            0 <= j < def.methods.len() ==> (#[trigger] def.methods[j]).name != f.names[i]),
    ensures
        ({
            let d = c.close_instance(f, class, range);
            let inst = d.reg.generics.instances[f.stub.unwrap() as int];
            &&& inst.class.len() == 0
            &&& inst.args.len() == 0
            &&& inst.method_fqns =~= Map::empty()
            &&& !f.faulty ==> d.messages.len() > c.messages.len()
        }),
{
    checked_instances_only_speak(c, f, class, def, range);
    if !f.faulty {
        let known = generics::method_names(def.methods);
        assert(!known.contains(f.names[i])) by {
            if known.contains(f.names[i]) {
                let j = choose|j: int| 0 <= j < known.len() && known[j] == f.names[i];
                assert(def.methods[j].name == f.names[i]);
            }
        }
        unknown_is_found(f.names, known, i);
    }
}

proof fn checked_instances_only_speak(
    c: CheckerV,
    f: InstFrameV,
    class: Seq<char>,
    def: ClassV,
    range: Span,
)
    ensures
        ({
            let d = c.check_instance(f, class, def, range).0;
            &&& d == (CheckerV { messages: d.messages, ..c })
            &&& d.messages.len() >= c.messages.len() + generics::unknown_names(
                f.names,
                generics::method_names(def.methods),
            ).len()
        }),
{
    let pretty = Tree::join_text(f.args);
    let supers = traits::missing_supers(
        c.reg.generics,
        f.args,
        def.superclasses,
        Set::empty(),
        Seq::empty(),
    );
    let unknown = generics::unknown_names(f.names, generics::method_names(def.methods));
    let unknown_assocs = generics::unknown_names(
        f.assoc_names,
        generics::assoc_names(def.assoc_types),
    );
    let s1 = "Instance of `"@ + class + "` for `"@ + pretty + "` requires superclass instance `"@;
    let s2 = "<"@ + pretty + ">`"@;
    let s3 = "` in instance of `"@ + class + "`"@;
    each_is_said(c, supers, s1, s2, range, 0);
    let a = c.say_each(supers, s1, s2, range, 0);
    each_is_said(a, unknown, "Unknown method `"@, s3, range, 0);
    let b = a.say_each(unknown, "Unknown method `"@, s3, range, 0);
    each_is_said(b, unknown_assocs, "Unknown associated type `"@, s3, range, 0);
}

/// An instance is complete just where every declared method has an
/// implementation or a default, nothing is made up, and all that is above it is
/// there; it then keeps its class and types and has a name for every method.
pub proof fn complete_instances_have_every_method(
    c: CheckerV,
    f: InstFrameV,
    class: Seq<char>,
    def: ClassV,
    range: Span,
    i: int,
)
    requires
        0 <= i < def.methods.len(),
        c.check_instance(f, class, def, range).2,
    ensures
        c.check_instance(f, class, def, range).1.contains_key(def.methods[i].name),
        f.fqns.contains_key(def.methods[i].name) ==> c.check_instance(f, class, def, range).1[
            def.methods[i].name
        ] == f.fqns[def.methods[i].name],
{
    let fqns = generics::with_defaults(def.name, def.methods, f.fqns);
    generics::defaults_fill_the_gaps(def.name, def.methods, f.fqns);
    if !def.methods[i].has_default && !fqns.contains_key(def.methods[i].name) {
        missing_is_found(def.methods, fqns, i);
    }
}

} // verus!
