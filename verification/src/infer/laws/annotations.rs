//! Which types annotations stand for.
use crate::ast::{Expression, Output};
use crate::infer::annotations as reading;
use crate::infer::laws::typing;
use crate::infer::CheckerV;
use crate::infer::{calls, kinds};
use crate::kind::Kind;
use crate::report::{ErrorCode, Span};
use crate::text;
use crate::tree::{ArrayLength, Head, Tree};
use crate::ty::TyVarId;
use crate::{generics, soundness};
use vstd::prelude::*;

verus! {

/// No type parameter and no alias has that name.
pub open spec fn free_name(c: CheckerV, name: Seq<char>) -> bool {
    &&& forall|i: int|
        0 <= i < c.scope.type_params.len() ==> !(#[trigger] c.scope.type_params[i]).contains_key(
            name,
        )
    &&& forall|i: int|
        0 <= i < c.scope.type_aliases.len() ==> !(#[trigger] c.scope.type_aliases[i]).contains_key(
            name,
        )
}

proof fn nowhere<V>(frames: Seq<Map<Seq<char>, V>>, name: Seq<char>)
    requires
        forall|i: int| 0 <= i < frames.len() ==> !(#[trigger] frames[i]).contains_key(name),
    ensures
        kinds::innermost(frames, name) is None,
    decreases frames.len(),
{
    if frames.len() > 0 {
        assert(frames[frames.len() - 1] == frames.last());
        nowhere(frames.drop_last(), name);
    }
}

proof fn inside<V>(frames: Seq<Map<Seq<char>, V>>, name: Seq<char>, i: int)
    requires
        0 <= i < frames.len(),
        frames[i].contains_key(name),
        forall|j: int| i < j < frames.len() ==> !(#[trigger] frames[j]).contains_key(name),
    ensures
        kinds::innermost(frames, name) == Some(frames[i][name]),
    decreases frames.len(),
{
    if i < frames.len() - 1 {
        assert(!frames[frames.len() - 1].contains_key(name));
        inside(frames.drop_last(), name, i);
    }
}

/// A type parameter stands for its variable, in the innermost frame that has it;
/// where no parameter has the name, an alias stands for its type.
pub proof fn parameters_and_aliases_stand_for_their_types(
    c: CheckerV,
    name: Seq<char>,
    range: Span,
    i: int,
)
    ensures
        0 <= i < c.scope.type_params.len() && c.scope.type_params[i].contains_key(name) && (forall|
            j: int,
        |
            i < j < c.scope.type_params.len() ==> !(
            #[trigger] c.scope.type_params[j]).contains_key(name)) ==> c.parse_type_name_str(
            name,
            range,
        ) == (c, Tree::Var(c.scope.type_params[i][name])),
        (forall|j: int|
            0 <= j < c.scope.type_params.len() ==> !(
            #[trigger] c.scope.type_params[j]).contains_key(name)) && 0 <= i
            < c.scope.type_aliases.len() && c.scope.type_aliases[i].contains_key(name) && (forall|
            j: int,
        |
            i < j < c.scope.type_aliases.len() ==> !(
            #[trigger] c.scope.type_aliases[j]).contains_key(name)) ==> c.parse_type_name_str(
            name,
            range,
        ) == (c, c.scope.type_aliases[i][name]),
{
    if 0 <= i < c.scope.type_params.len() && c.scope.type_params[i].contains_key(name) && (forall|
        j: int,
    |
        i < j < c.scope.type_params.len() ==> !(#[trigger] c.scope.type_params[j]).contains_key(
            name,
        )) {
        inside(c.scope.type_params, name, i);
    }
    if forall|j: int|
        0 <= j < c.scope.type_params.len() ==> !(#[trigger] c.scope.type_params[j]).contains_key(
            name,
        ) {
        nowhere(c.scope.type_params, name);
        if 0 <= i < c.scope.type_aliases.len() && c.scope.type_aliases[i].contains_key(name) && (
        forall|j: int|
            i < j < c.scope.type_aliases.len() ==> !(
            #[trigger] c.scope.type_aliases[j]).contains_key(name)) {
            inside(c.scope.type_aliases, name, i);
        }
    }
}

/// The names of the built-in types stand for them, in any case of letters.
pub proof fn built_in_names_stand_for_their_types(c: CheckerV, name: Seq<char>, range: Span)
    requires
        free_name(c, name),
    ensures
        text::lowered(name) == "int"@ ==> c.parse_type_name_str(name, range) == (
            c,
            typing::named("int"@),
        ),
        text::lowered(name) == "float"@ ==> c.parse_type_name_str(name, range) == (
            c,
            typing::named("float"@),
        ),
        text::lowered(name) == "bool"@ ==> c.parse_type_name_str(name, range) == (
            c,
            typing::named("bool"@),
        ),
        text::lowered(name) == "byte"@ ==> c.parse_type_name_str(name, range) == (
            c,
            typing::named("byte"@),
        ),
        text::lowered(name) == "string"@ ==> c.parse_type_name_str(name, range) == (
            c,
            typing::named("string"@),
        ),
        text::lowered(name) == "void"@ ==> c.parse_type_name_str(name, range) == (
            c,
            typing::named("unit"@),
        ),
        text::lowered(name) == "stream"@ ==> c.parse_type_name_str(name, range) == (
            c,
            typing::named("Stream"@),
        ),
        text::lowered(name) == "ioerror"@ ==> c.parse_type_name_str(name, range) == (
            c,
            typing::named("IoError"@),
        ),
{
    nowhere(c.scope.type_params, name);
    nowhere(c.scope.type_aliases, name);
    reveal_strlit("int");
    reveal_strlit("float");
    reveal_strlit("bool");
    reveal_strlit("byte");
    reveal_strlit("string");
    reveal_strlit("void");
    reveal_strlit("stream");
    reveal_strlit("option");
    reveal_strlit("result");
    reveal_strlit("ioerror");
    assert("void"@[0] == 'v');
    assert("int"@[0] == 'i' && "int"@.len() == 3);
    assert("float"@[0] == 'f');
    assert("bool"@[1] == 'o');
    assert("byte"@[1] == 'y');
    assert("string"@[2] == 'r' && "string"@.len() == 6);
    assert("stream"@[3] == 'e');
    assert("string"@[3] == 'i');
    assert("ioerror"@.len() == 7);
    assert("option"@[0] == 'o');
    assert("result"@[0] == 'r');
}

/// A class of values, an enum or a type that nothing else is known of stands by
/// its own name; a class of one plain type stands for any value of it, and any
/// other class cannot stand for values.
pub proof fn declared_names_stand_for_themselves(c: CheckerV, name: Seq<char>, range: Span)
    ensures
        c.reg.classes.contains_key(name) || c.reg.enums.contains_key(name)
            || !c.reg.generics.typeclasses.contains_key(name) ==> c.declared_type(name, range) == (
            c,
            typing::named(name),
        ),
        ({
            let g = c.reg.generics;
            let only_class = g.typeclasses.contains_key(name) && !c.reg.classes.contains_key(name)
                && !c.reg.enums.contains_key(name) && !g.generic_type_ctors.contains_key(name)
                && !g.nominal_type_modules.contains_key(name);
            let def = g.typeclasses[name];
            let plain = def.type_params.len() == 1 && (def.param_kinds.len() == 0
                || def.param_kinds[0] is Type);
            &&& only_class && plain ==> c.declared_type(name, range) == (
                c,
                Tree::Node(Head::Existential(name), Seq::empty()),
            )
            &&& only_class && !plain ==> typing::complained(
                c,
                c.declared_type(name, range).0,
                range,
            )
        }),
{
}

/// The annotation of a function type, a tuple or an array is read part by part.
pub proof fn composite_annotations_are_read_by_parts(
    c: CheckerV,
    ann: Output,
    a: Output,
    r: Output,
    items: Vec<Output>,
)
    ensures
        *ann.expr == Expression::TypeFun(a, r) ==> {
            let (b, t) = c.parse_type_name(a);
            let (d, u) = b.parse_type_name(r);
            c.parse_type_name(ann) == (d, Tree::Node(Head::Fun, seq![t, u]))
        },
        *ann.expr == Expression::Tuple(items) ==> c.parse_type_name(ann) == (
            c.parse_type_names(items@, 0, Seq::empty()).0,
            Tree::Node(Head::Tuple, c.parse_type_names(items@, 0, Seq::empty()).1),
        ),
        *ann.expr == Expression::Array(items) && items@.len() == 1 && !(*items@[0].expr is Integer)
            ==> c.parse_type_name(ann) == (
            c.parse_type_name(items@[0]).0,
            Tree::Node(
                Head::Array(ArrayLength::Dynamic),
                seq![c.parse_type_name(items@[0]).1],
            ),
        ),
{
}

/// An array annotation with a length stands for arrays of that length.
pub proof fn annotated_lengths_are_kept(c: CheckerV, ann: Output, items: Vec<Output>, n: i64)
    requires
        *ann.expr == Expression::Array(items),
        items@.len() == 2,
        *items@[1].expr == Expression::Integer(n),
        0 <= n <= usize::MAX,
    ensures
        c.parse_type_name(ann) == (
            c.parse_type_name(items@[0]).0,
            Tree::Node(
                Head::Array(ArrayLength::Static(n as usize)),
                seq![c.parse_type_name(items@[0]).1],
            ),
        ),
{
    assert(items@.last() == items@[1]);
}

proof fn names_from(c: CheckerV, items: Seq<Output>, e: Output, at: nat, acc: Seq<Tree>)
    requires
        at <= items.len(),
    ensures
        ({
            let (d, ts) = c.parse_type_names(items, at, acc);
            let (f, t) = d.parse_type_name(e);
            c.parse_type_names(items.push(e), at, acc) == (f, ts.push(t))
        }),
        c.parse_type_names(items, at, acc).1.len() == acc.len() + items.len() - at,
    decreases items.len() - at,
{
    let more = items.push(e);
    if at < items.len() {
        assert(more[at as int] == items[at as int]);
        let (d, t) = c.parse_type_name(items[at as int]);
        names_from(d, items, e, at + 1, acc.push(t));
    } else {
        assert(more[at as int] == e);
        let (d, t) = c.parse_type_name(e);
        assert(d.parse_type_names(more, at + 1, acc.push(t)) == (d, acc.push(t)));
    }
}

/// The annotations of a list are read from left to right, one type for each.
pub proof fn annotations_are_read_in_turn(c: CheckerV, items: Seq<Output>, e: Output)
    ensures
        ({
            let (d, ts) = c.parse_type_names(items, 0, Seq::empty());
            let (f, t) = d.parse_type_name(e);
            &&& c.parse_type_names(items.push(e), 0, Seq::empty()) == (f, ts.push(t))
            &&& ts.len() == items.len()
        }),
        c.parse_type_names(Seq::empty(), 0, Seq::empty()) == (c, Seq::<Tree>::empty()),
{
    names_from(c, items, e, 0, Seq::empty());
}

proof fn filled_by_place(vars: Seq<TyVarId>, trees: Seq<Tree>, n: nat, k: int)
    requires
        vars.no_duplicates(),
        0 <= k < n <= vars.len(),
        n <= trees.len(),
    ensures
        reading::zip_map(vars, trees, n).contains_key(vars[k]),
        reading::zip_map(vars, trees, n)[vars[k]] == trees[k],
    decreases n,
{
    if k < n - 1 {
        filled_by_place(vars, trees, (n - 1) as nat, k);
        assert(vars[k] != vars[n - 1]);
    }
}

/// A generic alias, a type constructor or an unknown name is applied to its
/// arguments. The number of arguments has to be the declared one, and an unknown
/// name is reported.
pub proof fn applied_types_take_their_arguments(
    c: CheckerV,
    name: Seq<char>,
    args: Seq<Tree>,
    range: Span,
    k: int,
)
    requires
        c.ctx.typeclass is None,
        forall|i: int|
            0 <= i < c.scope.type_params.len() ==> !(
            #[trigger] c.scope.type_params[i]).contains_key(name),
    ensures
        ({
            let (d, t) = c.apply_type_ctor(name, args, range);
            let aliases = c.scope.generic_aliases;
            let ctors = c.reg.generics.generic_type_ctors;
            &&& aliases.contains_key(name) ==> {
                let def = aliases[name];
                &&& def.params.len() == args.len() ==> d == c
                &&& def.params.len() != args.len() ==> typing::complained(c, d, range)
                &&& def.param_vars.no_duplicates() && def.param_vars.len() == args.len() && 0 <= k
                    < args.len() && def.body == Tree::Var(def.param_vars[k]) ==> t == args[k]
            }
            &&& !aliases.contains_key(name) ==> t == Tree::Node(
                Head::App,
                seq![typing::named(name)] + args,
            )
            &&& !aliases.contains_key(name) && ctors.contains_key(name) && ctors[name].len()
                == args.len() ==> d == c
            &&& !aliases.contains_key(name) && (!ctors.contains_key(name) || ctors[name].len()
                != args.len()) ==> typing::complained(c, d, range)
        }),
{
    nowhere(c.scope.type_params, name);
    if c.scope.generic_aliases.contains_key(name) {
        let def = c.scope.generic_aliases[name];
        if def.param_vars.no_duplicates() && def.param_vars.len() == args.len() && 0 <= k
            < args.len() {
            filled_by_place(def.param_vars, args, args.len(), k);
        }
    }
    assert(Tree::app(typing::named(name), args).kids() =~= seq![typing::named(name)] + args);
}

/// A bound by a class asks for an instance of it on the bounded type; a bound by
/// an unknown name is reported.
pub proof fn bounds_ask_for_instances(c: CheckerV, bound: Seq<char>, arg: Tree, range: Span)
    requires
        forall|i: int|
            0 <= i < c.scope.type_params.len() ==> !(
            #[trigger] c.scope.type_params[i]).contains_key(bound),
    ensures
        c.reg.generics.typeclasses.contains_key(bound) ==> c.constraint_from_bound(
            bound,
            arg,
            range,
        ) == (c, Some(Tree::Node(Head::Pred(bound), seq![arg]))),
        !c.reg.generics.typeclasses.contains_key(bound) ==> c.constraint_from_bound(
            bound,
            arg,
            range,
        ).1 is None && typing::complained(
            c,
            c.constraint_from_bound(bound, arg, range).0,
            range,
        ),
{
    nowhere(c.scope.type_params, bound);
}

/// A variable has the kind that was set for it, and any other the kind that it
/// had; one for which none was set is a plain type.
pub proof fn kinds_are_kept(c: CheckerV, v: TyVarId, w: TyVarId, k: Kind)
    ensures
        c.set_var_kind(v, k).kind_of_var(v) == k,
        w != v ==> c.set_var_kind(v, k).kind_of_var(w) == c.kind_of_var(w),
        !c.scope.var_kinds.contains_key(v) ==> c.kind_of_var(v) == Kind::Type,
{
}

/// A type parameter is applied only to as many arguments as its kind takes.
pub proof fn applied_parameters_have_arguments(
    c: CheckerV,
    name: Seq<char>,
    head: Kind,
    args: Seq<Tree>,
    range: Span,
)
    ensures
        !(head is Arrow) ==> typing::complained(
            c,
            c.check_type_app_kind(name, head, args, range),
            range,
        ),
        head is Arrow && head.args_spec().len() != args.len() ==> typing::complained(
            c,
            c.check_type_app_kind(name, head, args, range),
            range,
        ),
{
}

proof fn kinds_from(
    c: CheckerV,
    name: Seq<char>,
    expected: Seq<Kind>,
    args: Seq<Tree>,
    range: Span,
    at: nat,
)
    requires
        at <= args.len() <= expected.len(),
    ensures
        ({
            let d = c.check_arg_kinds(name, expected, args, range, at);
            &&& d == (CheckerV { messages: d.messages, ..c })
            &&& d.messages.len() >= c.messages.len()
            &&& d.messages.len() == c.messages.len() <==> forall|i: int|
                at <= i < args.len() ==> c.kind_of_type_argument(#[trigger] args[i]) == expected[i]
        }),
    decreases args.len() - at,
{
    if at < args.len() {
        let actual = c.kind_of_type_argument(args[at as int]);
        let want = expected[at as int];
        let d = if actual != want {
            c.say(
                ErrorCode::GenericTypeError,
                "Type argument "@ + text::decimal(at + 1) + " to `"@ + name + "` has kind `"@
                    + actual.text_spec() + "`, expected `"@ + want.text_spec() + "`"@,
                range,
            )
        } else {
            c
        };
        kinds_from(d, name, expected, args, range, at + 1);
        assert forall|i: int| at <= i < args.len() implies d.kind_of_type_argument(
            #[trigger] args[i],
        ) == c.kind_of_type_argument(args[i]) by {}
    }
}

/// Every type argument is of the kind that is asked for at its place, or a
/// message says so.
pub proof fn argument_kinds_are_checked(
    c: CheckerV,
    name: Seq<char>,
    expected: Seq<Kind>,
    args: Seq<Tree>,
    range: Span,
)
    requires
        args.len() <= expected.len(),
    ensures
        c.check_arg_kinds(name, expected, args, range, 0).messages.len() == c.messages.len()
            <==> forall|i: int|
            0 <= i < args.len() ==> c.kind_of_type_argument(#[trigger] args[i]) == expected[i],
        c.check_arg_kinds(name, expected, args, range, 0).subst == c.subst,
{
    kinds_from(c, name, expected, args, range, 0);
}

/// A format specifier takes values of its own type only: `%i` and its kin `int`
/// or `byte`, `%f` `float`, `%s` `string`, `%z` `bool`. A value of another type is
/// reported where it stands.
pub proof fn specifiers_take_their_types(
    c: CheckerV,
    spec: char,
    name: Seq<char>,
    range: Span,
    ctx: Seq<char>,
    at: usize,
)
    requires
        spec != 'v',
    ensures
        ({
            let d = c.check_format_arg(spec, typing::named(name), range, ctx, at);
            let whole = spec == 'i' || spec == 'b' || spec == 'x' || spec == 'u' || spec == 'p';
            let fits = (whole && (name == "int"@ || name == "byte"@)) || (spec == 'f' && name
                == "float"@) || (spec == 's' && name == "string"@) || (spec == 'z' && name
                == "bool"@);
            &&& fits ==> d == c
            &&& !fits ==> typing::complained(c, d, range) && d.messages.last().code
                == ErrorCode::FormatSpecifierMismatch
        }),
{
}

/// A value that is still open is made one of the specifier's type, unless it is of
/// a type parameter, which only `%v` can print.
pub proof fn open_values_take_the_specifiers_type(
    c: CheckerV,
    spec: char,
    v: TyVarId,
    range: Span,
    ctx: Seq<char>,
    at: usize,
)
    requires
        spec == 'i' || spec == 'd' || spec == 'f' || spec == 's' || spec == 'z',
    ensures
        ({
            let d = c.check_format_arg(spec, Tree::Var(v), range, ctx, at);
            let want = typing::named(
                if spec == 'i' || spec == 'd' {
                    "int"@
                } else if spec == 'f' {
                    "float"@
                } else if spec == 's' {
                    "string"@
                } else {
                    "bool"@
                },
            );
            &&& c.var_in_scope(v) ==> typing::complained(c, d, range)
            &&& !c.var_in_scope(v) ==> typing::made_same(c, Tree::Var(v), want, range, d)
        }),
{
}

/// `%v` prints what has a `Show` instance, tuples and records part by part;
/// anything else is reported.
pub proof fn shown_values_have_instances(
    c: CheckerV,
    name: Seq<char>,
    range: Span,
    ctx: Seq<char>,
    at: usize,
)
    ensures
        ({
            let d = c.check_format_arg('v', typing::named(name), range, ctx, at);
            let t = typing::named(name);
            let shown = exists|i: int|
                0 <= i < c.reg.generics.instances.len() && (
                #[trigger] c.reg.generics.instances[i]).class == "Show"@
                    && c.reg.generics.instances[i].args == seq![t];
            &&& shown ==> d == c
            &&& !shown ==> typing::complained(c, d, range)
        }),
{
    let t = typing::named(name);
    assert(t.vars().len() == 0) by {
        assert(Tree::vars_of(Seq::<Tree>::empty()).len() == 0);
    }
    soundness::strangers_stay(t, c.subst);
    assert(calls::packed_ty(t) == t);
    let all = c.reg.generics.instances;
    if exists|i: int|
        0 <= i < all.len() && (#[trigger] all[i]).class == "Show"@ && all[i].args == seq![t] {
        let i = choose|i: int|
            0 <= i < all.len() && (#[trigger] all[i]).class == "Show"@ && all[i].args == seq![t];
        assert(generics::implements(all[i], "Show"@, seq![t]));
    }
}

/// A specifier without an argument is reported.
pub proof fn missing_arguments_are_reported(c: CheckerV, spec: char, at: usize, range: Span)
    ensures
        typing::complained(c, c.missing_argument(spec, at, range), range),
{
}

} // verus!
