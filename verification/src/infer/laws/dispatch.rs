//! Where methods, projections and formats are looked up.
use crate::ast::Output;
use crate::env::{self, SchemeV};
use crate::generics::AssocDeclV;
use crate::infer::CheckerV;
use crate::infer::annotations;
use crate::infer::laws::typing;
use crate::report::Span;
use crate::tree::Tree;
use crate::ty::TyVarId;
use crate::unify;
use vstd::prelude::*;

verus! {

/// Every one of these is the method of that name of the class that it is listed
/// with, with the type that the class declares for it.
pub open spec fn class_methods(
    c: CheckerV,
    method: Seq<char>,
    found: Seq<(Seq<char>, SchemeV)>,
) -> bool {
    forall|k: int|
        #![trigger found[k]]
        0 <= k < found.len() ==> c.reg.method_order.contains((found[k].0, method)) && found[k].1
            == c.reg.method_schemes[(found[k].0, method)]
}

proof fn fitting_from(
    c: CheckerV,
    method: Seq<char>,
    recv: Tree,
    at: nat,
    acc: Seq<(Seq<char>, SchemeV)>,
)
    requires
        class_methods(c, method, acc),
    ensures
        class_methods(c, method, c.fitting_methods(method, recv, at, acc).1),
        c.fitting_methods(method, recv, at, acc).0.messages == c.messages,
        c.fitting_methods(method, recv, at, acc).0.subst == c.subst,
    decreases c.reg.method_order.len() - at,
{
    if at < c.reg.method_order.len() {
        let key = c.reg.method_order[at as int];
        if key.1 != method {
            fitting_from(c, method, recv, at + 1, acc);
        } else {
            let scheme = c.reg.method_schemes[key];
            let t = env::instance_of(scheme, c.counter).ty;
            let d = CheckerV {
                counter: env::bump_by(c.counter, scheme.bounds.len()),
                ..c
            };
            let next = if t is Node && t.head() is Fun && unify::unified(
                c.subst,
                t.kids()[0],
                recv,
            ) is Ok {
                acc.push((key.0, scheme))
            } else {
                acc
            };
            assert(key == (key.0, method));
            assert(c.reg.method_order.contains((key.0, method)));
            assert(class_methods(d, method, next));
            fitting_from(d, method, recv, at + 1, next);
        }
    }
}

/// A method that is found by the type of its receiver is one of a class, of that
/// name, with the type that the class declares for it; looking for it says and
/// solves nothing.
pub proof fn methods_by_receiver_are_class_methods(c: CheckerV, method: Seq<char>, recv: Tree)
    ensures
        ({
            let (d, r) = c.ground_trait_method_for_receiver(method, recv);
            &&& d.messages == c.messages
            &&& d.subst == c.subst
            &&& r matches Some((class, scheme)) ==> c.reg.method_order.contains((class, method))
                && scheme == c.reg.method_schemes[(class, method)]
        }),
{
    fitting_from(c, method, c.resolve(recv), 0, Seq::empty());
    let found = c.fitting_methods(method, c.resolve(recv), 0, Seq::empty()).1;
    if found.len() == 1 {
        assert(found[0] == found[0]);
    }
}

/// An associated type is looked for in a class or a type parameter; of anything
/// else it is reported.
pub proof fn unknown_projections_are_reported(
    c: CheckerV,
    owner: Seq<char>,
    name: Seq<char>,
    args: Seq<Tree>,
    range: Span,
)
    requires
        c.ctx.typeclass != Some(owner),
        c.type_param(owner) is None,
        !c.reg.generics.typeclasses.contains_key(owner),
    ensures
        typing::complained(c, c.resolve_type_projection(owner, name, args, range).0, range),
        c.resolve_type_projection(owner, name, args, range).1 == Tree::Var(TyVarId(c.counter)),
{
}

proof fn no_declaration(
    decls: Seq<AssocDeclV>,
    name: Seq<char>,
    at: nat,
)
    requires
        at <= decls.len(),
    ensures
        match annotations::decl_from(decls, name, at) {
            Some(d) => d.name == name && decls.contains(d),
            None => forall|i: int|
                at <= i < decls.len() ==> (#[trigger] decls[i]).name != name,
        },
    decreases decls.len() - at,
{
    if at < decls.len() {
        no_declaration(decls, name, at + 1);
        assert(decls.contains(decls[at as int]));
    }
}

/// A class has the associated types that it declares, under their names.
pub proof fn associated_types_are_declared(
    c: CheckerV,
    class: Seq<char>,
    name: Seq<char>,
)
    ensures
        annotations::class_decl(c.reg.generics, class, name) is Some
            <==> c.reg.generics.typeclasses.contains_key(class) && exists|i: int|
            0 <= i < c.reg.generics.typeclasses[class].assoc_types.len() && (
            #[trigger] c.reg.generics.typeclasses[class].assoc_types[i]).name == name,
        annotations::class_decl(c.reg.generics, class, name) matches Some(d) ==> d.name == name
            && c.reg.generics.typeclasses[class].assoc_types.contains(d),
{
    if c.reg.generics.typeclasses.contains_key(class) {
        let decls = c.reg.generics.typeclasses[class].assoc_types;
        no_declaration(decls, name, 0);
        if let Some(d) = annotations::decl_from(decls, name, 0) {
            let i = choose|i: int| 0 <= i < decls.len() && decls[i] == d;
            assert(decls[i].name == name);
        }
    }
}

/// A projection takes as many type arguments as the associated type declares.
pub proof fn projections_take_their_arguments(
    c: CheckerV,
    class: Seq<char>,
    decl: AssocDeclV,
    args: Seq<Tree>,
    range: Span,
)
    requires
        decl.params.len() != args.len(),
    ensures
        typing::complained(
            c,
            c.validate_assoc_projection_args(class, decl, args, range),
            range,
        ),
{
}

/// A format without a specifier asks for nothing.
pub proof fn plain_formats_ask_for_nothing(
    c: CheckerV,
    items: Seq<Output>,
    s: Seq<char>,
    at: nat,
    n: nat,
    range: Span,
    ctx: Seq<char>,
)
    requires
        forall|i: int| 0 <= i < s.len() ==> #[trigger] s[i] != '%',
    ensures
        c.infer_format_args(items, s, at, n, range, ctx) == c,
    decreases s.len() - at,
{
    if at < s.len() {
        assert(s[at as int] != '%');
        plain_formats_ask_for_nothing(c, items, s, at + 1, n, range, ctx);
    }
}

/// A specifier for which no argument is left is reported.
pub proof fn formats_need_their_arguments(
    c: CheckerV,
    items: Seq<Output>,
    s: Seq<char>,
    at: nat,
    n: nat,
    range: Span,
    ctx: Seq<char>,
)
    requires
        at + 1 < s.len(),
        s[at as int] == '%',
        s[at as int + 1] != '%',
        n >= items.len(),
    ensures
        typing::complained(c, c.infer_format_args(items, s, at, n, range, ctx), range),
{
}

} // verus!
