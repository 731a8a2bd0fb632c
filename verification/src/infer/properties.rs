//! What holds of the checker as a whole.
use crate::ast::{Expression, Output};
use crate::env::{self, SchemeV};
use crate::id;
use crate::infer::{ArmCoverage, CheckerV, PendingV, ScopesV, TablesV};
use crate::infer::decls::{self, FnFrameV};
use crate::infer::{builtins, enums, growth, program};
use crate::report::ErrorCode;
use crate::soundness;
use crate::tree::{Head, Tree};
use crate::virtual_modules::{self, BuiltinExport};
use vstd::prelude::*;

verus! {

/// A frame that is opened and closed leaves nothing behind.
pub proof fn scopes_close_what_they_open(c: CheckerV)
    requires
        c.scope.type_aliases.len() > 0,
    ensures
        c.push_scope().pop_scope() == c,
{
    let d = c.push_scope().pop_scope();
    assert(d.env =~= c.env);
    assert(d.scope =~= c.scope);
}

/// What is bound in a frame is gone when the frame is closed.
pub proof fn inner_bindings_do_not_leak(c: CheckerV, name: Seq<char>, scheme: SchemeV)
    requires
        c.scope.type_aliases.len() > 0,
    ensures
        c.push_scope().bind(name, scheme).pop_scope() == c,
{
    let d = c.push_scope().bind(name, scheme).pop_scope();
    assert(d.env =~= c.env);
    assert(d.scope =~= c.scope);
}

/// The latest binding of a name is the one that is found, and it hides no other
/// name.
pub proof fn latest_binding_wins(
    c: CheckerV,
    name: Seq<char>,
    scheme: SchemeV,
    other: Seq<char>,
)
    ensures
        c.bind(name, scheme).lookup(name) == Some(scheme),
        other != name ==> c.bind(name, scheme).lookup(other) == c.lookup(other),
{
    let e = env::env_insert(c.env, name, scheme);
    if c.env.len() == 0 {
        assert(e.drop_last() =~= c.env);
    } else {
        assert(e.drop_last() =~= c.env.drop_last());
    }
}

/// A native function is found under its name, with its curried type.
pub proof fn natives_are_found(c: CheckerV, name: Seq<char>, params: Seq<Tree>, ret: Tree)
    ensures
        c.register_native(name, params, ret).lookup(name) == Some(
            SchemeV::mono(builtins::curried(params, ret)),
        ),
{
    latest_binding_wins(c, name, SchemeV::mono(builtins::curried(params, ret)), name);
}

/// The tags of the first `n` names.
proof fn tags_up_to(names: Seq<Seq<char>>, n: nat, i: int)
    requires
        0 <= i < n <= names.len(),
        names.no_duplicates(),
    ensures
        builtins::tag_map(names, n).contains_key(names[i]),
        builtins::tag_map(names, n)[names[i]] == i as u32,
    decreases n,
{
    if i < n - 1 {
        tags_up_to(names, (n - 1) as nat, i);
        assert(names[i] != names[n - 1]);
    }
}

/// The variants of an enum are tagged in the order of their declaration.
pub proof fn tags_follow_declaration_order(
    c: CheckerV,
    name: Seq<char>,
    variants: Seq<Seq<char>>,
    payloads: Seq<Tree>,
    arities: Seq<usize>,
    i: int,
)
    requires
        builtins::is_ffi_enum(name) ==> name == "FFIType"@,
        variants.no_duplicates(),
        0 <= i < variants.len(),
    ensures
        c.register_enum(name, variants, payloads, arities).tag_for(name, variants[i]) == Some(
            i as u32,
        ),
{
    tags_up_to(variants, variants.len(), i);
}

/// A registered enum answers for the fields of its payloads: a field has a type
/// just when it has a place.
pub proof fn field_queries_agree(c: CheckerV, name: Seq<char>, field: Seq<char>)
    requires
        c.reg.enums.contains_key(name) <==> c.reg.enum_payloads.contains_key(name),
    ensures
        c.field_type_for(name, field) is Some <==> c.field_index_for(name, field) is Some,
{
}

/// Reports on arms change nothing but the messages.
proof fn reports_only_speak(c: CheckerV, arms: Seq<ArmCoverage>, at: nat)
    ensures
        c.report_unreachable(arms, at) == (CheckerV {
            messages: c.report_unreachable(arms, at).messages,
            ..c
        }),
        c.report_unreachable(arms, at).messages.len() >= c.messages.len(),
        (forall|i: int| at <= i < arms.len() ==> !#[trigger] enums::repeats(arms, i))
            ==> c.report_unreachable(arms, at) == c,
        (exists|i: int| at <= i < arms.len() && #[trigger] enums::repeats(arms, i))
            ==> c.report_unreachable(arms, at).messages.len() > c.messages.len(),
    decreases arms.len() - at,
{
    if at < arms.len() {
        let d = if enums::repeats(arms, at as int) {
            c.say(
                ErrorCode::UnreachableArm,
                "Unreachable arm: this pattern is matched by an earlier arm"@,
                arms[at as int].range,
            )
        } else {
            c
        };
        reports_only_speak(d, arms, at + 1);
        assert(!enums::repeats(arms, at as int) || d.messages.len() == c.messages.len() + 1);
    }
}

/// The variants that no arm tests: exactly the names at the untested places.
proof fn untested_places(
    variants: Seq<(Seq<char>, Tree)>,
    arms: Seq<ArmCoverage>,
    at: nat,
    acc: Seq<Seq<char>>,
)
    ensures
        enums::untested(variants, arms, at, acc).len() >= acc.len(),
        enums::untested(variants, arms, at, acc).len() == acc.len() <==> forall|i: int|
            at <= i < variants.len() ==> #[trigger] enums::tests_tag(arms, i as u32),
    decreases variants.len() - at,
{
    if at < variants.len() {
        let next = if enums::tests_tag(arms, at as u32) {
            acc
        } else {
            acc.push(variants[at as int].0)
        };
        untested_places(variants, arms, at + 1, next);
    }
}

/// A match without repeated arms whose arms cover every variant, or one of which
/// catches all, is accepted without a word.
pub proof fn covering_matches_are_accepted(c: CheckerV, p: PendingV, variants: Seq<(Seq<char>, Tree)>)
    requires
        forall|i: int| 0 <= i < p.arms.len() ==> !#[trigger] enums::repeats(p.arms, i),
        enums::catches_all(p.arms) || (c.variants_to_cover(c.resolve(p.scrutinee_ty)) == Some(
            variants,
        ) && forall|i: int|
            0 <= i < variants.len() ==> #[trigger] enums::tests_tag(p.arms, i as u32)),
    ensures
        c.check_exhaustiveness(p) == c,
{
    reports_only_speak(c, p.arms, 0);
    untested_places(variants, p.arms, 0, Seq::empty());
}

/// The variants to cover are read off the registry.
proof fn variants_by_registry(c: CheckerV, d: CheckerV, t: Tree)
    requires
        c.reg == d.reg,
    ensures
        c.poly_variants_from_app(t) == d.poly_variants_from_app(t),
    decreases t,
{
    if let Tree::Node(Head::Constructor(_, _), kids) = t {
        if kids.len() > 0 {
            variants_by_registry(c, d, kids[0]);
        }
    }
}

/// A match that leaves a variant out is reported, as the last message.
pub proof fn missing_variants_are_reported(
    c: CheckerV,
    p: PendingV,
    variants: Seq<(Seq<char>, Tree)>,
    i: int,
)
    requires
        !enums::catches_all(p.arms),
        c.variants_to_cover(c.resolve(p.scrutinee_ty)) == Some(variants),
        0 <= i < variants.len(),
        !enums::tests_tag(p.arms, i as u32),
    ensures
        c.check_exhaustiveness(p).messages.len() > c.messages.len(),
        c.check_exhaustiveness(p).messages.last().code == ErrorCode::NonExhaustiveMatch,
        c.check_exhaustiveness(p).messages.last().range == p.match_range,
{
    reports_only_speak(c, p.arms, 0);
    let d = c.report_unreachable(p.arms, 0);
    let t = c.resolve(p.scrutinee_ty);
    variants_by_registry(c, d, t);
    if let Tree::Node(Head::Constructor(_, _), kids) = t {
        if kids.len() > 0 {
            variants_by_registry(c, d, kids[0]);
        }
    }
    untested_places(variants, p.arms, 0, Seq::empty());
}

/// An arm that an earlier one already covers is reported.
pub proof fn repeated_arms_are_reported(c: CheckerV, p: PendingV, i: int)
    requires
        0 <= i < p.arms.len(),
        enums::repeats(p.arms, i),
    ensures
        c.check_exhaustiveness(p).messages.len() > c.messages.len(),
{
    reports_only_speak(c, p.arms, 0);
}

/// Clearing a cleared checker changes nothing.
pub proof fn clearing_is_final(c: CheckerV)
    ensures
        c.cleared().cleared() == c.cleared(),
{
    let d = c.cleared();
    assert(d.cleared().ctx =~= d.ctx);
    assert(d.cleared().scope =~= d.scope);
    assert(d.cleared().reg =~= d.reg);
}

/// A program is checked from empty tables, whatever was checked before it: only
/// the ids of its nodes are there.
pub proof fn programs_start_from_empty_tables(c: CheckerV, ast: Output)
    ensures
        c.prepared(ast).out == (TablesV {
            ids: id::minted(Seq::empty(), id::visits(ast)),
            ..program::no_tables()
        }),
        c.prepared(ast).messages == c.messages,
        c.prepared(ast).env == c.env,
        c.prepared(ast).subst == c.subst,
{
    exports_only_bind(
        CheckerV {
            scope: ScopesV {
                bindings: Map::empty(),
                binding_order: Seq::empty(),
                ..c.cleared().register_builtin_typeclass_method_schemes().register_builtin_enums().scope
            },
            ..c.cleared().register_builtin_typeclass_method_schemes().register_builtin_enums()
        },
        virtual_modules::auto_imports(),
        0,
    );
}

/// Imports change nothing but the scope.
proof fn exports_only_bind(
    c: CheckerV,
    exports: Seq<BuiltinExport>,
    at: nat,
)
    ensures
        c.bind_exports(exports, at) == (CheckerV {
            scope: c.bind_exports(exports, at).scope,
            ..c
        }),
    decreases exports.len() - at,
{
    if at < exports.len() {
        let e = exports[at as int];
        exports_only_bind(c.set_binding(e.spelled(), e), exports, at + 1);
    }
}

/// A scheme without quantified variables has one instance, its own type.
pub proof fn plain_schemes_are_their_own_instance(t: Tree, next: u32)
    ensures
        env::instance_of(SchemeV::mono(t), next).ty == t,
{
    crate::soundness::strangers_stay(t, Map::empty());
}

/// The variables that instances are made of were not in use before.
pub proof fn fresh_variables_are_new(n: nat, next: u32, i: int, j: int)
    requires
        next + n <= u32::MAX,
        0 <= i < j < n,
    ensures
        env::fresh_vars(n, next)[i].0 >= next,
        env::fresh_vars(n, next)[i] != env::fresh_vars(n, next)[j],
{
    counts_up(next, i as nat);
    counts_up(next, j as nat);
}

proof fn counts_up(next: u32, k: nat)
    requires
        next + k <= u32::MAX,
    ensures
        env::bump_by(next, k) == next + k,
    decreases k,
{
    if k > 0 {
        counts_up(next, (k - 1) as nat);
    }
}

/// Typing an expression takes nothing back: the outer frames of names stay as
/// they are, every earlier message stays, every solved variable stays solved, a
/// settled substitution stays settled, the numbers of fresh variables do not go
/// down, and the node identifiers are taken in order.
pub proof fn inference_only_adds(c: CheckerV, node: Output)
    ensures
        growth::extends(c.ledger(), c.infer(node).0.ledger()),
{
    c.infer_grows(node);
    reveal(growth::steps);
}

/// A node that is typed is recorded with its type, under the next identifier.
pub proof fn typed_nodes_are_recorded(c: CheckerV, node: Output)
    requires
        c.out.next_id_idx < c.out.ids.len(),
    ensures
        c.infer(node).0.out.cache.contains_key(c.out.ids[c.out.next_id_idx as int]),
        c.infer(node).0.out.cache[c.out.ids[c.out.next_id_idx as int]] == c.infer(node).1,
{
}

/// A block leaves the names in scope as they were: every frame is closed again,
/// and whatever the block binds is bound in its own frames.
pub proof fn blocks_leave_names_alone(c: CheckerV, node: Output)
    requires
        *node.expr is Block,
    ensures
        c.infer(node).0.env == c.env,
{
    match *node.expr {
        Expression::Block(items) => {
            let d = c.next_id().0.push_scope();
            let unit = Tree::con("unit"@);
            d.infer_last_grows(items@, 0, unit);
            let e = d.infer_last(items@, 0, unit).0;
            assert(growth::same_outside(d.env, e.env)) by {
                reveal(growth::steps);
            }
            assert(d.env.drop_last() =~= c.env);
            c.next_id().0.infer_inner_grows(node, c.next_id().1);
        },
        _ => {},
    }
}

/// A program keeps every message that was there before it, and what was said of
/// its declarations is said of the program: a program without messages has
/// declarations without messages.
pub proof fn programs_keep_messages(c: CheckerV, ast: Output)
    ensures
        c.messages.is_prefix_of(c.check_program(ast).0.messages),
        c.prepared(ast).declared(ast).messages.is_prefix_of(c.check_program(ast).0.messages),
        c.subst.dom().subset_of(c.check_program(ast).0.subst.dom()),
{
    programs_start_from_empty_tables(c, ast);
    let p = c.prepared(ast);
    p.forward_grows(ast, Seq::empty());
    let d = p.declared(ast);
    d.push_scope().infer_grows(ast);
    let e = d.push_scope().infer(ast).0;
    e.run_pending_exhaustiveness_grows();
    assert(d.messages.is_prefix_of(c.check_program(ast).0.messages)) by {
        reveal(growth::steps);
    }
    assert(c.messages.is_prefix_of(d.messages)) by {
        reveal(growth::steps);
    }
    assert(c.subst.dom().subset_of(c.check_program(ast).0.subst.dom())) by {
        reveal(growth::steps);
    }
}

/// The type of a program is final: the substitution has nothing more to say of
/// it, nor of any other type that it resolved. It starts out settled in a new
/// checker, and stays so.
pub proof fn program_types_are_final(c: CheckerV, ast: Output, t: Tree)
    requires
        soundness::settled(c.subst),
    ensures
        soundness::settled(CheckerV::start().subst),
        soundness::settled(c.check_program(ast).0.subst),
        c.check_program(ast).0.resolve(c.check_program(ast).1) == c.check_program(ast).1,
        c.check_program(ast).0.resolve(c.check_program(ast).0.resolve(t))
            == c.check_program(ast).0.resolve(t),
{
    programs_start_from_empty_tables(c, ast);
    let p = c.prepared(ast);
    p.forward_grows(ast, Seq::empty());
    let d = p.declared(ast).push_scope();
    d.infer_grows(ast);
    let (e, u) = d.infer(ast);
    e.run_pending_exhaustiveness_grows();
    let f = e.run_pending_exhaustiveness();
    assert(soundness::settled(f.subst)) by {
        reveal(growth::steps);
    }
    soundness::resolving_is_final(u, f.subst);
    soundness::resolving_is_final(t, f.subst);
}

/// A function whose bounds are all by classes of the compiler has no dictionary
/// slot of a program's trait.
pub proof fn builtin_bounds_take_no_slot(
    c: CheckerV,
    f: FnFrameV,
    name: Seq<char>,
    constraints: Seq<Tree>,
    t: Tree,
)
    requires
        forall|i: int| 0 <= i < constraints.len() ==> !decls::user_bound(#[trigger] constraints[i]),
    ensures
        c.bind_generic(f, name, constraints, t).fn_dict_arity[name] == 0,
{
    no_user_slots(constraints);
}

/// Constraints by classes of the compiler count for nothing.
proof fn no_user_slots(constraints: Seq<Tree>)
    requires
        forall|i: int| 0 <= i < constraints.len() ==> !decls::user_bound(#[trigger] constraints[i]),
    ensures
        decls::user_slots(constraints) == 0,
    decreases constraints.len(),
{
    reveal(Seq::filter);
    if constraints.len() > 0 {
        let init = constraints.drop_last();
        assert forall|i: int| 0 <= i < init.len() implies !decls::user_bound(
            #[trigger] init[i],
        ) by {
            assert(init[i] == constraints[i]);
        }
        no_user_slots(init);
        assert(!decls::user_bound(constraints[constraints.len() - 1]));
    }
}

/// Typing an expression for the code generator takes no identifier away from the
/// program, leaves the types under the identifiers as they are, and takes no
/// message back.
pub proof fn code_generation_keeps_ids(c: CheckerV, e: Output)
    ensures
        c.infer_for_codegen(e).0.out.ids == c.out.ids,
        c.infer_for_codegen(e).0.out.next_id_idx == c.out.next_id_idx,
        c.infer_for_codegen(e).0.out.cache == c.out.cache,
        c.messages.is_prefix_of(c.infer_for_codegen(e).0.messages),
{
    c.infer_inner_grows(e, None);
    reveal(growth::steps);
}

} // verus!
