//! When the arms of a `match` are enough.
use crate::ast::{MatchArm, Pattern, PatternPayload};
use crate::infer::{enums, properties};
use crate::infer::{ArmCoverage, CheckerV, InnerCoverage, PendingV};
use crate::report::{ErrorCode, Span};
use crate::tree::{Head, Tree};
use vstd::prelude::*;

verus! {

/// A pattern that is no constructor matches every value, and only such a pattern
/// does.
pub proof fn open_patterns_catch_all(c: CheckerV, pattern: Pattern, range: Span)
    ensures
        c.arm_coverage(pattern, range).is_catchall <==> pattern is Wildcard || pattern is Binding,
        c.arm_coverage(pattern, range).range == range,
        pattern is Wildcard || pattern is Binding ==> c.arm_coverage(pattern, range).tag is None,
{
}

/// A constructor pattern tests for the tag that its variant has in its enum.
pub proof fn constructor_patterns_test_their_tag(
    c: CheckerV,
    enum_name: String,
    variant_name: String,
    payload: PatternPayload,
    range: Span,
    tag: u32,
)
    ensures
        c.arm_coverage(
            (Pattern::Constructor { enum_name, variant_name, payload }),
            range,
        ).tag == Some(tag) <==> c.reg.enum_tags.contains_key(enum_name@)
            && c.reg.enum_tags[enum_name@].contains_key(variant_name@)
            && c.reg.enum_tags[enum_name@][variant_name@] == tag,
{
}

/// The pattern at place `i` is the first one that tests a tag.
pub open spec fn first_test(patterns: Seq<Pattern>, i: int) -> bool {
    &&& 0 <= i < patterns.len()
    &&& patterns[i] is Constructor
    &&& forall|j: int| 0 <= j < i ==> !(#[trigger] patterns[j] is Constructor)
}

proof fn first_is_tested(c: CheckerV, patterns: Seq<Pattern>, at: nat, i: int)
    requires
        first_test(patterns, i),
        at <= i,
    ensures
        c.first_tested(patterns, at) == c.tested_by(patterns[i]),
    decreases patterns.len() - at,
{
    if at < i {
        first_is_tested(c, patterns, at + 1, i);
    }
}

proof fn none_is_tested(c: CheckerV, patterns: Seq<Pattern>, at: nat)
    requires
        forall|j: int| 0 <= j < patterns.len() ==> !(#[trigger] patterns[j] is Constructor),
    ensures
        c.first_tested(patterns, at) == InnerCoverage::Any,
    decreases patterns.len() - at,
{
    if at < patterns.len() {
        none_is_tested(c, patterns, at + 1);
    }
}

/// Two constructor patterns of one variant whose first inner tests are of
/// different variants do not repeat each other; without inner tests an arm takes
/// any value of its variant.
pub proof fn inner_tests_are_kept(
    c: CheckerV,
    enum_name: String,
    variant_name: String,
    parts: Vec<Pattern>,
    range: Span,
    i: int,
)
    ensures
        (forall|j: int| 0 <= j < parts@.len() ==> !(#[trigger] parts@[j] is Constructor))
            ==> c.arm_coverage(
            (Pattern::Constructor {
                enum_name,
                variant_name,
                payload: PatternPayload::Tuple(parts),
            }),
            range,
        ).inner == InnerCoverage::Any,
        first_test(parts@, i) ==> match parts@[i] {
            Pattern::Constructor { enum_name: e, variant_name: v, payload: _ } => {
                c.reg.enum_tags.contains_key(e@) && c.reg.enum_tags[e@].contains_key(v@)
                    ==> c.arm_coverage(
                    (Pattern::Constructor {
                        enum_name,
                        variant_name,
                        payload: PatternPayload::Tuple(parts),
                    }),
                    range,
                ).inner == InnerCoverage::Tag(c.reg.enum_tags[e@][v@])
            },
            _ => false,
        },
{
    if forall|j: int| 0 <= j < parts@.len() ==> !(#[trigger] parts@[j] is Constructor) {
        none_is_tested(c, parts@, 0);
    }
    if first_test(parts@, i) {
        first_is_tested(c, parts@, 0, i);
    }
}

/// Each arm is covered in its turn: one entry per arm, at the place of its body,
/// that catches all just where the pattern is no constructor.
pub proof fn arms_are_covered_in_turn(
    c: CheckerV,
    arms: Seq<MatchArm>,
    at: nat,
    scrutinee: Tree,
    sofar: Option<Tree>,
    covered: Seq<ArmCoverage>,
)
    requires
        at <= arms.len(),
    ensures
        ({
            let r = c.infer_arms(arms, at, scrutinee, sofar, covered).2;
            &&& r.len() == covered.len() + arms.len() - at
            &&& forall|i: int| 0 <= i < covered.len() ==> #[trigger] r[i] == covered[i]
            &&& forall|i: int|
                #![trigger r[i]]
                covered.len() <= i < r.len() ==> {
                    let arm = arms[i - covered.len() + at];
                    &&& r[i].is_catchall <==> arm.pattern is Wildcard || arm.pattern is Binding
                    &&& r[i].range == arm.body.span
                }
        }),
    decreases arms.len() - at,
{
    if at < arms.len() {
        let arm = arms[at as int];
        let place = arm.body.span;
        let (a, p) = c.push_scope().infer_pattern(arm.pattern, scrutinee, place);
        let b = a.unify(scrutinee, p, place, "match pattern against scrutinee"@).0;
        let coverage = b.arm_coverage(arm.pattern, place);
        let (d, t) = b.infer(arms[at as int].body);
        let (e, r) = match sofar {
            None => (d, t),
            Some(r) => (d.unify(r, t, place, "match arm body"@).0, r),
        };
        arms_are_covered_in_turn(
            e.pop_scope(),
            arms,
            at + 1,
            scrutinee,
            Some(r),
            covered.push(coverage),
        );
        let next = covered.push(coverage);
        assert(next[covered.len() as int] == coverage);
        assert forall|i: int| 0 <= i < covered.len() implies #[trigger] next[i] == covered[i] by {}
    }
}

/// Only arms that are never reached are spoken of, while the arms are compared.
proof fn only_unreachable_arms(c: CheckerV, arms: Seq<ArmCoverage>, at: nat)
    ensures
        ({
            let d = c.report_unreachable(arms, at);
            &&& d == (CheckerV { messages: d.messages, ..c })
            &&& c.messages.is_prefix_of(d.messages)
            &&& forall|k: int|
                c.messages.len() <= k < d.messages.len() ==> (#[trigger] d.messages[k]).code
                    == ErrorCode::UnreachableArm
        }),
    decreases arms.len() - at,
{
    if at < arms.len() {
        let d = if enums::repeats(arms, at as int) {
            c.say(
                ErrorCode::UnreachableArm,
                "Unreachable arm: this pattern is matched by an earlier arm"@,
                arms[at as int].range,
            )
        } else {
            c
        };
        only_unreachable_arms(d, arms, at + 1);
        let e = c.report_unreachable(arms, at);
        assert(c.messages.is_prefix_of(d.messages));
        assert forall|k: int| c.messages.len() <= k < e.messages.len() implies (
        #[trigger] e.messages[k]).code == ErrorCode::UnreachableArm by {
            if k < d.messages.len() {
                assert(e.messages[k] == d.messages[k]);
            }
        }
    }
}

/// A match with an arm whose pattern is `_` or a bare name leaves nothing out: it
/// is never said to be non-exhaustive.
pub proof fn open_arms_complete_a_match(
    c: CheckerV,
    arms: Seq<MatchArm>,
    scrutinee: Tree,
    d: CheckerV,
    p: PendingV,
    i: int,
)
    requires
        p.arms == c.infer_arms(arms, 0, scrutinee, None, Seq::empty()).2,
        0 <= i < arms.len(),
        arms[i].pattern is Wildcard || arms[i].pattern is Binding,
    ensures
        forall|k: int|
            d.messages.len() <= k < d.check_exhaustiveness(p).messages.len() ==> (
            #[trigger] d.check_exhaustiveness(p).messages[k]).code == ErrorCode::UnreachableArm,
{
    arms_are_covered_in_turn(c, arms, 0, scrutinee, None, Seq::empty());
    only_unreachable_arms(d, p.arms, 0);
    assert(p.arms[i].is_catchall);
}

/// A match whose last arm has the pattern `_` or a bare name, and no two arms of
/// which test for the same, is accepted without a message.
pub proof fn last_open_arms_are_accepted(
    c: CheckerV,
    arms: Seq<MatchArm>,
    scrutinee: Tree,
    d: CheckerV,
    p: PendingV,
)
    requires
        p.arms == c.infer_arms(arms, 0, scrutinee, None, Seq::empty()).2,
        arms.len() > 0,
        arms.last().pattern is Wildcard || arms.last().pattern is Binding,
        forall|i: int, j: int|
            0 <= i < j < arms.len() ==> {
                let a = #[trigger] p.arms[i];
                let b = #[trigger] p.arms[j];
                a.is_catchall || b.is_catchall || b.tag is None || a.tag != b.tag || a.inner
                    != b.inner
            },
    ensures
        d.check_exhaustiveness(p) == d,
{
    arms_are_covered_in_turn(c, arms, 0, scrutinee, None, Seq::empty());
    assert(p.arms[arms.len() - 1].is_catchall);
    assert forall|i: int| 0 <= i < p.arms.len() implies !#[trigger] enums::repeats(p.arms, i) by {
        if enums::repeats(p.arms, i) {
            let j = choose|j: int|
                0 <= j < i && !(#[trigger] p.arms[j]).is_catchall && p.arms[j].tag
                    == p.arms[i].tag && p.arms[j].inner == p.arms[i].inner;
            assert(p.arms[j].tag == p.arms[i].tag);
        }
    }
    properties::covering_matches_are_accepted(d, p, Seq::empty());
}

/// A match that leaves the variant at place `i` out is said to be non-exhaustive:
/// no arm catches all, and none tests for that variant's tag.
pub proof fn arms_that_leave_a_variant_out(
    c: CheckerV,
    p: PendingV,
    tags: Seq<Seq<char>>,
    kids: Seq<Tree>,
    name: Seq<char>,
    i: int,
)
    requires
        c.resolve(p.scrutinee_ty) == Tree::Node(Head::Sum(name, tags), kids),
        0 <= i < kids.len(),
        forall|k: int|
            0 <= k < p.arms.len() ==> !(#[trigger] p.arms[k]).is_catchall && p.arms[k].tag != Some(
                i as u32,
            ),
    ensures
        c.check_exhaustiveness(p).messages.len() > c.messages.len(),
        c.check_exhaustiveness(p).messages.last().code == ErrorCode::NonExhaustiveMatch,
        c.check_exhaustiveness(p).messages.last().range == p.match_range,
{
    let variants = enums::sum_variants(tags, kids);
    assert(!enums::catches_all(p.arms));
    assert(!enums::tests_tag(p.arms, i as u32));
    properties::missing_variants_are_reported(c, p, variants, i);
}

/// A match whose arms test for every variant, no two for the same one, is
/// accepted without a message.
pub proof fn arms_that_name_every_variant(
    c: CheckerV,
    p: PendingV,
    tags: Seq<Seq<char>>,
    kids: Seq<Tree>,
    name: Seq<char>,
)
    requires
        c.resolve(p.scrutinee_ty) == Tree::Node(Head::Sum(name, tags), kids),
        p.arms.len() == kids.len(),
        kids.len() <= u32::MAX,
        forall|i: int|
            0 <= i < p.arms.len() ==> !(#[trigger] p.arms[i]).is_catchall && p.arms[i].tag == Some(
                i as u32,
            ),
    ensures
        c.check_exhaustiveness(p) == c,
{
    let variants = enums::sum_variants(tags, kids);
    assert forall|i: int| 0 <= i < variants.len() implies #[trigger] enums::tests_tag(
        p.arms,
        i as u32,
    ) by {
        assert(!p.arms[i].is_catchall);
    }
    assert forall|i: int| 0 <= i < p.arms.len() implies !#[trigger] enums::repeats(p.arms, i) by {
        assert(p.arms[i].tag == Some(i as u32));
        assert forall|j: int| 0 <= j < i implies p.arms[j].tag != p.arms[i].tag by {
            assert(!p.arms[j].is_catchall);
        }
    }
    properties::covering_matches_are_accepted(c, p, variants);
}

} // verus!
