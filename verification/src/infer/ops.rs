//! What operators, accesses and literals come to, once their parts are typed.
use crate::ast::{AssignOp, Expression, FieldInit, Output};
use crate::env::{Scheme, SchemeV};
use crate::id::NodeId;
use crate::infer::calls::{self, existential_lookup_ty, is_con};
use crate::infer::enums::{self, field_names, is_option_ty, option_inner, result_ok_err};
use crate::infer::fields::{self, find_field};
use crate::infer::{Checker, CheckerV};
use crate::maps::{Dup, NameSet};
use crate::report::{ErrorCode, Message, MessageV, Span};
use crate::text::{self, cat2, cat3, cat4, cat5, join_with, number, same_text, signed_number};
use crate::tree::{self, ArrayLength, Head, Tree};
use crate::ty::{self, EnumVariantPayloadTy, Ty, TyVarId, app, array, boolean, con, int_ty, list, option_ty, result_ty, string, ty_text, tys2};
use crate::unify::{self, unify_with};
use vstd::prelude::*;

verus! {

broadcast use crate::tree::group_shapes;

/// The trait and the method behind an arithmetic operator.
pub open spec fn op_method(op: Seq<char>) -> Option<(Seq<char>, Seq<char>)> {
    if op == "+"@ {
        Some(("Add"@, "add"@))
    } else if op == "-"@ {
        Some(("Sub"@, "sub"@))
    } else if op == "*"@ {
        Some(("Mul"@, "mul"@))
    } else if op == "/"@ {
        Some(("Div"@, "div"@))
    } else {
        None
    }
}

/// The trait and the method behind an arithmetic operator.
pub fn arith_method(op: &str) -> (r: Option<(&'static str, &'static str)>)
    ensures
        match r {
            Some((class, method)) => op_method(op@) == Some((class@, method@)),
            None => op_method(op@) is None,
        },
{
    if same_text(op, "+") {
        Some(("Add", "add"))
    } else if same_text(op, "-") {
        Some(("Sub", "sub"))
    } else if same_text(op, "*") {
        Some(("Mul", "mul"))
    } else if same_text(op, "/") {
        Some(("Div", "div"))
    } else {
        None
    }
}

/// The sign of a compound assignment.
pub open spec fn op_sign(op: AssignOp) -> Seq<char> {
    match op {
        AssignOp::Add => "+"@,
        AssignOp::Sub => "-"@,
        AssignOp::Mul => "*"@,
        AssignOp::Div => "/"@,
        AssignOp::Mod => "%"@,
        AssignOp::Pow => "**"@,
        AssignOp::Shl => "<<"@,
        AssignOp::Shr => ">>"@,
        AssignOp::BitAnd => "&"@,
        AssignOp::BitOr => "|"@,
        AssignOp::BitXor => "^"@,
    }
}

/// The sign of a compound assignment.
pub fn compound_op_name(op: AssignOp) -> (r: &'static str)
    ensures
        r@ == op_sign(op),
{
    match op {
        AssignOp::Add => "+",
        AssignOp::Sub => "-",
        AssignOp::Mul => "*",
        AssignOp::Div => "/",
        AssignOp::Mod => "%",
        AssignOp::Pow => "**",
        AssignOp::Shl => "<<",
        AssignOp::Shr => ">>",
        AssignOp::BitAnd => "&",
        AssignOp::BitOr => "|",
        AssignOp::BitXor => "^",
    }
}

/// Whether a compound assignment works on the bits of integers.
pub open spec fn is_bitwise(op: AssignOp) -> bool {
    match op {
        AssignOp::Shl => true,
        AssignOp::Shr => true,
        AssignOp::BitAnd => true,
        AssignOp::BitOr => true,
        AssignOp::BitXor => true,
        _ => false,
    }
}

/// True when a compound assignment works on the bits of integers.
pub fn bitwise_op(op: AssignOp) -> (r: bool)
    ensures
        r == is_bitwise(op),
{
    match op {
        AssignOp::Shl => true,
        AssignOp::Shr => true,
        AssignOp::BitAnd => true,
        AssignOp::BitOr => true,
        AssignOp::BitXor => true,
        _ => false,
    }
}

/// True when a type is `string`.
pub fn is_string_ty(ty: &Ty) -> (r: bool)
    ensures
        r == (ty@ == Tree::con("string"@)),
{
    is_con(ty, "string")
}

/// The integer that a node is a literal of.
pub open spec fn int_literal(e: Output) -> Option<i64> {
    match *e.expr {
        Expression::Integer(n) => Some(n),
        _ => None,
    }
}

/// The integer that a node is a literal of.
pub fn literal_of(e: &Output) -> (r: Option<i64>)
    ensures
        r == int_literal(*e),
{
    match &*e.expr {
        Expression::Integer(n) => Some(*n),
        _ => None,
    }
}

/// The name that a node is.
pub open spec fn bare_name(e: Output) -> Option<Seq<char>> {
    match *e.expr {
        Expression::Identifier(name) => Some(name@),
        _ => None,
    }
}

/// The name that a node is.
pub fn name_of(e: &Output) -> (r: Option<&String>)
    ensures
        match r {
            Some(n) => bare_name(*e) == Some(n@),
            None => bare_name(*e) is None,
        },
{
    match &*e.expr {
        Expression::Identifier(name) => Some(name),
        _ => None,
    }
}

/// Whether a literal index is outside of `n` places.
pub open spec fn out_of_bounds(index: Option<i64>, n: nat) -> bool {
    match index {
        Some(i) => i < 0 || i as usize >= n,
        None => false,
    }
}

/// True when a literal index is outside of `n` places.
pub fn is_out_of_bounds(index: Option<i64>, n: usize) -> (r: bool)
    ensures
        r == out_of_bounds(index, n as nat),
{
    match index {
        Some(i) => i < 0 || i as usize >= n,
        None => false,
    }
}

/// Whether name `a` comes before name `b`.
pub open spec fn name_before(a: Seq<char>, b: Seq<char>) -> bool
    decreases a.len(),
{
    if b.len() == 0 {
        false
    } else if a.len() == 0 {
        true
    } else if a[0] == b[0] {
        name_before(a.drop_first(), b.drop_first())
    } else {
        a[0] < b[0]
    }
}

/// True when name `a` comes before name `b`.
pub fn comes_before(a: &str, b: &str) -> (r: bool)
    ensures
        r == name_before(a@, b@),
{
    let n = a.unicode_len();
    let m = b.unicode_len();
    let mut i: usize = 0;
    assert(a@.skip(0) =~= a@);
    assert(b@.skip(0) =~= b@);
    while i < n && i < m
        invariant
            i <= n,
            i <= m,
            n == a@.len(),
            m == b@.len(),
            name_before(a@, b@) == name_before(a@.skip(i as int), b@.skip(i as int)),
        decreases n - i,
    {
        let c = a.get_char(i);
        let d = b.get_char(i);
        proof {
            assert(a@.skip(i as int)[0] == c);
            assert(b@.skip(i as int)[0] == d);
            assert(a@.skip(i as int).drop_first() =~= a@.skip(i + 1));
            assert(b@.skip(i as int).drop_first() =~= b@.skip(i + 1));
        }
        if c != d {
            return c < d;
        }
        i += 1;
    }
    i < m
}

/// The place of a name in a sorted list of fields: before the first name that
/// it comes before.
pub open spec fn sorted_place(fields: Seq<(Seq<char>, Tree)>, name: Seq<char>, at: nat) -> nat
    decreases fields.len() - at,
{
    if at >= fields.len() {
        at
    } else if name_before(name, fields[at as int].0) {
        at
    } else {
        sorted_place(fields, name, at + 1)
    }
}

/// Fields sorted by name; fields of the same name keep their order.
pub open spec fn sorted_fields(fields: Seq<(Seq<char>, Tree)>) -> Seq<(Seq<char>, Tree)>
    decreases fields.len(),
{
    if fields.len() == 0 {
        fields
    } else {
        let init = sorted_fields(fields.drop_last());
        init.insert(sorted_place(init, fields.last().0, 0) as int, fields.last())
    }
}

proof fn sorted_place_bound(fields: Seq<(Seq<char>, Tree)>, name: Seq<char>, at: nat)
    requires
        at <= fields.len(),
    ensures
        at <= sorted_place(fields, name, at) <= fields.len(),
        forall|j: int|
            at <= j < sorted_place(fields, name, at) ==> !name_before(
                name,
                (#[trigger] fields[j]).0,
            ),
        sorted_place(fields, name, at) < fields.len() ==> name_before(
            name,
            fields[sorted_place(fields, name, at) as int].0,
        ),
    decreases fields.len() - at,
{
    if at < fields.len() && !name_before(name, fields[at as int].0) {
        sorted_place_bound(fields, name, at + 1);
    }
}

proof fn before_trans(a: Seq<char>, b: Seq<char>, c: Seq<char>)
    requires
        name_before(a, b),
        !name_before(c, b),
    ensures
        name_before(a, c),
    decreases a.len(),
{
    if a.len() > 0 && b.len() > 0 && c.len() > 0 && a[0] == b[0] && c[0] == b[0] {
        before_trans(a.drop_first(), b.drop_first(), c.drop_first());
    }
}

/// The fields of a record type are in the order of their names.
pub proof fn sorted_fields_ascend(fields: Seq<(Seq<char>, Tree)>)
    ensures
        sorted_fields(fields).len() == fields.len(),
        forall|i: int, j: int|
            0 <= i < j < fields.len() ==> !name_before(
                (#[trigger] sorted_fields(fields)[j]).0,
                (#[trigger] sorted_fields(fields)[i]).0,
            ),
    decreases fields.len(),
{
    if fields.len() > 0 {
        let init = sorted_fields(fields.drop_last());
        let x = fields.last();
        let p = sorted_place(init, x.0, 0) as int;
        let all = sorted_fields(fields);
        sorted_fields_ascend(fields.drop_last());
        sorted_place_bound(init, x.0, 0);
        assert forall|i: int, j: int| 0 <= i < j < all.len() implies !name_before(
            (#[trigger] all[j]).0,
            (#[trigger] all[i]).0,
        ) by {
            if j == p {
                assert(all[i] == init[i]);
            } else if i == p {
                assert(all[j] == init[j - 1]);
                if name_before(all[j].0, x.0) {
                    if j - 1 == p {
                        before_irreflexive(x.0, init[p].0);
                    } else {
                        before_trans(x.0, init[p].0, init[j - 1].0);
                        before_irreflexive(x.0, init[j - 1].0);
                    }
                }
            } else {
                let i2 = if i < p { i } else { i - 1 };
                let j2 = if j < p { j } else { j - 1 };
                assert(all[i] == init[i2] && all[j] == init[j2]);
            }
        }
    }
}

proof fn before_irreflexive(a: Seq<char>, b: Seq<char>)
    ensures
        !(name_before(a, b) && name_before(b, a)),
    decreases a.len(),
{
    if a.len() > 0 && b.len() > 0 && a[0] == b[0] {
        before_irreflexive(a.drop_first(), b.drop_first());
    }
}

/// Sort fields by name; fields of the same name keep their order.
pub fn sort_fields(fields: Vec<(String, Ty)>) -> (r: Vec<(String, Ty)>)
    ensures
        r.deep_view() == sorted_fields(fields.deep_view()),
{
    let ghost all = fields.deep_view();
    let mut out: Vec<(String, Ty)> = Vec::new();
    let mut i: usize = 0;
    assert(out.deep_view() =~= sorted_fields(all.take(0)));
    while i < fields.len()
        invariant
            i <= fields.len(),
            all == fields.deep_view(),
            out.deep_view() == sorted_fields(all.take(i as int)),
        decreases fields.len() - i,
    {
        let ghost before = out.deep_view();
        let name = fields[i].0.as_str();
        let mut p: usize = 0;
        while p < out.len() && !comes_before(name, out[p].0.as_str())
            invariant
                p <= out.len(),
                before == out.deep_view(),
                sorted_place(before, name@, 0) == sorted_place(before, name@, p as nat),
            decreases out.len() - p,
        {
            assert(before[p as int] == (out@[p as int].0@, out@[p as int].1@));
            p += 1;
        }
        proof {
            if p < out.len() {
                assert(before[p as int] == (out@[p as int].0@, out@[p as int].1@));
            }
            assert(sorted_place(before, name@, 0) == p);
            assert(all.take(i + 1).drop_last() =~= all.take(i as int));
            assert(all.take(i + 1).last() == (fields@[i as int].0@, fields@[i as int].1@));
        }
        let pair = (fields[i].0.clone(), fields[i].1.clone());
        out.insert(p, pair);
        assert(out.deep_view() =~= before.insert(p as int, (pair.0@, pair.1@)));
        i += 1;
    }
    assert(all.take(fields.len() as int) =~= all);
    out
}

/// The payload of `??`, or the error that stands for the whole expression.
pub enum Payload {
    Holds(Tree),
    Fails(Tree),
}

/// The type of a coroutine that yields and receives values.
pub open spec fn coroutine(yields: Tree, receives: Tree) -> Tree {
    Tree::app(Tree::con("coroutine"@), seq![yields, receives])
}

/// The type of a coroutine that yields and receives values.
pub fn coroutine_type(yield_ty: Ty, send_ty: Ty) -> (r: Ty)
    ensures
        r@ == coroutine(yield_ty@, send_ty@),
{
    app(con("coroutine"), tys2(yield_ty, send_ty))
}

/// The names and types of a record, in diagnostics.
pub open spec fn record_text(names: Seq<Seq<char>>, kids: Seq<Tree>) -> Seq<char> {
    Tree::Node(Head::Record(names), kids).text()
}

/// The variants of a declared enum: names paired with payloads.
pub open spec fn declared_variants(names: Seq<Seq<char>>, payloads: Seq<Tree>) -> Seq<
    (Seq<char>, Tree),
> {
    Seq::new(
        if names.len() < payloads.len() {
            names.len()
        } else {
            payloads.len()
        },
        |i: int| (names[i], payloads[i]),
    )
}

/// The variants of a declared enum: names paired with payloads.
pub fn pair_variants(names: &Vec<String>, payloads: &Vec<EnumVariantPayloadTy>) -> (r: Vec<
    (String, EnumVariantPayloadTy),
>)
    ensures
        r.deep_view() == declared_variants(names.deep_view(), payloads.deep_view()),
{
    let ghost all = declared_variants(names.deep_view(), payloads.deep_view());
    let mut out: Vec<(String, EnumVariantPayloadTy)> = Vec::new();
    let mut i: usize = 0;
    while i < names.len() && i < payloads.len()
        invariant
            i <= names.len(),
            i <= payloads.len(),
            all == declared_variants(names.deep_view(), payloads.deep_view()),
            out.deep_view() == all.take(i as int),
        decreases names.len() - i,
    {
        let ghost before = out.deep_view();
        let pair = (names[i].clone(), payloads[i].clone());
        assert(names.deep_view()[i as int] == names@[i as int]@);
        assert(payloads.deep_view()[i as int] == payloads@[i as int]@);
        out.push(pair);
        assert(out.deep_view() =~= before.push((pair.0@, pair.1@)));
        i += 1;
        assert(out.deep_view() =~= all.take(i as int));
    }
    assert(out.deep_view() =~= all);
    out
}

impl CheckerV {
    /// An operator on a variable goes through a dictionary, or a missing bound
    /// is reported.
    pub open spec fn bound_operator(
        self,
        var: TyVarId,
        id: Option<NodeId>,
        range: Span,
        class: Seq<char>,
        method: Seq<char>,
        complaint: Seq<char>,
    ) -> CheckerV {
        let c = if self.user_dict(var, class, 0) is None {
            self.bind_matching_abstract_constraints(Some(var), class, 0)
        } else {
            self
        };
        if c.user_dict(var, class, 0) is Some {
            c.record_bound_operator(id, range, var, class, method)
        } else if c.var_in_scope(var) {
            c.say(ErrorCode::GenericTypeError, complaint, range)
        } else {
            c
        }
    }

    /// A comparison of two types.
    pub open spec fn finish_comparison(
        self,
        left: Tree,
        right: Tree,
        id: Option<NodeId>,
        range: Span,
        class: Seq<char>,
        method: Seq<char>,
    ) -> (CheckerV, Tree) {
        let (c, t) = self.unify(
            calls::packed_ty(left),
            calls::packed_ty(right),
            range,
            "comparison operands"@,
        );
        match c.resolve(t) {
            Tree::Var(v) => (
                c.bound_operator(
                    v,
                    id,
                    range,
                    class,
                    method,
                    "Cannot compare generic type without bound `"@ + class + "`"@,
                ),
                Tree::con("bool"@),
            ),
            _ => (c, Tree::con("bool"@)),
        }
    }

    /// The result of an operator whose operands have the type `result`.
    pub open spec fn arith_result(self, result: Tree, id: Option<NodeId>, range: Span, op: Seq<char>) -> CheckerV {
        match self.resolve(result) {
            Tree::Var(v) => match op_method(op) {
                Some((class, method)) => self.bound_operator(
                    v,
                    id,
                    range,
                    class,
                    method,
                    "Cannot apply `"@ + op + "` to value of generic type without bound `"@ + class
                        + "`"@,
                ),
                None => if self.var_in_scope(v) {
                    self.say(
                        ErrorCode::GenericTypeError,
                        "Operator `"@ + op + "` is not available through an arithmetic trait"@,
                        range,
                    )
                } else {
                    self
                },
            },
            _ => self,
        }
    }

    /// An arithmetic operator on two types; `+` also joins strings.
    pub open spec fn finish_arith(
        self,
        left: Tree,
        right: Tree,
        id: Option<NodeId>,
        range: Span,
        op: Seq<char>,
    ) -> (CheckerV, Tree) {
        let l = self.resolve(left) == Tree::con("string"@);
        let r = self.resolve(right) == Tree::con("string"@);
        if op == "+"@ && l && r {
            (self, Tree::con("string"@))
        } else {
            let (c, t) = self.unify(left, right, range, "operands of `"@ + op + "`"@);
            if op == "+"@ && (l || r) {
                (c, t)
            } else {
                (c.arith_result(t, id, range, op), t)
            }
        }
    }

    /// A compound assignment to a target of type `target`.
    pub open spec fn finish_compound(self, target: Tree, value: Tree, op: AssignOp, range: Span) -> (
        CheckerV,
        Tree,
    ) {
        let c = if is_bitwise(op) {
            self
        } else {
            self.unify(target, value, range, "operands of `"@ + op_sign(op) + "=`"@).0
        };
        (c, c.resolve(target))
    }

    /// A variable that is assigned to.
    pub open spec fn lvalue_name(self, name: Seq<char>, range: Span) -> (CheckerV, Tree) {
        match self.lookup(name) {
            Some(scheme) => {
                let (c, t) = self.instantiate_ty(scheme);
                if c.is_const(name) {
                    (
                        c.report(
                            MessageV::error(
                                ErrorCode::FormatSpecifierMismatch,
                                "Cannot assign to constant `"@ + name + "`"@,
                                range,
                            ).helped("constants are immutable after their initializer"@),
                        ),
                        t,
                    )
                } else {
                    (c, t)
                }
            },
            None => self.error_with_help(
                ErrorCode::UndeclaredAssignment,
                "Cannot assign to undeclared variable `"@ + name + "`"@,
                range,
                "try declaring it first with `let "@ + name + ";`"@,
            ),
        }
    }

    /// What cannot be assigned to is reported.
    pub open spec fn bad_target(self, range: Span, help: Seq<char>) -> (CheckerV, Tree) {
        self.error_with_help(
            ErrorCode::InvalidAssignment,
            "Invalid assignment target"@,
            range,
            help,
        )
    }

    /// The class that a type is an instance of, and its arguments.
    pub open spec fn class_instance(self, t: Tree) -> Option<(Seq<char>, Seq<Tree>)> {
        match t {
            Tree::Node(Head::Con(name), _) => if self.reg.classes.contains_key(name) {
                Some((name, Seq::empty()))
            } else {
                None
            },
            Tree::Node(Head::App, kids) => if kids.len() > 0 {
                match kids[0] {
                    Tree::Node(Head::Con(name), _) => if self.reg.classes.contains_key(name) {
                        Some((name, kids.drop_first()))
                    } else {
                        None
                    },
                    _ => None,
                }
            } else {
                None
            },
            _ => None,
        }
    }

    /// A field that is assigned to.
    pub open spec fn lvalue_field(self, receiver: Tree, field: Seq<char>, range: Span) -> (
        CheckerV,
        Tree,
    ) {
        let t = self.resolve(receiver);
        match (self.class_instance(t), t) {
            (Some((class, args)), _) => self.access_class_field(class, field, args, range),
            (None, Tree::Node(Head::Record(names), kids)) => match fields::name_place(
                names,
                field,
                0,
            ) {
                Some(i) => (self, kids[i as int]),
                None => self.error_with_help(
                    ErrorCode::UnknownField,
                    "Cannot find field `"@ + field + "` on record"@,
                    range,
                    "the record has fields: "@ + text::joined(names, ", "@),
                ),
            },
            (None, _) => self.bad_target(
                range,
                "only variables, dict fields, class fields, and array elements may be assigned"@,
            ),
        }
    }

    /// An index outside of an array is reported.
    pub open spec fn array_bounds_text(i: i64, n: usize) -> Seq<char> {
        "array index "@ + text::signed(i as int) + " out of bounds for array of length "@
            + text::decimal(n as nat)
    }

    /// An element that is assigned to.
    pub open spec fn lvalue_element(self, target: Tree, index: Option<i64>, range: Span) -> (
        CheckerV,
        Tree,
    ) {
        match target {
            Tree::Node(Head::Array(length), kids) => match length {
                ArrayLength::Static(n) => if out_of_bounds(index, n as nat) {
                    (
                        self.error(
                            ErrorCode::IndexOutOfBounds,
                            CheckerV::array_bounds_text(index.unwrap(), n),
                            range,
                        ).0,
                        kids[0],
                    )
                } else {
                    (self, kids[0])
                },
                ArrayLength::Dynamic => (self, kids[0]),
            },
            Tree::Node(Head::Tuple, _) => self.bad_target(range, "tuple elements are immutable"@),
            _ => self.bad_target(range, "only array elements may be indexed for assignment"@),
        }
    }

    /// An element that is read.
    pub open spec fn finish_index(self, target: Tree, index: Option<i64>, range: Span) -> (
        CheckerV,
        Tree,
    ) {
        let t = self.resolve(target);
        match t {
            Tree::Node(Head::Array(length), kids) => match length {
                ArrayLength::Static(n) => if out_of_bounds(index, n as nat) {
                    (
                        self.error_with_help(
                            ErrorCode::IndexOutOfBounds,
                            CheckerV::array_bounds_text(index.unwrap(), n),
                            range,
                            "indices are valid in [0.."@ + text::decimal(n as nat)
                                + "); the array has length "@ + text::decimal(n as nat),
                        ).0,
                        kids[0],
                    )
                } else {
                    (self, kids[0])
                },
                ArrayLength::Dynamic => (self, kids[0]),
            },
            Tree::Node(Head::Tuple, kids) => match index {
                Some(i) => if out_of_bounds(index, kids.len()) {
                    let c = self.error_with_help(
                        ErrorCode::IndexOutOfBounds,
                        "tuple index "@ + text::signed(i as int)
                            + " out of bounds for tuple of length "@ + text::decimal(kids.len()),
                        range,
                        "indices are valid in [0.."@ + text::decimal(kids.len())
                            + "); the tuple has length "@ + text::decimal(kids.len()),
                    ).0;
                    c.fresh()
                } else {
                    (self, kids[(i as usize) as int])
                },
                None => self.fresh(),
            },
            _ => {
                let c = self.error_with_help(
                    ErrorCode::CannotIndex,
                    "cannot index non-aggregate type"@,
                    range,
                    "type `"@ + t.text() + "` does not support indexing"@,
                ).0;
                c.fresh()
            },
        }
    }

    /// A field that a value does not have is reported.
    pub open spec fn not_a_record(self, field: Seq<char>, range: Span, help: Seq<char>) -> (
        CheckerV,
        Tree,
    ) {
        self.error_with_help(
            ErrorCode::GenericTypeError,
            "Cannot access field `"@ + field + "` on non-record type"@,
            range,
            help,
        )
    }

    /// A field that is read.
    pub open spec fn finish_access(self, receiver: Tree, field: Seq<char>, range: Span) -> (
        CheckerV,
        Tree,
    ) {
        let t = self.resolve(receiver);
        match (self.class_instance(t), t) {
            (Some((class, args)), _) => self.access_class_field(class, field, args, range),
            (None, Tree::Node(Head::Sum(name, tags), kids)) => self.access_field_in_sum(
                name,
                enums::sum_variants(tags, kids),
                None,
                field,
                range,
            ),
            (None, Tree::Node(Head::Constructor(tag, _), owner)) => match owner[0] {
                Tree::Node(Head::Sum(name, tags), kids) => self.access_field_in_sum(
                    name,
                    enums::sum_variants(tags, kids),
                    Some(tag),
                    field,
                    range,
                ),
                _ => self.not_a_record(
                    field,
                    range,
                    "only values of record-shaped enum types expose fields"@,
                ),
            },
            (None, Tree::Node(Head::Con(name), _)) => {
                let names = if self.reg.enums.contains_key(name) {
                    self.reg.enums[name]
                } else {
                    Seq::empty()
                };
                let payloads = if self.reg.enum_payloads.contains_key(name) {
                    self.reg.enum_payloads[name]
                } else {
                    Seq::empty()
                };
                if names.len() == 0 {
                    self.not_a_record(
                        field,
                        range,
                        "type `"@ + name + "` is not a record-shaped enum"@,
                    )
                } else {
                    self.access_field_in_sum(
                        name,
                        declared_variants(names, payloads),
                        None,
                        field,
                        range,
                    )
                }
            },
            (None, Tree::Node(Head::Record(names), kids)) => match fields::name_place(
                names,
                field,
                0,
            ) {
                Some(i) => (self, kids[i as int]),
                None => self.error_with_help(
                    ErrorCode::GenericTypeError,
                    "Cannot find field `"@ + field + "` on record `"@ + t.text() + "`"@,
                    range,
                    if names.len() == 0 {
                        "the record has no fields"@
                    } else {
                        "the record has fields: "@ + text::joined(names, ", "@)
                    },
                ),
            },
            (None, _) => self.not_a_record(
                field,
                range,
                "only values of record-shaped enum types expose fields"@,
            ),
        }
    }

    /// `!` of a type.
    pub open spec fn finish_logical_not(self, t: Tree, range: Span) -> (CheckerV, Tree) {
        let p = self.resolve(t);
        if p == Tree::con("bool"@) || p == Tree::con("int"@) {
            (self, Tree::con("bool"@))
        } else {
            (
                self.error_with_help(
                    ErrorCode::GenericTypeError,
                    "Logical NOT requires a `bool` or `int` operand"@,
                    range,
                    "found `"@ + p.text() + "`; use `~` for bitwise negation on integers"@,
                ).0,
                Tree::con("bool"@),
            )
        }
    }

    /// `++` and `--` on a target of type `t`.
    pub open spec fn finish_adjust(self, t: Tree, range: Span) -> (CheckerV, Tree) {
        let p = self.resolve(t);
        if p == Tree::con("int"@) || p == Tree::con("float"@) {
            (self, p)
        } else {
            (
                self.error_with_help(
                    ErrorCode::GenericTypeError,
                    "Increment/decrement requires a numeric lvalue"@,
                    range,
                    "only `int` and `float` variables, fields, and indices support ++/--"@,
                ).0,
                p,
            )
        }
    }

    /// `?` on a value of type `t`.
    pub open spec fn finish_try(self, t: Tree, range: Span) -> (CheckerV, Tree) {
        let r = self.resolve(t);
        match enums::result_items(r) {
            Some((ok, err)) => (self.ensure_result_mode(err, range).0, ok),
            None => if enums::is_option(r) {
                let (c, item) = match enums::option_item(r) {
                    Some(x) => (self, x),
                    None => self.fresh(),
                };
                (c.ensure_option_mode(item, range), item)
            } else if r is Var {
                let (c, ok) = self.fresh();
                let (c, err) = c.fresh();
                let c = c.unify(t, Tree::result_sum(ok, err), range, "try operand"@).0;
                (c.ensure_result_mode(err, range).0, ok)
            } else {
                self.error(
                    ErrorCode::InvalidTry,
                    "`?` requires Option or Result, found `"@ + r.text() + "`"@,
                    range,
                )
            },
        }
    }

    /// What `??` takes out of a value of type `t`.
    pub open spec fn coalesce_payload(self, t: Tree, place: Span, range: Span) -> (CheckerV, Payload) {
        let r = self.resolve(t);
        match enums::result_items(r) {
            Some((ok, _)) => (self, Payload::Holds(ok)),
            None => if enums::is_option(r) {
                let (c, item) = match enums::option_item(r) {
                    Some(x) => (self, x),
                    None => self.fresh(),
                };
                (c, Payload::Holds(item))
            } else if r is Var {
                let (c, item) = self.fresh();
                (
                    c.unify(t, Tree::option_sum(item), place, "coalesce lhs"@).0,
                    Payload::Holds(item),
                )
            } else {
                let (c, e) = self.error(
                    ErrorCode::InvalidCoalesce,
                    "`??` requires Option or Result, found `"@ + r.text() + "`"@,
                    range,
                );
                (c, Payload::Fails(e))
            },
        }
    }

    /// `?.field` on a value of type `t`.
    pub open spec fn finish_optional_access(
        self,
        t: Tree,
        field: Seq<char>,
        place: Span,
        range: Span,
    ) -> (CheckerV, Tree) {
        let r = self.resolve(t);
        if enums::is_option(r) || r is Var {
            let (c, item) = if enums::is_option(r) {
                match enums::option_item(r) {
                    Some(x) => (self, x),
                    None => self.fresh(),
                }
            } else {
                let (c, x) = self.fresh();
                (
                    c.unify(t, Tree::option_sum(x), place, "optional access receiver"@).0,
                    x,
                )
            };
            let (c, f) = c.field_type_from_ty(item, field, range);
            (c, Tree::option_sum(f))
        } else {
            self.error(
                ErrorCode::InvalidOptionalAccess,
                "`?.` requires Option, found `"@ + r.text() + "`"@,
                range,
            )
        }
    }

    /// The type of an array literal so far, with one more element.
    pub open spec fn finish_element(self, sofar: Option<Tree>, t: Tree, range: Span) -> (
        CheckerV,
        Tree,
    ) {
        let x = self.resolve(t);
        match sofar {
            None => (self, x),
            Some(p) => {
                let e = self.resolve(p);
                if unify::unified(self.subst, e, x) is Ok {
                    (self, p)
                } else {
                    (
                        self.error_with_help(
                            ErrorCode::TypeMismatch,
                            "array element type mismatch: expected `"@ + e.text() + "`, found `"@
                                + x.text() + "`"@,
                            range,
                            "an array literal requires every element to have the same type"@,
                        ).0,
                        p,
                    )
                }
            },
        }
    }

    /// Repeated names of a record literal are reported, from place `at` on.
    pub open spec fn report_repeated(
        self,
        fields: Seq<FieldInit>,
        range: Span,
        at: nat,
        seen: Set<Seq<char>>,
    ) -> CheckerV
        decreases fields.len() - at,
    {
        if at >= fields.len() {
            self
        } else {
            let name = fields[at as int].name@;
            let c = if seen.contains(name) {
                self.error_with_help(
                    ErrorCode::DuplicateField,
                    "Duplicate field `"@ + name + "` in record literal"@,
                    range,
                    "record literals must have unique field names"@,
                ).0
            } else {
                self
            };
            c.report_repeated(fields, range, at + 1, seen.insert(name))
        }
    }

    /// A variable that holds an array becomes one of any length.
    pub open spec fn rebind_array(self, target: Output, t: Tree) -> CheckerV {
        match bare_name(target) {
            Some(name) => self.bind(name, SchemeV::mono(t)).note_var(name, t),
            None => self,
        }
    }

    /// `push(array, value)`.
    pub open spec fn finish_push(self, target: Output, value: Output, array_ty: Tree, value_ty: Tree) -> (
        CheckerV,
        Tree,
    ) {
        match self.resolve(array_ty) {
            Tree::Node(Head::Array(_), kids) => {
                let c = self.coerce_or_unify(
                    kids[0],
                    value_ty,
                    Some(value),
                    value.span,
                    "push element"@,
                ).0;
                let t = Tree::array(c.resolve(kids[0]), ArrayLength::Dynamic);
                (c.rebind_array(target, t), t)
            },
            Tree::Var(v) => {
                let (c, e) = self.fresh();
                let open = Tree::array(e, ArrayLength::Dynamic);
                let c = c.unify(Tree::Var(v), open, target.span, "push array"@).0;
                let c = c.unify(e, value_ty, value.span, "push element"@).0;
                let t = c.resolve(open);
                (c.rebind_array(target, t), t)
            },
            other => self.error_with_help(
                ErrorCode::ConstructorArity,
                "push expects an array as its first argument"@,
                target.span,
                "found `"@ + other.text() + "`; use `push(array, value)`"@,
            ),
        }
    }

    /// `len(array)`.
    pub open spec fn finish_len(self, t: Tree, place: Span) -> (CheckerV, Tree) {
        match self.resolve(t) {
            Tree::Node(Head::Array(_), _) => (self, Tree::con("int"@)),
            Tree::Var(v) => {
                let (c, e) = self.fresh();
                (
                    c.unify(
                        Tree::Var(v),
                        Tree::array(e, ArrayLength::Dynamic),
                        place,
                        "len array"@,
                    ).0,
                    Tree::con("int"@),
                )
            },
            other => self.error_with_help(
                ErrorCode::ConstructorArity,
                "len expects an array"@,
                place,
                "found `"@ + other.text() + "`; use `len(array)`"@,
            ),
        }
    }

    /// A builtin called with a wrong number of arguments is reported.
    pub open spec fn wrong_arity(self, what: Seq<char>, got: nat, range: Span, help: Seq<char>) -> (
        CheckerV,
        Tree,
    ) {
        self.error_with_help(
            ErrorCode::ConstructorArity,
            what + ", got "@ + text::decimal(got),
            range,
            help,
        )
    }

    /// A coroutine handle of fresh types is expected of a value of type `t`.
    pub open spec fn expect_coroutine(self, t: Tree, range: Span, what: Seq<char>) -> (
        CheckerV,
        Tree,
        Tree,
    ) {
        let (c, y) = self.fresh();
        let (c, s) = c.fresh();
        (c.unify(t, coroutine(y, s), range, what).0, y, s)
    }
}

/// The payload of `??`, or the error that stands for the whole expression.
#[derive(Debug)]
pub enum CoalescePayload {
    Holds(Ty),
    Fails(Ty),
}

impl View for CoalescePayload {
    type V = Payload;

    open spec fn view(&self) -> Payload {
        match self {
            CoalescePayload::Holds(t) => Payload::Holds(t@),
            CoalescePayload::Fails(t) => Payload::Fails(t@),
        }
    }
}

impl Checker {
    fn bound_operator(
        &mut self,
        var: TyVarId,
        id: Option<NodeId>,
        range: Span,
        class: &str,
        method: &str,
        complaint: String,
    )
        ensures
            final(self)@ == old(self)@.bound_operator(
                var,
                id,
                range,
                class@,
                method@,
                complaint@,
            ),
    {
        if self.user_dict_index_and_class(var, class).is_none() {
            self.bind_matching_abstract_constraints(Some(var), class);
        }
        if self.user_dict_index_and_class(var, class).is_some() {
            self.record_bound_operator(id, range, var, class, method);
        } else if self.var_in_scope(var) {
            self.say(ErrorCode::GenericTypeError, complaint, range);
        }
    }

    /// A comparison of two types. Constructor refinements and structural enums
    /// count as the enum, so `Color::Red == Color::Blue` compares colors.
    pub fn finish_comparison(
        &mut self,
        left: &Ty,
        right: &Ty,
        id: Option<NodeId>,
        range: Span,
        class: &str,
        method: &str,
    ) -> (r: Ty)
        ensures
            (final(self)@, r@) == old(self)@.finish_comparison(
                left@,
                right@,
                id,
                range,
                class@,
                method@,
            ),
    {
        let l = existential_lookup_ty(left);
        let r = existential_lookup_ty(right);
        let t = self.unify(&l, &r, range, "comparison operands");
        if let Ty::Var(v) = self.resolve(&t) {
            self.bound_operator(
                v,
                id,
                range,
                class,
                method,
                cat3("Cannot compare generic type without bound `", class, "`"),
            );
        }
        boolean()
    }

    fn arith_result(&mut self, result: &Ty, id: Option<NodeId>, range: Span, op: &str)
        ensures
            final(self)@ == old(self)@.arith_result(result@, id, range, op@),
    {
        if let Ty::Var(v) = self.resolve(result) {
            match arith_method(op) {
                Some((class, method)) => {
                    self.bound_operator(
                        v,
                        id,
                        range,
                        class,
                        method,
                        cat5(
                            "Cannot apply `",
                            op,
                            "` to value of generic type without bound `",
                            class,
                            "`",
                        ),
                    );
                },
                None => {
                    if self.var_in_scope(v) {
                        self.say(
                            ErrorCode::GenericTypeError,
                            cat3(
                                "Operator `",
                                op,
                                "` is not available through an arithmetic trait",
                            ),
                            range,
                        );
                    }
                },
            }
        }
    }

    /// An arithmetic operator on two types. `+` also joins strings. Open type
    /// variables need the matching operator trait (`Add` for `+`, ..).
    pub fn finish_arith(
        &mut self,
        left: &Ty,
        right: &Ty,
        id: Option<NodeId>,
        range: Span,
        op: &str,
    ) -> (r: Ty)
        ensures
            (final(self)@, r@) == old(self)@.finish_arith(left@, right@, id, range, op@),
    {
        let plus = same_text(op, "+");
        let l = is_string_ty(&self.resolve(left));
        let r = is_string_ty(&self.resolve(right));
        if plus && l && r {
            return string();
        }
        let what = cat3("operands of `", op, "`");
        let t = self.unify(left, right, range, what.as_str());
        if plus && (l || r) {
            return t;
        }
        self.arith_result(&t, id, range, op);
        t
    }

    /// A compound assignment.
    pub fn finish_compound(&mut self, target: &Ty, value: &Ty, op: AssignOp, range: Span) -> (r: Ty)
        ensures
            (final(self)@, r@) == old(self)@.finish_compound(target@, value@, op, range),
    {
        if !bitwise_op(op) {
            let what = cat3("operands of `", compound_op_name(op), "=`");
            let _ = self.unify(target, value, range, what.as_str());
        }
        self.resolve(target)
    }

    /// A variable that is assigned to.
    pub fn lvalue_name(&mut self, name: &str, range: Span) -> (r: Ty)
        ensures
            (final(self)@, r@) == old(self)@.lvalue_name(name@, range),
    {
        match self.lookup(name) {
            Some(scheme) => {
                let t = self.instantiate_ty(&scheme);
                if self.is_const_binding(name) {
                    let mut msg = Message::error(
                        ErrorCode::FormatSpecifierMismatch,
                        cat3("Cannot assign to constant `", name, "`"),
                        range,
                    );
                    msg.with_help("constants are immutable after their initializer".to_owned());
                    self.report(msg);
                }
                t
            },
            None => self.error_with_help(
                ErrorCode::UndeclaredAssignment,
                cat3("Cannot assign to undeclared variable `", name, "`"),
                range,
                cat3("try declaring it first with `let ", name, ";`"),
            ),
        }
    }

    /// Report what cannot be assigned to.
    pub fn bad_target(&mut self, range: Span, help: &str) -> (r: Ty)
        ensures
            (final(self)@, r@) == old(self)@.bad_target(range, help@),
    {
        self.error_with_help(
            ErrorCode::InvalidAssignment,
            "Invalid assignment target".to_owned(),
            range,
            help.to_owned(),
        )
    }

    pub fn class_instance(&self, t: &Ty) -> (r: Option<(String, Vec<Ty>)>)
        ensures
            r.deep_view() == self@.class_instance(t@),
    {
        match t {
            Ty::Con(name) => if self.reg.classes.contains_key(name.as_str()) {
                let none: Vec<Ty> = Vec::new();
                assert(none.deep_view() =~= Seq::<Tree>::empty());
                Some((name.clone(), none))
            } else {
                None
            },
            Ty::App(head, args) => {
                assert(t@.kids()[0] == head@);
                match &**head {
                    Ty::Con(name) => if self.reg.classes.contains_key(name.as_str()) {
                        Some((name.clone(), ty::copy_tys(args)))
                    } else {
                        None
                    },
                    _ => None,
                }
            },
            _ => None,
        }
    }

    /// A field that is assigned to.
    pub fn lvalue_field(&mut self, receiver: &Ty, field: &str, range: Span) -> (r: Ty)
        ensures
            (final(self)@, r@) == old(self)@.lvalue_field(receiver@, field@, range),
    {
        let t = self.resolve(receiver);
        if let Some((class, args)) = self.class_instance(&t) {
            return self.access_class_field(class.as_str(), field, &args, range);
        }
        match &t {
            Ty::Record { fields } => match find_field(fields, field) {
                Some(i) => {
                    assert(t@.kids()[i as int] == fields@[i as int].1@);
                    fields[i].1.clone()
                },
                None => {
                    let names = field_names(fields);
                    let joined = join_with(&names, ", ");
                    self.error_with_help(
                        ErrorCode::UnknownField,
                        cat3("Cannot find field `", field, "` on record"),
                        range,
                        cat2("the record has fields: ", joined.as_str()),
                    )
                },
            },
            _ => self.bad_target(
                range,
                "only variables, dict fields, class fields, and array elements may be assigned",
            ),
        }
    }

    /// An element that is assigned to.
    pub fn lvalue_element(&mut self, target: &Ty, index: Option<i64>, range: Span) -> (r: Ty)
        ensures
            (final(self)@, r@) == old(self)@.lvalue_element(target@, index, range),
    {
        match target {
            Ty::Array { element, length } => {
                assert(target@.kids()[0] == element@);
                if let ArrayLength::Static(n) = length {
                    if is_out_of_bounds(index, *n) {
                        if let Some(i) = index {
                            let text = array_bounds_message(i, *n);
                            let _ = self.error(ErrorCode::IndexOutOfBounds, text, range);
                        }
                    }
                }
                (**element).clone()
            },
            Ty::Tuple(_) => self.bad_target(range, "tuple elements are immutable"),
            _ => self.bad_target(range, "only array elements may be indexed for assignment"),
        }
    }

    /// An element that is read. The bounds are checked when the length and the
    /// index are known here.
    pub fn finish_index(&mut self, target: &Ty, index: Option<i64>, range: Span) -> (r: Ty)
        ensures
            (final(self)@, r@) == old(self)@.finish_index(target@, index, range),
    {
        let t = self.resolve(target);
        match &t {
            Ty::Array { element, length } => {
                assert(t@.kids()[0] == element@);
                if let ArrayLength::Static(n) = length {
                    if is_out_of_bounds(index, *n) {
                        if let Some(i) = index {
                            let text = array_bounds_message(i, *n);
                            let m = number(*n);
                            let _ = self.error_with_help(
                                ErrorCode::IndexOutOfBounds,
                                text,
                                range,
                                cat4(
                                    "indices are valid in [0..",
                                    m.as_str(),
                                    "); the array has length ",
                                    m.as_str(),
                                ),
                            );
                        }
                    }
                }
                (**element).clone()
            },
            Ty::Tuple(items) => {
                match index {
                    Some(i) => if is_out_of_bounds(index, items.len()) {
                        let k = signed_number(i);
                        let m = number(items.len());
                        let _ = self.error_with_help(
                            ErrorCode::IndexOutOfBounds,
                            cat4(
                                "tuple index ",
                                k.as_str(),
                                " out of bounds for tuple of length ",
                                m.as_str(),
                            ),
                            range,
                            cat4(
                                "indices are valid in [0..",
                                m.as_str(),
                                "); the tuple has length ",
                                m.as_str(),
                            ),
                        );
                        self.fresh()
                    } else {
                        assert(t@.kids()[(i as usize) as int] == items@[(i as usize) as int]@);
                        items[i as usize].clone()
                    },
                    None => self.fresh(),
                }
            },
            _ => {
                let s = ty_text(&t);
                let _ = self.error_with_help(
                    ErrorCode::CannotIndex,
                    "cannot index non-aggregate type".to_owned(),
                    range,
                    cat3("type `", s.as_str(), "` does not support indexing"),
                );
                self.fresh()
            },
        }
    }

    fn not_a_record(&mut self, field: &str, range: Span, help: String) -> (r: Ty)
        ensures
            (final(self)@, r@) == old(self)@.not_a_record(field@, range, help@),
    {
        self.error_with_help(
            ErrorCode::GenericTypeError,
            cat3("Cannot access field `", field, "` on non-record type"),
            range,
            help,
        )
    }

    fn access_declared(&mut self, name: &str, field: &str, range: Span) -> (r: Ty)
        requires
            old(self)@.class_instance(Tree::con(name@)) is None,
            old(self)@.resolve(Tree::con(name@)) == Tree::con(name@),
        ensures
            (final(self)@, r@) == old(self)@.finish_access(Tree::con(name@), field@, range),
    {
        let names: Vec<String> = match self.reg.enums.get(name) {
            Some(v) => v.dup(),
            None => Vec::new(),
        };
        let payloads: Vec<EnumVariantPayloadTy> = match self.reg.enum_payloads.get(name) {
            Some(v) => v.dup(),
            None => Vec::new(),
        };
        proof {
            if !self@.reg.enums.contains_key(name@) {
                assert(names.deep_view() =~= Seq::<Seq<char>>::empty());
            }
            if !self@.reg.enum_payloads.contains_key(name@) {
                assert(payloads.deep_view() =~= Seq::<Tree>::empty());
            }
        }
        if names.len() == 0 {
            return self.not_a_record(
                field,
                range,
                cat3("type `", name, "` is not a record-shaped enum"),
            );
        }
        let variants = pair_variants(&names, &payloads);
        self.access_field_in_sum(name, &variants, None, field, range)
    }

    /// A field that is read.
    pub fn finish_access(&mut self, receiver: &Ty, field: &str, range: Span) -> (r: Ty)
        ensures
            (final(self)@, r@) == old(self)@.finish_access(receiver@, field@, range),
    {
        let t = self.resolve(receiver);
        if let Some((class, args)) = self.class_instance(&t) {
            return self.access_class_field(class.as_str(), field, &args, range);
        }
        match &t {
            Ty::Sum { name, variants } => {
                assert(variants.deep_view() =~= enums::sum_variants(
                    t@.head()->Sum_1,
                    t@.kids(),
                ));
                self.access_field_in_sum(name.as_str(), variants, None, field, range)
            },
            Ty::Constructor { tag, owner, .. } => {
                assert(t@.kids()[0] == owner@);
                match &**owner {
                    Ty::Sum { name, variants } => {
                        assert(variants.deep_view() =~= enums::sum_variants(
                            owner@.head()->Sum_1,
                            owner@.kids(),
                        ));
                        self.access_field_in_sum(name.as_str(), variants, Some(*tag), field, range)
                    },
                    _ => self.not_a_record(
                        field,
                        range,
                        "only values of record-shaped enum types expose fields".to_owned(),
                    ),
                }
            },
            Ty::Con(name) => {
                proof {
                    assert(Tree::con(name@).rewrite(self@.subst, Map::empty()) == Tree::con(
                        name@,
                    )) by {
                        tree::rewrite_node(
                            Head::Con(name@),
                            Seq::empty(),
                            self@.subst,
                            Map::empty(),
                        );
                        assert(tree::rewrite_all(Seq::empty(), self@.subst, Map::empty())
                            =~= Seq::<Tree>::empty());
                    }
                }
                self.access_declared(name.as_str(), field, range)
            },
            Ty::Record { fields } => match find_field(fields, field) {
                Some(i) => {
                    assert(t@.kids()[i as int] == fields@[i as int].1@);
                    fields[i].1.clone()
                },
                None => {
                    let names = field_names(fields);
                    let s = ty_text(&t);
                    let help = if names.len() == 0 {
                        "the record has no fields".to_owned()
                    } else {
                        let joined = join_with(&names, ", ");
                        cat2("the record has fields: ", joined.as_str())
                    };
                    self.error_with_help(
                        ErrorCode::GenericTypeError,
                        cat5("Cannot find field `", field, "` on record `", s.as_str(), "`"),
                        range,
                        help,
                    )
                },
            },
            _ => self.not_a_record(
                field,
                range,
                "only values of record-shaped enum types expose fields".to_owned(),
            ),
        }
    }

    /// `!` of a type.
    pub fn finish_logical_not(&mut self, t: &Ty, range: Span) -> (r: Ty)
        ensures
            (final(self)@, r@) == old(self)@.finish_logical_not(t@, range),
    {
        let p = self.resolve(t);
        if !(is_con(&p, "bool") || is_con(&p, "int")) {
            let s = ty_text(&p);
            let _ = self.error_with_help(
                ErrorCode::GenericTypeError,
                "Logical NOT requires a `bool` or `int` operand".to_owned(),
                range,
                cat3("found `", s.as_str(), "`; use `~` for bitwise negation on integers"),
            );
        }
        boolean()
    }

    /// `++` and `--` on a target.
    pub fn finish_adjust(&mut self, t: &Ty, range: Span) -> (r: Ty)
        ensures
            (final(self)@, r@) == old(self)@.finish_adjust(t@, range),
    {
        let p = self.resolve(t);
        if !(is_con(&p, "int") || is_con(&p, "float")) {
            let _ = self.error_with_help(
                ErrorCode::GenericTypeError,
                "Increment/decrement requires a numeric lvalue".to_owned(),
                range,
                "only `int` and `float` variables, fields, and indices support ++/--".to_owned(),
            );
        }
        p
    }

    fn item_of_option(&mut self, t: &Ty) -> (r: Ty)
        ensures
            match enums::option_item(t@) {
                Some(x) => final(self)@ == old(self)@ && r@ == x,
                None => (final(self)@, r@) == old(self)@.fresh(),
            },
    {
        match option_inner(t) {
            Some(x) => x,
            None => self.fresh(),
        }
    }

    /// `?` on a value. A type that is still open is taken for a `Result`.
    pub fn finish_try(&mut self, t: &Ty, range: Span) -> (r: Ty)
        ensures
            (final(self)@, r@) == old(self)@.finish_try(t@, range),
    {
        let resolved = self.resolve(t);
        if let Some((ok, err)) = result_ok_err(&resolved) {
            let _ = self.ensure_result_mode(&err, range);
            return ok;
        }
        if is_option_ty(&resolved) {
            let item = self.item_of_option(&resolved);
            self.ensure_option_mode(&item, range);
            return item;
        }
        if matches!(&resolved, Ty::Var(_)) {
            let ok = self.fresh();
            let err = self.fresh();
            let result = result_ty(ok.clone(), err.clone());
            let _ = self.unify(t, &result, range, "try operand");
            let _ = self.ensure_result_mode(&err, range);
            return ok;
        }
        let s = ty_text(&resolved);
        self.error(
            ErrorCode::InvalidTry,
            cat3("`?` requires Option or Result, found `", s.as_str(), "`"),
            range,
        )
    }

    /// What `??` takes out of a value. A type that is still open is taken for an
    /// `Option`.
    pub fn coalesce_payload(&mut self, t: &Ty, place: Span, range: Span) -> (r: CoalescePayload)
        ensures
            (final(self)@, r@) == old(self)@.coalesce_payload(t@, place, range),
    {
        let resolved = self.resolve(t);
        if let Some((ok, _)) = result_ok_err(&resolved) {
            return CoalescePayload::Holds(ok);
        }
        if is_option_ty(&resolved) {
            return CoalescePayload::Holds(self.item_of_option(&resolved));
        }
        if matches!(&resolved, Ty::Var(_)) {
            let item = self.fresh();
            let opt = option_ty(item.clone());
            let _ = self.unify(t, &opt, place, "coalesce lhs");
            return CoalescePayload::Holds(item);
        }
        let s = ty_text(&resolved);
        CoalescePayload::Fails(
            self.error(
                ErrorCode::InvalidCoalesce,
                cat3("`??` requires Option or Result, found `", s.as_str(), "`"),
                range,
            ),
        )
    }

    /// `?.field` on a value.
    pub fn finish_optional_access(&mut self, t: &Ty, field: &str, place: Span, range: Span) -> (r: Ty)
        ensures
            (final(self)@, r@) == old(self)@.finish_optional_access(t@, field@, place, range),
    {
        let resolved = self.resolve(t);
        let item = if is_option_ty(&resolved) {
            self.item_of_option(&resolved)
        } else if matches!(&resolved, Ty::Var(_)) {
            let x = self.fresh();
            let opt = option_ty(x.clone());
            let _ = self.unify(t, &opt, place, "optional access receiver");
            x
        } else {
            let s = ty_text(&resolved);
            return self.error(
                ErrorCode::InvalidOptionalAccess,
                cat3("`?.` requires Option, found `", s.as_str(), "`"),
                range,
            );
        };
        let f = self.field_type_from_ty(&item, field, range);
        option_ty(f)
    }

    /// The element type of an array literal so far, with one more element.
    pub fn finish_element(&mut self, sofar: Option<Ty>, t: &Ty, range: Span) -> (r: Ty)
        ensures
            (final(self)@, r@) == old(self)@.finish_element(sofar.deep_view(), t@, range),
    {
        let x = self.resolve(t);
        match sofar {
            None => x,
            Some(p) => {
                let e = self.resolve(&p);
                if unify_with(&self.subst, &e, &x).is_err() {
                    let a = ty_text(&e);
                    let b = ty_text(&x);
                    let _ = self.error_with_help(
                        ErrorCode::TypeMismatch,
                        cat5(
                            "array element type mismatch: expected `",
                            a.as_str(),
                            "`, found `",
                            b.as_str(),
                            "`",
                        ),
                        range,
                        "an array literal requires every element to have the same type".to_owned(),
                    );
                }
                p
            },
        }
    }

    /// Report the repeated names of a record literal.
    pub fn report_repeated(&mut self, fields: &Vec<FieldInit>, range: Span)
        ensures
            final(self)@ == old(self)@.report_repeated(fields@, range, 0, Set::empty()),
    {
        let mut seen = NameSet::new();
        let ghost whole = self@.report_repeated(fields@, range, 0, Set::empty());
        let mut i: usize = 0;
        while i < fields.len()
            invariant
                i <= fields.len(),
                whole == self@.report_repeated(fields@, range, i as nat, seen@),
            decreases fields.len() - i,
        {
            let name = fields[i].name.as_str();
            if seen.contains(name) {
                let _ = self.error_with_help(
                    ErrorCode::DuplicateField,
                    cat3("Duplicate field `", name, "` in record literal"),
                    range,
                    "record literals must have unique field names".to_owned(),
                );
            }
            let _ = seen.insert(fields[i].name.clone());
            i += 1;
        }
    }

    fn rebind_array(&mut self, target: &Output, t: &Ty)
        ensures
            final(self)@ == old(self)@.rebind_array(*target, t@),
    {
        if let Some(name) = name_of(target) {
            self.bind(name.as_str(), Scheme::mono(t.clone()));
            self.note_var(name.as_str(), t);
        }
    }

    /// `push(array, value)`: the array may have any length afterwards.
    pub fn finish_push(&mut self, target: &Output, value: &Output, array_ty: &Ty, value_ty: &Ty) -> (r:
        Ty)
        ensures
            (final(self)@, r@) == old(self)@.finish_push(*target, *value, array_ty@, value_ty@),
    {
        let resolved = self.resolve(array_ty);
        match &resolved {
            Ty::Array { element, .. } => {
                assert(resolved@.kids()[0] == element@);
                let _ = self.coerce_or_unify(
                    element,
                    value_ty,
                    Some(value),
                    value.span,
                    "push element",
                );
                let t = array(self.resolve(element));
                self.rebind_array(target, &t);
                t
            },
            Ty::Var(v) => {
                let e = self.fresh();
                let open = array(e.clone());
                let _ = self.unify(&Ty::Var(*v), &open, target.span, "push array");
                let _ = self.unify(&e, value_ty, value.span, "push element");
                let t = self.resolve(&open);
                self.rebind_array(target, &t);
                t
            },
            _ => {
                let s = ty_text(&resolved);
                self.error_with_help(
                    ErrorCode::ConstructorArity,
                    "push expects an array as its first argument".to_owned(),
                    target.span,
                    cat3("found `", s.as_str(), "`; use `push(array, value)`"),
                )
            },
        }
    }

    /// `len(array)`.
    pub fn finish_len(&mut self, t: &Ty, place: Span) -> (r: Ty)
        ensures
            (final(self)@, r@) == old(self)@.finish_len(t@, place),
    {
        let resolved = self.resolve(t);
        match &resolved {
            Ty::Array { .. } => int_ty(),
            Ty::Var(v) => {
                let e = self.fresh();
                let open = array(e);
                let _ = self.unify(&Ty::Var(*v), &open, place, "len array");
                int_ty()
            },
            _ => {
                let s = ty_text(&resolved);
                self.error_with_help(
                    ErrorCode::ConstructorArity,
                    "len expects an array".to_owned(),
                    place,
                    cat3("found `", s.as_str(), "`; use `len(array)`"),
                )
            },
        }
    }

    /// Report a builtin called with a wrong number of arguments.
    pub fn wrong_arity(&mut self, what: &str, got: usize, range: Span, help: &str) -> (r: Ty)
        ensures
            (final(self)@, r@) == old(self)@.wrong_arity(what@, got as nat, range, help@),
    {
        let n = number(got);
        self.error_with_help(
            ErrorCode::ConstructorArity,
            cat3(what, ", got ", n.as_str()),
            range,
            help.to_owned(),
        )
    }

    /// Expect a coroutine handle: the types that it yields and receives.
    pub fn expect_coroutine(&mut self, t: &Ty, range: Span, what: &str) -> (r: (Ty, Ty))
        ensures
            (final(self)@, r.0@, r.1@) == old(self)@.expect_coroutine(t@, range, what@),
    {
        let y = self.fresh();
        let s = self.fresh();
        let c = coroutine_type(y.clone(), s.clone());
        let _ = self.unify(t, &c, range, what);
        (y, s)
    }
}

fn array_bounds_message(i: i64, n: usize) -> (r: String)
    ensures
        r@ == CheckerV::array_bounds_text(i, n),
{
    let k = signed_number(i);
    let m = number(n);
    cat4("array index ", k.as_str(), " out of bounds for array of length ", m.as_str())
}

} // verus!
