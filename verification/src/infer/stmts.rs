//! Statements and declarations: what they bind and record, once what they hold
//! is typed.
use crate::ast::{self, EnumVariantPayload, Expression, ForeignFn, Output, TypeParam, Visibility, identifier_name, unwrap_expr_wrappers};
use crate::env::{Scheme, SchemeV};
use crate::infer::builtins::{self, curry, encode_tag_operand};
use crate::infer::calls;
use crate::infer::decls::{self, function_type};
use crate::infer::ops::{self, name_of};
use crate::infer::traits::{self, vars_as_tys};
use crate::infer::{CStructDef, CStructV, Checker, CheckerV, ClassMethod, ClassMethodV, CtxV, RegistryV, TablesV};
use crate::maps::{Dup, NameMap};
use crate::report::{ErrorCode, Label, Message, MessageV, Span};
use crate::text::{self, cat3, number, same_text};
use crate::tree::{self, Head, Tree};
use crate::ty::{Constraint, EnumVariantPayloadTy, Ty, TyVarId, app, con, constructor, copy_variants, copy_vars, unit};
use crate::unify::payload_types;
use crate::virtual_modules::BuiltinExport;
use vstd::prelude::*;

verus! {

broadcast use crate::tree::group_shapes;

/// The expression that initializes a variable, without plain wrappers and
/// without `?`.
pub open spec fn initializer(next: Output) -> Output {
    let e = ast::unwrapped(next);
    match *e.expr {
        Expression::Try(inner) => ast::unwrapped(inner),
        _ => e,
    }
}

/// The arguments of a `declare` that initializes a variable.
pub open spec fn declare_args(next: Output) -> Option<Seq<Output>> {
    match *initializer(next).expr {
        Expression::Declare(args) => Some(args@),
        Expression::Call { name, args } => match (ops::bare_name(name), args) {
            (Some(n), Some(a)) => if n == "declare"@ {
                Some(a@)
            } else {
                None
            },
            _ => None,
        },
        _ => None,
    }
}

fn args_of_declare(next: &Output) -> (r: Option<&Vec<Output>>)
    ensures
        match r {
            Some(a) => declare_args(*next) == Some(a@),
            None => declare_args(*next) is None,
        },
{
    let e = unwrap_expr_wrappers(next);
    let init = match &*e.expr {
        Expression::Try(inner) => unwrap_expr_wrappers(inner),
        _ => e,
    };
    match &*init.expr {
        Expression::Declare(args) => Some(args),
        Expression::Call { name, args } => match (name_of(name), args) {
            (Some(n), Some(a)) => if same_text(n.as_str(), "declare") {
                Some(a)
            } else {
                None
            },
            _ => None,
        },
        _ => None,
    }
}

/// How many parts a declared payload has.
pub open spec fn payload_parts(p: EnumVariantPayload) -> nat {
    match p {
        EnumVariantPayload::Unit => 0,
        EnumVariantPayload::Tuple(parts) => parts@.len(),
        EnumVariantPayload::Record(fields) => fields@.len(),
    }
}

fn count_parts(p: &EnumVariantPayload) -> (r: usize)
    ensures
        r == payload_parts(*p),
{
    match p {
        EnumVariantPayload::Unit => 0,
        EnumVariantPayload::Tuple(parts) => parts.len(),
        EnumVariantPayload::Record(fields) => fields.len(),
    }
}

/// The declared variants that have the shape they were entered with, from place
/// `at` on.
pub open spec fn built_variants(
    variants: Seq<Output>,
    names: Seq<Seq<char>>,
    payloads: Seq<Tree>,
    at: nat,
    acc: Seq<(Seq<char>, Tree)>,
) -> Seq<(Seq<char>, Tree)>
    decreases variants.len() - at,
{
    if at >= variants.len() {
        acc
    } else {
        match *variants[at as int].expr {
            Expression::EnumVariant { name, payload } => if at < payloads.len() && at < names.len()
                && names[at as int] == name@ && payloads[at as int].kids().len() == payload_parts(
                payload,
            ) {
                built_variants(
                    variants,
                    names,
                    payloads,
                    at + 1,
                    acc.push((name@, payloads[at as int])),
                )
            } else {
                built_variants(variants, names, payloads, at + 1, acc)
            },
            _ => built_variants(variants, names, payloads, at + 1, acc),
        }
    }
}

fn build_variants(
    variants: &Vec<Output>,
    names: &Vec<String>,
    payloads: &Vec<EnumVariantPayloadTy>,
) -> (r: Vec<(String, EnumVariantPayloadTy)>)
    ensures
        r.deep_view() == built_variants(
            variants@,
            names.deep_view(),
            payloads.deep_view(),
            0,
            Seq::empty(),
        ),
{
    let mut acc: Vec<(String, EnumVariantPayloadTy)> = Vec::new();
    assert(acc.deep_view() =~= Seq::<(Seq<char>, Tree)>::empty());
    let ghost ns = names.deep_view();
    let ghost ps = payloads.deep_view();
    let ghost whole = built_variants(variants@, ns, ps, 0, Seq::empty());
    let mut i: usize = 0;
    while i < variants.len()
        invariant
            i <= variants.len(),
            ns == names.deep_view(),
            ps == payloads.deep_view(),
            whole == built_variants(variants@, ns, ps, i as nat, acc.deep_view()),
        decreases variants.len() - i,
    {
        if let Expression::EnumVariant { name, payload } = &*variants[i].expr {
            if i < payloads.len() && i < names.len() {
                assert(ns[i as int] == names@[i as int]@);
                assert(ps[i as int] == payloads@[i as int]@);
                if same_text(names[i].as_str(), name.as_str()) && payloads[i].field_count()
                    == count_parts(payload) {
                    let ghost before = acc.deep_view();
                    let x = (name.clone(), payloads[i].clone());
                    acc.push(x);
                    assert(acc.deep_view() =~= before.push((x.0@, x.1@)));
                }
            }
        }
        i += 1;
    }
    acc
}

/// An enum with these variants.
pub open spec fn sum_tree(name: Seq<char>, variants: Seq<(Seq<char>, Tree)>) -> Tree {
    Tree::Node(Head::Sum(name, tree::names_of(variants)), tree::trees_of(variants))
}

/// A value of the variant of an enum with this tag.
pub open spec fn constructor_tree(owner: Tree, tag: u32, arity: usize) -> Tree {
    Tree::Node(Head::Constructor(tag, arity), seq![owner])
}

impl CheckerV {
    /// The first type at a span is recorded.
    pub open spec fn note_span(self, span: Span, t: Tree) -> CheckerV {
        if self.out.types_by_span.contains_key(span) {
            self
        } else {
            CheckerV {
                out: TablesV {
                    types_by_span: self.out.types_by_span.insert(span, t),
                    ..self.out
                },
                ..self
            }
        }
    }

    /// The callables among the names in scope are bound, from place `at` on.
    pub open spec fn bind_callables(self, names: Seq<Seq<char>>, at: nat) -> CheckerV
        decreases names.len() - at,
    {
        if at >= names.len() {
            self
        } else {
            let name = names[at as int];
            let c = if self.lookup(name) is Some || !self.scope.bindings.contains_key(name) {
                self
            } else {
                match self.scope.bindings[name] {
                    BuiltinExport::IoFn { kind } => self.bind(
                        name,
                        SchemeV::mono(builtins::io_fn_ty(kind)),
                    ),
                    BuiltinExport::FfiFn { .. } => {
                        let (c, v) = self.fresh();
                        c.bind(name, SchemeV::mono(v))
                    },
                    _ => self,
                }
            };
            c.bind_callables(names, at + 1)
        }
    }

    /// A `use`: of a virtual module, or of a function of another module, whose
    /// type is open here.
    pub open spec fn apply_use(self, path: Seq<Seq<char>>, name: Seq<char>, alias: Option<Seq<char>>) -> CheckerV {
        match self.apply_virtual_use(path, name, alias) {
            (c, true) => c.bind_callables(c.scope.binding_order, 0),
            (c, false) => {
                let (c, v) = c.fresh();
                c.bind(
                    match alias {
                        Some(a) => a,
                        None => name,
                    },
                    SchemeV::mono(v),
                )
            },
        }
    }

    /// Foreign functions are bound, from place `at` on.
    pub open spec fn declare_foreign(self, items: Seq<ForeignFn>, at: nat) -> CheckerV
        decreases items.len() - at,
    {
        if at >= items.len() {
            self
        } else {
            let f = items[at as int];
            let (c, args) = self.parse_arg_list(f.args);
            let (c, ret) = match f.returns {
                Some(r) => c.parse_type_name(r),
                None => (c, Tree::con("unit"@)),
            };
            c.bind(f.name@, SchemeV::mono(decls::fn_type(args, None, ret))).declare_foreign(
                items,
                at + 1,
            )
        }
    }

    /// The type that is annotated, or an open one.
    pub open spec fn annotated(self, ann: Option<Output>) -> (CheckerV, Tree) {
        match ann {
            Some(a) => self.parse_type_name(a),
            None => self.fresh(),
        }
    }

    /// A variable is declared.
    pub open spec fn declare_var(self, name: Seq<char>, ann: Option<Output>) -> (CheckerV, Tree) {
        let (c, t) = self.annotated(ann);
        (c.bind(name, SchemeV::mono(t)), Tree::con("unit"@))
    }

    /// A constant is declared.
    pub open spec fn declare_const(self, name: Output, ann: Option<Output>, range: Span) -> (
        CheckerV,
        Tree,
    ) {
        let (c, t) = self.annotated(ann);
        match ops::bare_name(name) {
            Some(n) => (
                c.bind(n, SchemeV::mono(t)).insert_const_binding(n),
                Tree::con("unit"@),
            ),
            None => c.error_with_help(
                ErrorCode::GenericTypeError,
                "Invalid constant name"@,
                range,
                "a constant name must be an identifier"@,
            ),
        }
    }

    /// What is expected of the next expression.
    pub open spec fn with_expected(self, t: Option<Tree>) -> CheckerV {
        CheckerV { ctx: CtxV { expected: t, ..self.ctx }, ..self }
    }

    /// The value of a `yield` is used.
    pub open spec fn note_yield(self, e: Output) -> CheckerV {
        if ast::yields(e) {
            CheckerV { ctx: CtxV { yield_receives_used: true, ..self.ctx }, ..self }
        } else {
            self
        }
    }

    /// The scheme of a generic function that initializes a variable.
    pub open spec fn generic_source(self, next: Output) -> Option<SchemeV> {
        match ast::named_by(next) {
            Some(source) => match self.lookup(source) {
                Some(s) => if s.bounds.len() > 0 {
                    Some(s)
                } else {
                    None
                },
                None => None,
            },
            None => None,
        }
    }

    /// A binding is initialized by a value.
    pub open spec fn initialize(
        self,
        name: Seq<char>,
        var_ty: Tree,
        val_ty: Tree,
        next: Output,
        range: Span,
        what: Seq<char>,
    ) -> CheckerV {
        let c = self.coerce_or_unify(var_ty, val_ty, Some(next), range, what).0;
        c.note_var(name, c.resolve(var_ty))
    }

    /// What a foreign function returns is recorded, when `next` declares one.
    pub open spec fn note_declare(self, name: Seq<char>, next: Output) -> CheckerV {
        match declare_args(next) {
            Some(args) => if args.len() == 4 {
                CheckerV {
                    reg: RegistryV {
                        ffi_fn_ret_tys: self.reg.ffi_fn_ret_tys.insert(
                            name,
                            self.ty_from_ffi_type_expr(args[3]),
                        ),
                        ..self.reg
                    },
                    ..self
                }
            } else {
                self
            },
            None => self,
        }
    }

    /// Everything of an `impl` before its methods: the type of the receiver and
    /// the variables of its parameters.
    pub open spec fn open_impl(self, owner: Seq<char>, params: Seq<TypeParam>) -> (
        CheckerV,
        Tree,
        Seq<TyVarId>,
    ) {
        let vars = self.pushed_vars(params);
        let c = self.push_type_params(params);
        let t = if params.len() == 0 {
            Tree::con(owner)
        } else {
            Tree::app(Tree::con(owner), traits::var_trees(vars))
        };
        let c = if c.reg.classes.contains_key(owner) {
            c
        } else {
            c.enter_class(owner, Seq::empty()).bind(owner, SchemeV::mono(Tree::con(owner)))
        };
        (c.push_scope().bind("self"@, SchemeV::mono(t)), t, vars)
    }

    /// Everything of an `impl` after its methods.
    pub open spec fn close_impl(self, pushed: bool) -> CheckerV {
        self.pop_scope().pop_type_params(pushed)
    }

    /// A method of a class is entered; it is generic in the parameters of its
    /// `impl`.
    pub open spec fn add_method(
        self,
        owner: Seq<char>,
        name: Seq<char>,
        vis: Visibility,
        vars: Seq<TyVarId>,
        t: Tree,
    ) -> CheckerV {
        let scheme = if vars.len() == 0 {
            SchemeV::mono(t)
        } else {
            SchemeV::poly(vars, Seq::empty(), t)
        };
        let there = if self.reg.methods.contains_key(owner) {
            self.reg.methods[owner]
        } else {
            Map::empty()
        };
        CheckerV {
            reg: RegistryV {
                methods: self.reg.methods.insert(
                    owner,
                    there.insert(name, ClassMethodV { vis, scheme }),
                ),
                ..self.reg
            },
            ..self
        }
    }

    /// The constructors of an enum are bound, from place `at` on.
    pub open spec fn bind_ctors(
        self,
        name: Seq<char>,
        variants: Seq<(Seq<char>, Tree)>,
        at: nat,
    ) -> CheckerV
        decreases variants.len() - at,
    {
        if at >= variants.len() {
            self
        } else {
            let (vname, payload) = variants[at as int];
            let t = builtins::curried(
                payload.kids(),
                constructor_tree(
                    sum_tree(name, variants),
                    at as u32,
                    payload.kids().len() as usize,
                ),
            );
            self.bind(name + "::"@ + vname, SchemeV::mono(t)).bind_ctors(name, variants, at + 1)
        }
    }

    /// The name and the constructors of an enum are bound.
    pub open spec fn bind_enum(self, name: Seq<char>, variants: Seq<(Seq<char>, Tree)>) -> CheckerV {
        self.bind(name, SchemeV::mono(Tree::con(name))).bind_ctors(name, variants, 0)
    }

    /// An alias is declared.
    pub open spec fn declare_alias(
        self,
        name: Seq<char>,
        params: Seq<TypeParam>,
        ty: Output,
        range: Span,
    ) -> CheckerV {
        let c = self.register_generic_type_ctor(name, params).0;
        let vars = c.pushed_vars(params);
        let pushed = params.len() > 0;
        let (c, t) = c.push_type_params(params).parse_type_name(ty);
        let c = c.pop_type_params(pushed);
        if pushed {
            c.register_generic_alias(
                name,
                crate::infer::AliasV {
                    params: decls::param_names(params),
                    param_vars: vars,
                    body: t,
                },
                range,
            )
        } else {
            c.register_type_alias(name, t, range)
        }
    }

    /// A class is declared, with its type parameters.
    pub open spec fn declare_class(self, name: Seq<char>, params: Seq<TypeParam>, fields: Seq<Output>) -> CheckerV {
        let c = self.register_generic_type_ctor(name, params).0;
        c.push_type_params(params).register_class(name, fields).pop_type_params(params.len() > 0)
    }

    /// A field of a foreign struct: its name and how its type is encoded.
    pub open spec fn c_field(self, name: Seq<char>, ty: Output) -> (CheckerV, (Seq<char>, u32)) {
        let c = self.require_ffi_type_expr(ty);
        (
            c,
            (
                name,
                match c.ffi_type_tag_from_output(ty) {
                    Some((tag, aux)) => builtins::packed_tag(tag, aux),
                    None => 0,
                },
            ),
        )
    }

    /// A foreign struct is entered.
    pub open spec fn add_c_struct(self, name: Seq<char>, fields: Seq<(Seq<char>, u32)>) -> CheckerV {
        CheckerV {
            reg: RegistryV {
                c_structs: self.reg.c_structs.push(CStructV { name, fields }),
                ..self.reg
            },
            ..self
        }
    }

    /// A name of the foreign function interface that was not imported.
    pub open spec fn not_imported(self, name: Seq<char>, range: Span) -> (CheckerV, Tree) {
        self.error_with_help(
            ErrorCode::UnknownValue,
            "Cannot find value `"@ + name + "` in this scope"@,
            range,
            "import it with `use ffi::"@ + name + ";` or `use ffi::*;`"@,
        )
    }

    /// A name of the foreign function interface must be imported.
    pub open spec fn require_ffi(self, name: Seq<char>, range: Span) -> CheckerV {
        if self.ffi_fn_in_scope(name) is None {
            self.not_imported(name, range).0
        } else {
            self
        }
    }

    /// An error with one label, at one place.
    pub open spec fn say_labelled(
        self,
        code: ErrorCode,
        text: Seq<char>,
        label: Seq<char>,
        range: Span,
    ) -> CheckerV {
        self.report(MessageV::error(code, text, range).labelled(label, range))
    }

    /// The complaint about a wrong number of arguments.
    pub open spec fn wrong_count(self, code: ErrorCode, text: Seq<char>, got: nat, range: Span) -> CheckerV {
        self.say_labelled(code, text, "got "@ + text::decimal(got) + " arguments"@, range)
    }

    /// The type of a node that is not inferred.
    pub open spec fn fix_node(self, t: Tree) -> CheckerV {
        let (c, id) = self.next_id();
        c.cache_at(id, t)
    }

    /// What a foreign function returns, by the name it was bound to.
    pub open spec fn invoked_ty(self, callee: Output) -> Tree {
        match ops::bare_name(callee) {
            Some(n) => if self.reg.ffi_fn_ret_tys.contains_key(n) {
                self.reg.ffi_fn_ret_tys[n]
            } else {
                Tree::con("int"@)
            },
            None => Tree::con("int"@),
        }
    }
}

impl Checker {
    /// Record the first type at a span.
    pub fn note_span(&mut self, span: Span, t: &Ty)
        ensures
            final(self)@ == old(self)@.note_span(span, t@),
    {
        if !self.out.types_by_span.contains_key(&span) {
            self.out.types_by_span.insert(span, t.clone());
        }
    }

    fn bind_callables(&mut self, names: &Vec<String>)
        ensures
            final(self)@ == old(self)@.bind_callables(names.deep_view(), 0),
    {
        let ghost all = names.deep_view();
        let ghost whole = self@.bind_callables(all, 0);
        let mut i: usize = 0;
        while i < names.len()
            invariant
                i <= names.len(),
                all == names.deep_view(),
                whole == self@.bind_callables(all, i as nat),
            decreases names.len() - i,
        {
            assert(all[i as int] == names@[i as int]@);
            let name = names[i].as_str();
            if self.lookup(name).is_none() {
                let found = match self.scope.bindings.get(name) {
                    Some(e) => Some(e.dup()),
                    None => None,
                };
                match found {
                    Some(BuiltinExport::IoFn { kind }) => self.bind(
                        name,
                        Checker::io_fn_scheme(kind),
                    ),
                    Some(BuiltinExport::FfiFn { .. }) => {
                        let v = self.fresh();
                        self.bind(name, Scheme::mono(v));
                    },
                    _ => {},
                }
            }
            i += 1;
        }
    }

    fn binding_names(&self) -> (r: Vec<String>)
        ensures
            r.deep_view() == self@.scope.binding_order,
    {
        let ghost all = self@.scope.binding_order;
        let n = self.scope.bindings.len();
        let mut r: Vec<String> = Vec::new();
        let mut i: usize = 0;
        while i < n
            invariant
                i <= n,
                n == self.scope.bindings.order().len(),
                all == self.scope.bindings.order(),
                r.deep_view() == all.take(i as int),
            decreases n - i,
        {
            let ghost before = r.deep_view();
            let x = self.scope.bindings.key_at(i).clone();
            r.push(x);
            assert(r.deep_view() =~= before.push(x@));
            i += 1;
            assert(r.deep_view() =~= all.take(i as int));
        }
        assert(r.deep_view() =~= all);
        r
    }

    /// Apply a `use`.
    pub fn apply_use(&mut self, path: &Vec<String>, name: &str, alias: Option<&str>)
        ensures
            final(self)@ == old(self)@.apply_use(path.deep_view(), name@, calls::opt_name(alias)),
    {
        if self.apply_virtual_use(path, name, alias) {
            let names = self.binding_names();
            self.bind_callables(&names);
            return;
        }
        let v = self.fresh();
        match alias {
            Some(a) => self.bind(a, Scheme::mono(v)),
            None => self.bind(name, Scheme::mono(v)),
        }
    }

    /// Bind foreign functions.
    pub fn declare_foreign(&mut self, items: &Vec<ForeignFn>)
        ensures
            final(self)@ == old(self)@.declare_foreign(items@, 0),
    {
        let ghost whole = self@.declare_foreign(items@, 0);
        let mut i: usize = 0;
        while i < items.len()
            invariant
                i <= items.len(),
                whole == self@.declare_foreign(items@, i as nat),
            decreases items.len() - i,
        {
            let f = &items[i];
            let args = self.parse_arg_list(&f.args);
            let ret = match &f.returns {
                Some(r) => self.parse_type_name(r),
                None => unit(),
            };
            let t = function_type(&args, None, ret);
            self.bind(f.name.as_str(), Scheme::mono(t));
            i += 1;
        }
    }

    /// The type that is annotated, or an open one.
    pub fn annotated(&mut self, ann: &Option<Output>) -> (r: Ty)
        ensures
            (final(self)@, r@) == old(self)@.annotated(*ann),
    {
        match ann {
            Some(a) => self.parse_type_name(a),
            None => self.fresh(),
        }
    }

    /// Declare a variable.
    pub fn declare_var(&mut self, name: &str, ann: &Option<Output>) -> (r: Ty)
        ensures
            (final(self)@, r@) == old(self)@.declare_var(name@, *ann),
    {
        let t = self.annotated(ann);
        self.bind(name, Scheme::mono(t));
        unit()
    }

    /// Declare a constant.
    pub fn declare_const(&mut self, name: &Output, ann: &Option<Output>, range: Span) -> (r: Ty)
        ensures
            (final(self)@, r@) == old(self)@.declare_const(*name, *ann, range),
    {
        let t = self.annotated(ann);
        match name_of(name) {
            Some(n) => {
                self.bind(n.as_str(), Scheme::mono(t));
                self.insert_const_binding(n.as_str());
                unit()
            },
            None => self.error_with_help(
                ErrorCode::GenericTypeError,
                "Invalid constant name".to_owned(),
                range,
                "a constant name must be an identifier".to_owned(),
            ),
        }
    }

    /// Set what is expected of the next expression; returns what was before.
    pub fn swap_expected(&mut self, t: Option<Ty>) -> (r: Option<Ty>)
        ensures
            final(self)@ == old(self)@.with_expected(t.deep_view()),
            r.deep_view() == old(self)@.ctx.expected,
    {
        let before = self.ctx.expected.take();
        self.ctx.expected = t;
        before
    }

    /// Note when the value of a `yield` is used.
    pub fn note_yield(&mut self, e: &Output)
        ensures
            final(self)@ == old(self)@.note_yield(*e),
    {
        if ast::is_yield_expression(e) {
            self.ctx.yield_receives_used = true;
        }
    }

    /// The scheme of a generic function that initializes a variable.
    pub fn generic_source(&self, next: &Output) -> (r: Option<Scheme>)
        ensures
            r.deep_view() == self@.generic_source(*next),
    {
        match identifier_name(next) {
            Some(source) => match self.lookup(source.as_str()) {
                Some(s) => if s.bounds.len() > 0 {
                    Some(s)
                } else {
                    None
                },
                None => None,
            },
            None => None,
        }
    }

    /// Initialize a binding by a value.
    pub fn initialize(
        &mut self,
        name: &str,
        var_ty: &Ty,
        val_ty: &Ty,
        next: &Output,
        range: Span,
        what: &str,
    )
        ensures
            final(self)@ == old(self)@.initialize(
                name@,
                var_ty@,
                val_ty@,
                *next,
                range,
                what@,
            ),
    {
        let _ = self.coerce_or_unify(var_ty, val_ty, Some(next), range, what);
        let t = self.resolve(var_ty);
        self.note_var(name, &t);
    }

    /// Record what a foreign function returns, when `next` declares one.
    pub fn note_declare(&mut self, name: &str, next: &Output)
        ensures
            final(self)@ == old(self)@.note_declare(name@, *next),
    {
        if let Some(args) = args_of_declare(next) {
            if args.len() == 4 {
                let t = self.ty_from_ffi_type_expr(&args[3]);
                self.reg.ffi_fn_ret_tys.insert(name.to_owned(), t);
            }
        }
    }

    /// Do everything of an `impl` before its methods; returns the type of the
    /// receiver and the variables of its parameters.
    pub fn open_impl(&mut self, owner: &str, params: &Vec<TypeParam>) -> (r: (Ty, Vec<TyVarId>))
        ensures
            (final(self)@, r.0@, r.1@) == old(self)@.open_impl(owner@, params@),
    {
        let vars = self.push_type_params(params);
        let t = if params.len() == 0 {
            con(owner)
        } else {
            app(con(owner), vars_as_tys(&vars))
        };
        if !self.reg.classes.contains_key(owner) {
            let none: Vec<crate::infer::ClassField> = Vec::new();
            assert(none.deep_view() =~= Seq::<crate::infer::ClassFieldV>::empty());
            self.enter_class(owner, none);
            self.bind(owner, Scheme::mono(con(owner)));
        }
        self.push_scope();
        self.bind("self", Scheme::mono(t.clone()));
        (t, vars)
    }

    /// Do everything of an `impl` after its methods.
    pub fn close_impl(&mut self, pushed: bool)
        ensures
            final(self)@ == old(self)@.close_impl(pushed),
    {
        self.pop_scope();
        self.pop_type_params(pushed);
    }

    /// Enter a method of a class.
    pub fn add_method(&mut self, owner: &str, name: &str, vis: Visibility, vars: &Vec<TyVarId>, t: Ty)
        ensures
            final(self)@ == old(self)@.add_method(owner@, name@, vis, vars@, t@),
    {
        let none: Vec<Constraint> = Vec::new();
        assert(none.deep_view() =~= Seq::<Tree>::empty());
        let scheme = if vars.len() == 0 {
            Scheme::mono(t)
        } else {
            Scheme::poly(copy_vars(vars), none, t)
        };
        let mut there = match self.reg.methods.get(owner) {
            Some(m) => m.dup(),
            None => NameMap::new(),
        };
        there.insert(name.to_owned(), ClassMethod { vis, scheme });
        self.reg.methods.insert(owner.to_owned(), there);
    }

    fn bind_ctors(&mut self, name: &str, variants: &Vec<(String, EnumVariantPayloadTy)>)
        ensures
            final(self)@ == old(self)@.bind_ctors(name@, variants.deep_view(), 0),
    {
        let ghost all = variants.deep_view();
        let ghost whole = self@.bind_ctors(name@, all, 0);
        let mut i: usize = 0;
        while i < variants.len()
            invariant
                i <= variants.len(),
                all == variants.deep_view(),
                whole == self@.bind_ctors(name@, all, i as nat),
            decreases variants.len() - i,
        {
            assert(all[i as int] == (variants@[i as int].0@, variants@[i as int].1@));
            let payload = &variants[i].1;
            let sum = Ty::Sum { name: name.to_owned(), variants: copy_variants(variants) };
            let tag = #[verifier::truncate] (i as u32);
            let ctor = constructor(sum, tag, payload.field_count());
            assert(ctor@ =~= constructor_tree(sum@, tag, payload@.kids().len() as usize));
            let params = payload_types(payload);
            let t = curry(&params, ctor);
            let full = cat3(name, "::", variants[i].0.as_str());
            self.bind(full.as_str(), Scheme::mono(t));
            i += 1;
        }
    }

    /// Bind the name and the constructors of an enum that was entered with these
    /// names and payloads.
    pub fn bind_enum(
        &mut self,
        name: &str,
        variants: &Vec<Output>,
        names: &Vec<String>,
        payloads: &Vec<EnumVariantPayloadTy>,
    )
        ensures
            final(self)@ == old(self)@.bind_enum(
                name@,
                built_variants(
                    variants@,
                    names.deep_view(),
                    payloads.deep_view(),
                    0,
                    Seq::empty(),
                ),
            ),
    {
        let built = build_variants(variants, names, payloads);
        self.bind(name, Scheme::mono(con(name)));
        self.bind_ctors(name, &built);
    }

    /// Declare an alias.
    pub fn declare_alias(&mut self, name: &str, params: &Vec<TypeParam>, ty: &Output, range: Span)
        ensures
            final(self)@ == old(self)@.declare_alias(name@, params@, *ty, range),
    {
        let _ = self.register_generic_type_ctor(name, params);
        let param_vars = self.push_type_params(params);
        let pushed = params.len() > 0;
        let t = self.parse_type_name(ty);
        self.pop_type_params(pushed);
        if pushed {
            let def = crate::infer::GenericAliasDef {
                params: decls::names_of_params(params),
                param_vars,
                body: t,
            };
            self.register_generic_alias(name, def, range);
        } else {
            self.register_type_alias(name, t, range);
        }
    }

    /// Declare a class with its type parameters.
    pub fn declare_class(&mut self, name: &str, params: &Vec<TypeParam>, fields: &Vec<Output>)
        ensures
            final(self)@ == old(self)@.declare_class(name@, params@, fields@),
    {
        let _ = self.register_generic_type_ctor(name, params);
        let _ = self.push_type_params(params);
        self.register_class(name, fields);
        self.pop_type_params(params.len() > 0);
    }

    /// A field of a foreign struct.
    pub fn c_field(&mut self, name: &str, ty: &Output) -> (r: (String, u32))
        ensures
            (final(self)@, (r.0@, r.1)) == old(self)@.c_field(name@, *ty),
    {
        self.require_ffi_type_expr(ty);
        let enc = match self.ffi_type_tag_from_output(ty) {
            Some((tag, aux)) => encode_tag_operand(tag, aux),
            None => 0,
        };
        (name.to_owned(), enc)
    }

    /// Enter a foreign struct.
    pub fn add_c_struct(&mut self, name: &str, fields: Vec<(String, u32)>)
        ensures
            final(self)@ == old(self)@.add_c_struct(name@, fields.deep_view()),
    {
        let ghost before = self@.reg.c_structs;
        let def = CStructDef { name: name.to_owned(), fields };
        self.reg.c_structs.push(def);
        assert(self@.reg.c_structs =~= before.push(def@));
    }

    /// Complain about a name of the foreign function interface that was not
    /// imported.
    pub fn not_imported(&mut self, name: &str, range: Span) -> (r: Ty)
        ensures
            (final(self)@, r@) == old(self)@.not_imported(name@, range),
    {
        self.error_with_help(
            ErrorCode::UnknownValue,
            cat3("Cannot find value `", name, "` in this scope"),
            range,
            cat3("import it with `use ffi::", name, ";` or `use ffi::*;`"),
        )
    }

    /// Require that a name of the foreign function interface is imported.
    pub fn require_ffi(&mut self, name: &str, range: Span)
        ensures
            final(self)@ == old(self)@.require_ffi(name@, range),
    {
        if self.ffi_fn_in_scope(name).is_none() {
            let _ = self.not_imported(name, range);
        }
    }

    /// Record an error with one label, at one place.
    pub fn say_labelled(&mut self, code: ErrorCode, text: &str, label: String, range: Span)
        ensures
            final(self)@ == old(self)@.say_labelled(code, text@, label@, range),
    {
        let mut m = Message::error(code, text.to_owned(), range);
        m.push(Label::new(label, range));
        self.report(m);
    }

    /// Complain about a wrong number of arguments.
    pub fn wrong_count(&mut self, code: ErrorCode, text: &str, got: usize, range: Span)
        ensures
            final(self)@ == old(self)@.wrong_count(code, text@, got as nat, range),
    {
        let n = number(got);
        self.say_labelled(code, text, cat3("got ", n.as_str(), " arguments"), range);
    }

    /// Record the type of a node that is not inferred.
    pub fn fix_node(&mut self, t: &Ty)
        ensures
            final(self)@ == old(self)@.fix_node(t@),
    {
        let id = self.next_id();
        self.cache_at(id, t);
    }

    /// What a foreign function returns, by the name it was bound to.
    pub fn invoked_ty(&self, callee: &Output) -> (r: Ty)
        ensures
            r@ == self@.invoked_ty(*callee),
    {
        match name_of(callee) {
            Some(n) => match self.reg.ffi_fn_ret_tys.get(n.as_str()) {
                Some(t) => t.clone(),
                None => crate::ty::int_ty(),
            },
            None => crate::ty::int_ty(),
        }
    }
}

} // verus!
